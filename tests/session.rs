use image::AnimationDecoder;
use nesbot::control::{parse_command, Button, Command, ControlState, START_BIT};
use nesbot::layout::{components, ButtonView, Style};
use nesbot::operation::{
    is_playable, OpKind, Operation, Progress, ADVANCE_FRAME_LIMIT, ADVANCE_MIN_CAPTURED,
    BOOT_FRAME_LIMIT, BOOT_SCRIPT_FRAMES, PLAYER_IN_CONTROL, WARMUP_FRAMES,
};
use nesbot::render::{as_gif, as_png, package, ArtifactKind, RenderError, FRAME_BYTES};
use nesbot::session::{retry_publish, Directive, Dispatch, Session, SessionError, PUBLISH_ATTEMPTS};

/// Runs an operation, reporting control from frame `playable_from` on, and
/// hands back each step that was taken.
fn drive(op: &mut Operation, playable_from: u64) -> (Progress, Vec<(u8, bool)>) {
    let mut steps = Vec::new();
    loop {
        let step = op.next_step();
        steps.push((step.input, step.capture));
        let frame = if step.capture { Some(vec![0u8; FRAME_BYTES]) } else { None };
        let progress = op.record(op.stepped + 1 >= playable_from, frame);
        if progress != Progress::Running {
            return (progress, steps);
        }
    }
}

fn find<'a>(rows: &'a [Vec<ButtonView>], id: &str) -> &'a ButtonView {
    rows.iter().flatten().find(|b| b.custom_id == id).unwrap()
}

fn test_frame(seed: u8) -> Vec<u8> {
    (0..FRAME_BYTES).map(|i| if i % 4 == 3 { 255 } else { seed.wrapping_add((i / 4 % 7) as u8) }).collect()
}

#[test]
fn fresh_session_up_then_a() {
    let mut s = Session::new();
    assert!(matches!(s.handle("up"), Dispatch::Update(_)));
    let reply = match s.handle("a") {
        Dispatch::Update(r) => r,
        _ => panic!("expected an update"),
    };
    assert_eq!(s.control.bits, 0b0001_0001);
    assert_eq!(find(&reply.rows, "up").style, Style::Success);
    assert_eq!(find(&reply.rows, "a").style, Style::Success);
    for id in ["b", "down", "left", "right"] {
        assert_eq!(find(&reply.rows, id).style, Style::Primary);
    }
    assert_eq!(find(&reply.rows, "next").style, Style::Secondary);
    assert!(matches!(reply.directive, Directive::Keep(None)));
}

#[test]
fn toggles_keep_published_attachment() {
    let mut s = Session::new();
    s.published(42);
    for token in ["left", "b", "left", "right"] {
        match s.handle(token) {
            Dispatch::Update(reply) => assert!(matches!(reply.directive, Directive::Keep(Some(42)))),
            _ => panic!("a button press must only update"),
        }
    }
    assert_eq!(s.attachment, Some(42));
}

#[test]
fn toggles_fold_as_xor_in_order() {
    let tokens = ["up", "a", "right", "up", "down", "b", "a", "left"];
    let mut s = Session::new();
    let mut expected = 0u8;
    for token in tokens {
        s.handle(token);
        let bit = match parse_command(token) {
            Some(Command::Toggle(b)) => b.bit(),
            _ => unreachable!(),
        };
        expected ^= 1 << bit;
        assert_eq!(s.control.bits, expected);
    }
    assert_eq!(s.control.bits, 0b1110_0010);
}

#[test]
fn toggle_twice_restores_state() {
    for start in [0u8, 0b0001_0001, 0xff, 0b1010_0101] {
        for b in [Button::A, Button::B, Button::Up, Button::Down, Button::Left, Button::Right] {
            let mut c = ControlState::new();
            c.store(start);
            let once = c.toggle(b);
            assert_ne!(once, start);
            assert_eq!(c.toggle(b), start);
            assert_eq!(c.load(), start);
        }
    }
}

#[test]
fn button_bits_match_controller_byte() {
    assert_eq!(Button::A.bit(), 0);
    assert_eq!(Button::B.bit(), 1);
    assert_eq!(START_BIT, 3);
    assert_eq!(Button::Up.bit(), 4);
    assert_eq!(Button::Down.bit(), 5);
    assert_eq!(Button::Left.bit(), 6);
    assert_eq!(Button::Right.bit(), 7);
    assert_eq!(Button::Right.mask(), 0x80);
    let mut c = ControlState::new();
    assert!(!c.held(4));
    c.toggle(Button::Up);
    assert!(c.held(4));
}

#[test]
fn parse_known_and_unknown_tokens() {
    assert_eq!(parse_command("a"), Some(Command::Toggle(Button::A)));
    assert_eq!(parse_command("down"), Some(Command::Toggle(Button::Down)));
    assert_eq!(parse_command("next"), Some(Command::Next));
    assert_eq!(parse_command("reset"), Some(Command::Reset));
    assert_eq!(parse_command("99"), None);
    assert_eq!(parse_command("00"), None);
    assert_eq!(parse_command(""), None);
    assert_eq!(parse_command("A"), None);
}

#[test]
fn unmapped_token_is_ignored() {
    let mut s = Session::new();
    s.handle("up");
    s.published(7);
    let before = s;
    assert!(matches!(s.handle("99"), Dispatch::Ignore));
    assert_eq!(s, before);
}

#[test]
fn layout_shape_and_fillers() {
    let rows = components(0);
    let lens: Vec<usize> = rows.iter().map(|r| r.len()).collect();
    assert_eq!(lens, vec![5, 5, 5, 2]);
    let filler = find(&rows, "13");
    assert!(filler.disabled);
    assert_eq!(filler.label, "_");
    assert_eq!(filler.style, Style::Secondary);
    let up = find(&rows, "up");
    assert!(!up.disabled);
    assert_eq!(up.label, "⬆");
    assert_eq!(rows[3][1].custom_id, "reset");
    assert_eq!(rows[3][1].label, "Reset");
    let all = components(0xff);
    assert_eq!(find(&all, "right").style, Style::Success);
    assert_eq!(find(&all, "reset").style, Style::Secondary);
}

#[test]
fn boot_script_presses_start_once() {
    let mut op = Operation::boot();
    let (progress, steps) = drive(&mut op, 0);
    assert_eq!(progress, Progress::Ready);
    assert_eq!(op.stepped, BOOT_SCRIPT_FRAMES);
    for (i, (input, capture)) in steps.iter().enumerate() {
        assert!(!capture);
        let expected = if i as u64 == WARMUP_FRAMES { 1 << START_BIT } else { 0 };
        assert_eq!(*input, expected);
    }
}

#[test]
fn boot_waits_for_control_and_stalls_at_limit() {
    let mut op = Operation::boot();
    assert_eq!(drive(&mut op, 300).0, Progress::Ready);
    assert_eq!(op.stepped, 300);
    let mut stuck = Operation::boot();
    assert_eq!(drive(&mut stuck, u64::MAX).0, Progress::Stalled);
    assert_eq!(stuck.stepped, BOOT_FRAME_LIMIT);
}

#[test]
fn advance_runs_minimum_and_captures_every_second_frame() {
    let mut op = Operation::advance(0b0001_0001);
    let (progress, steps) = drive(&mut op, 0);
    assert_eq!(progress, Progress::Ready);
    assert_eq!(op.stepped, 10);
    assert_eq!(op.captured.len(), ADVANCE_MIN_CAPTURED);
    let captures: Vec<bool> = steps.iter().map(|s| s.1).collect();
    assert_eq!(captures, vec![false, true, false, true, false, true, false, true, false, true]);
    assert!(steps.iter().all(|s| s.0 == 0b0001_0001));
}

#[test]
fn advance_stops_only_after_a_pair() {
    let mut op = Operation::advance(0);
    assert_eq!(drive(&mut op, 13).0, Progress::Ready);
    assert_eq!(op.stepped, 14);
    assert_eq!(op.captured.len(), 7);
}

#[test]
fn advance_frame_count_grows_and_is_bounded() {
    let mut op = Operation::advance(0);
    let mut last = op.stepped;
    loop {
        let capture = op.next_step().capture;
        let p = op.record(false, if capture { Some(vec![0u8; FRAME_BYTES]) } else { None });
        assert_eq!(op.stepped, last + 1);
        last = op.stepped;
        if p != Progress::Running {
            assert_eq!(p, Progress::Stalled);
            break;
        }
    }
    assert_eq!(op.stepped, ADVANCE_FRAME_LIMIT);
    let mut s = Session::new();
    s.handle("a");
    let before = s;
    assert_eq!(s.complete(op, &vec![0u8; FRAME_BYTES]).err(), Some(SessionError::Stalled));
    assert_eq!(s, before);
}

#[test]
fn next_attaches_animation_and_keeps_control() {
    let mut s = Session::new();
    s.published(5);
    s.handle("up");
    s.handle("a");
    let mut op = match s.handle("next") {
        Dispatch::Begin(op) => op,
        _ => panic!("next must start an operation"),
    };
    assert_eq!(op.kind, OpKind::Advance);
    assert_eq!(op.held, 0b0001_0001);
    assert_eq!(s.control.bits, 0b0001_0001);
    assert_eq!(drive(&mut op, 0).0, Progress::Ready);
    let reply = s.complete(op, &vec![0u8; FRAME_BYTES]).unwrap();
    assert_eq!(s.control.bits, 0b0001_0001);
    assert_eq!(find(&reply.rows, "up").style, Style::Success);
    match reply.directive {
        Directive::Attach(a) => {
            assert_eq!(a.kind, ArtifactKind::Animation);
            assert_eq!(a.media_type, "image/gif");
            assert_eq!(a.name, "frames.gif");
            assert_eq!(&a.data[..6], b"GIF89a");
        },
        Directive::Keep(_) => panic!("next must attach a new artifact"),
    }
    s.published(6);
    assert_eq!(s.attachment, Some(6));
}

#[test]
fn reset_clears_control_and_attaches_still() {
    let mut s = Session::new();
    s.handle("left");
    s.handle("b");
    let mut op = match s.handle("reset") {
        Dispatch::Begin(op) => op,
        _ => panic!("reset must start an operation"),
    };
    assert_eq!(op.kind, OpKind::Boot);
    assert_eq!(drive(&mut op, 200).0, Progress::Ready);
    assert!(op.playable);
    let reply = s.complete(op, &test_frame(9)).unwrap();
    assert_eq!(s.control.bits, 0);
    assert!(components(0).iter().flatten().all(|b| b.style != Style::Success));
    assert_eq!(find(&reply.rows, "left").style, Style::Primary);
    match reply.directive {
        Directive::Attach(a) => {
            assert_eq!(a.kind, ArtifactKind::Still);
            assert_eq!(a.media_type, "image/png");
            assert_eq!(a.name, "frame.png");
            assert_eq!(&a.data[..8], &[0x89, b'P', b'N', b'G', 0x0d, 0x0a, 0x1a, 0x0a]);
        },
        Directive::Keep(_) => panic!("reset must attach a new artifact"),
    }
}

#[test]
fn png_encoding_round_trips_pixels() {
    let frame = test_frame(3);
    let a = as_png(&frame).unwrap();
    assert_ne!(a.data, frame);
    let decoded = image::load_from_memory(&a.data).unwrap().to_rgba8();
    assert_eq!(decoded.width(), 256);
    assert_eq!(decoded.height(), 240);
    assert_eq!(decoded.into_raw(), frame);
}

#[test]
fn gif_encoding_keeps_frame_count() {
    let frames = vec![test_frame(1), test_frame(2), test_frame(3)];
    let a = as_gif(&frames).unwrap();
    assert_eq!(&a.data[..6], b"GIF89a");
    let decoder = image::codecs::gif::GifDecoder::new(std::io::Cursor::new(a.data)).unwrap();
    assert_eq!(decoder.into_frames().count(), 3);
}

#[test]
fn encoder_error_maps_to_render_error() {
    let err = image::ImageError::Limits(image::error::LimitError::from_kind(
        image::error::LimitErrorKind::InsufficientMemory,
    ));
    assert_eq!(package(ArtifactKind::Still, Err(err)).err(), Some(RenderError::Encoding));
    let ok = package(ArtifactKind::Animation, Ok(vec![1, 2, 3])).unwrap();
    assert_eq!(ok.data, vec![1, 2, 3]);
    assert_eq!(ok.media_type, "image/gif");
}

#[test]
fn probe_reads_player_state() {
    assert!(is_playable(PLAYER_IN_CONTROL));
    assert!(is_playable(8));
    assert!(!is_playable(0));
    assert!(!is_playable(7));
}

#[test]
fn publish_is_retried_once() {
    assert_eq!(PUBLISH_ATTEMPTS, 2);
    assert!(retry_publish(0));
    assert!(retry_publish(1));
    assert!(!retry_publish(2));
    assert!(!retry_publish(u32::MAX));
}
