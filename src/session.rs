//! One live session: the controller byte, the displayed artifact, and the
//! decisions taken for each UI event.
use vstd::prelude::*;
use crate::control::{
    command_of, lemma_toggles_fold, parse_command, toggled, xor_fold, Button, Command, ControlState,
};
use crate::layout::{components, layout_spec, rows_view, ButtonView};
use crate::operation::{OpKind, Operation, Progress, ADVANCE_MIN_CAPTURED, lemma_ready_advance_captures};
use crate::render::{
    as_gif, as_png, frames_view, gif_animation, is_artifact, png_image, Artifact, ArtifactKind,
    RenderError, FRAME_BYTES, FRAME_HEIGHT, FRAME_WIDTH, GIF_SPEED,
};

verus! {

/// Which artifact an update shows.
#[derive(Clone, Debug)]
pub enum Directive {
    /// Upload this artifact; it replaces the displayed one.
    Attach(Artifact),
    /// Keep the artifact already displayed, by its identifier, uploading
    /// nothing (`None` while nothing has been displayed yet).
    Keep(Option<u64>),
}

/// An update of the displayed message.
#[derive(Clone, Debug)]
pub struct Reply {
    pub rows: Vec<Vec<ButtonView>>,
    pub directive: Directive,
}

/// What the driver does with a UI event.
#[derive(Debug)]
pub enum Dispatch {
    /// Unknown token: nothing changes and nothing is sent.
    Ignore,
    /// Send this update now.
    Update(Reply),
    /// Run this operation on the emulator, then hand it to `complete`.
    Begin(Operation),
}

/// Why an operation produced no update.
#[derive(Clone, Copy, Debug, PartialEq, Eq, Structural)]
pub enum SessionError {
    /// The player never regained control within the frame budget.
    Stalled,
    /// The artifact could not be encoded.
    Encoding,
}

/// Maps an encoder error into a session error.
pub fn from_render(e: RenderError) -> (r: SessionError)
    ensures
        r == SessionError::Encoding,
{
    match e {
        RenderError::Encoding => SessionError::Encoding,
    }
}

/// Whether `reply` shows the grid for `input` and keeps artifact `id`.
pub open spec fn keeps(reply: Reply, input: u8, id: Option<u64>) -> bool {
    &&& rows_view(reply.rows@) == layout_spec(input)
    &&& reply.directive matches Directive::Keep(k) && k == id
}

/// Whether `reply` shows the grid for `input` and attaches an artifact of
/// `kind` carrying `data`.
pub open spec fn attaches(reply: Reply, input: u8, kind: ArtifactKind, data: Seq<u8>) -> bool {
    &&& rows_view(reply.rows@) == layout_spec(input)
    &&& reply.directive matches Directive::Attach(a) && is_artifact(a, kind, data)
}

/// The state that the event loop owns.
#[derive(Clone, Copy, Debug, PartialEq, Eq, Structural)]
pub struct Session {
    pub control: ControlState,
    /// Identifier of the artifact on display, once one was published.
    pub attachment: Option<u64>,
}

impl Session {
    /// A session with no button held and nothing displayed. Its first
    /// operation is `Operation::boot()`.
    pub fn new() -> (r: Session)
        ensures
            r.control.bits == 0,
            r.attachment is None,
    {
        Session { control: ControlState::new(), attachment: None }
    }

    /// Records the identifier under which the last attached artifact was
    /// published, so that later updates keep referring to it.
    pub fn published(&mut self, id: u64)
        ensures
            final(self).attachment == Some(id),
            final(self).control == old(self).control,
    {
        self.attachment = Some(id);
    }

    /// Decides what a UI event does. A button toggles its bit and the grid
    /// is redrawn around the artifact on display; "next" and "reset" start an
    /// operation and change nothing yet; anything else is ignored.
    pub fn handle(&mut self, token: &str) -> (r: Dispatch)
        ensures
            match command_of(token@) {
                None => r is Ignore && *final(self) == *old(self),
                Some(Command::Toggle(b)) => {
                    &&& final(self).control.bits == toggled(old(self).control.bits, b)
                    &&& final(self).attachment == old(self).attachment
                    &&& r matches Dispatch::Update(reply) && keeps(
                        reply,
                        final(self).control.bits,
                        old(self).attachment,
                    )
                },
                Some(Command::Next) => {
                    &&& *final(self) == *old(self)
                    &&& r matches Dispatch::Begin(op) && op.is_fresh(
                        OpKind::Advance,
                        old(self).control.bits,
                    )
                },
                Some(Command::Reset) => {
                    &&& *final(self) == *old(self)
                    &&& r matches Dispatch::Begin(op) && op.is_fresh(OpKind::Boot, 0)
                },
            },
    {
        match parse_command(token) {
            None => Dispatch::Ignore,
            Some(Command::Toggle(b)) => {
                let bits = self.control.toggle(b);
                let rows = components(bits);
                Dispatch::Update(Reply { rows, directive: Directive::Keep(self.attachment) })
            },
            Some(Command::Next) => Dispatch::Begin(Operation::advance(self.control.load())),
            Some(Command::Reset) => Dispatch::Begin(Operation::boot()),
        }
    }

    /// Turns a finished operation into an update. A boot clears the
    /// controller and attaches a PNG of `last_frame`; an advance keeps the
    /// controller and attaches a GIF of the captured frames. A finished
    /// operation always gives an update; a stalled one gives an error and
    /// leaves the session as it was.
    pub fn complete(&mut self, op: Operation, last_frame: &Vec<u8>) -> (r: Result<Reply, SessionError>)
        requires
            op.wf(),
            op.progress != Progress::Running,
            last_frame@.len() == FRAME_BYTES,
        ensures
            op.progress == Progress::Stalled ==> {
                &&& r == Err::<Reply, SessionError>(SessionError::Stalled)
                &&& *final(self) == *old(self)
            },
            op.progress == Progress::Ready ==> r is Ok && op.playable,
            r matches Ok(reply) ==> final(self).attachment == old(self).attachment,
            op.kind == OpKind::Boot ==> (r matches Ok(reply) ==> {
                &&& final(self).control.bits == 0
                &&& attaches(reply, 0, ArtifactKind::Still, png_image(last_frame@, FRAME_WIDTH, FRAME_HEIGHT))
            }),
            op.kind == OpKind::Advance ==> (r matches Ok(reply) ==> {
                &&& *final(self) == *old(self)
                &&& op.captured@.len() >= ADVANCE_MIN_CAPTURED
                &&& attaches(
                    reply,
                    old(self).control.bits,
                    ArtifactKind::Animation,
                    gif_animation(frames_view(op.captured@), FRAME_WIDTH, FRAME_HEIGHT, GIF_SPEED),
                )
            }),
    {
        if op.progress != Progress::Ready {
            return Err(SessionError::Stalled);
        }
        match op.kind {
            OpKind::Boot => match as_png(last_frame) {
                Ok(artifact) => {
                    self.control.store(0);
                    let rows = components(0);
                    Ok(Reply { rows, directive: Directive::Attach(artifact) })
                },
                Err(e) => Err(from_render(e)),
            },
            OpKind::Advance => {
                proof {
                    lemma_ready_advance_captures(op);
                }
                match as_gif(&op.captured) {
                    Ok(artifact) => {
                        let rows = components(self.control.load());
                        Ok(Reply { rows, directive: Directive::Attach(artifact) })
                    },
                    Err(e) => Err(from_render(e)),
                }
            },
        }
    }
}

/// Attempts at publishing one update: the first, and one retry.
pub const PUBLISH_ATTEMPTS: u32 = 2;

/// Whether to try publishing an update again after `failed` failed
/// attempts; after that the failure is only reported.
pub fn retry_publish(failed: u32) -> (r: bool)
    ensures
        r == (failed < PUBLISH_ATTEMPTS),
{
    failed < PUBLISH_ATTEMPTS
}

/// A run of button events handled one after another, each leaving the
/// session as `handle` states for a button, ends with the starting
/// controller byte XORed with the mask of every pressed button in arrival
/// order; after the first `k` events the byte is the start XORed with the
/// first `k` masks.
pub proof fn lemma_button_events(states: Seq<Session>, bs: Seq<Button>)
    requires
        states.len() == bs.len() + 1,
        forall|i: int| 0 <= i < bs.len() ==> (#[trigger] states[i + 1]).control.bits == toggled(states[i].control.bits, bs[i]),
    ensures
        forall|k: int| 0 <= k < states.len() ==> (#[trigger] states[k]).control.bits == states[0].control.bits ^ xor_fold(bs.take(k)),
        states.last().control.bits == states[0].control.bits ^ xor_fold(bs),
    decreases bs.len(),
{
    let s0 = states[0].control.bits;
    if bs.len() == 0 {
        assert(s0 ^ 0u8 == s0) by (bit_vector);
        assert forall|k: int| 0 <= k < states.len() implies (#[trigger] states[k]).control.bits == s0 ^ xor_fold(bs.take(k)) by {
            assert(bs.take(k).len() == 0);
        }
    } else {
        let n = bs.len() - 1;
        let init = states.drop_last();
        let ib = bs.drop_last();
        assert forall|i: int| 0 <= i < ib.len() implies (#[trigger] init[i + 1]).control.bits == toggled(init[i].control.bits, ib[i]) by {
            assert(init[i + 1] == states[i + 1]);
            assert(init[i] == states[i]);
        }
        lemma_button_events(init, ib);
        assert(init[n] == states[n]);
        let f = xor_fold(ib);
        let m = crate::control::mask_of(bs[n]);
        assert(bs.take(n + 1) =~= bs);
        assert(bs.drop_last() =~= ib);
        assert((s0 ^ f) ^ m == s0 ^ (f ^ m)) by (bit_vector);
        assert forall|k: int| 0 <= k < states.len() implies (#[trigger] states[k]).control.bits == s0 ^ xor_fold(bs.take(k)) by {
            if k <= n {
                assert(init[k] == states[k]);
                assert(bs.take(k) =~= ib.take(k));
            }
        }
    }
    lemma_toggles_fold(s0, bs);
}

} // verus!
