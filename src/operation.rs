//! Multi-frame operations: booting (also used by reset) and advancing.
//!
//! The emulator lives outside the library. An operation tells its driver
//! which controller byte to present for the next frame and whether to capture
//! that frame, and learns after each frame whether the player has control.
use vstd::prelude::*;
use crate::control::START_BIT;
use crate::render::{frames_fit, FRAME_BYTES};

verus! {

/// Idle frames before the start button is pressed during boot.
pub const WARMUP_FRAMES: u64 = 60;

/// Idle frames after the start button is released during boot.
pub const SETTLE_FRAMES: u64 = 60;

/// Frames of the scripted part of boot: warm-up, one frame of start, settle.
pub const BOOT_SCRIPT_FRAMES: u64 = 121;

/// Most frames that boot may take before it is declared stalled.
pub const BOOT_FRAME_LIMIT: u64 = 3600;

/// Frames that an advance always runs before it may stop.
pub const ADVANCE_MIN_FRAMES: u64 = 10;

/// Most frames that an advance may take before it is declared stalled.
/// Every second frame is captured, so an animation holds at most half this.
pub const ADVANCE_FRAME_LIMIT: u64 = 1200;

/// Fewest frames that a completed advance has captured.
pub const ADVANCE_MIN_CAPTURED: usize = 5;

/// Address of the game's player-state byte in internal memory.
pub const PLAYER_STATE_ADDR: u16 = 0x000e;

/// Value of the player-state byte while the player has control.
pub const PLAYER_IN_CONTROL: u8 = 8;

/// Whether the player-state byte says the player has control.
pub fn is_playable(player_state: u8) -> (r: bool)
    ensures
        r == (player_state == PLAYER_IN_CONTROL),
{
    player_state == PLAYER_IN_CONTROL
}

/// Which operation runs.
#[derive(Clone, Copy, Debug, PartialEq, Eq, Structural)]
pub enum OpKind {
    /// The boot script, then wait for control; run at start and on reset.
    Boot,
    /// Run with the held buttons, capturing every second frame, until the
    /// player has control again.
    Advance,
}

/// Where an operation stands.
#[derive(Clone, Copy, Debug, PartialEq, Eq, Structural)]
pub enum Progress {
    /// More frames are needed.
    Running,
    /// Finished with the player in control.
    Ready,
    /// The frame budget ran out before the player had control.
    Stalled,
}

/// What to do for the next frame.
#[derive(Clone, Copy, Debug, PartialEq, Eq, Structural)]
pub struct Step {
    /// Controller byte to present while the frame runs.
    pub input: u8,
    /// Whether to hand the frame's picture back.
    pub capture: bool,
}

pub open spec fn frame_limit(kind: OpKind) -> u64 {
    match kind {
        OpKind::Boot => BOOT_FRAME_LIMIT,
        OpKind::Advance => ADVANCE_FRAME_LIMIT,
    }
}

/// Controller byte for the frame after `stepped` frames.
pub open spec fn step_input(kind: OpKind, held: u8, stepped: u64) -> u8 {
    match kind {
        OpKind::Boot => if stepped == WARMUP_FRAMES {
            (1u8 << START_BIT) as u8
        } else {
            0
        },
        OpKind::Advance => held,
    }
}

/// Whether the frame after `stepped` frames is captured.
pub open spec fn step_captures(kind: OpKind, stepped: u64) -> bool {
    kind == OpKind::Advance && stepped % 2 == 1
}

/// Whether the operation may stop once `stepped` frames have run.
pub open spec fn may_stop(kind: OpKind, stepped: u64) -> bool {
    match kind {
        OpKind::Boot => stepped >= BOOT_SCRIPT_FRAMES,
        OpKind::Advance => stepped >= ADVANCE_MIN_FRAMES && stepped % 2 == 0,
    }
}

/// Frames captured once `stepped` frames have run.
pub open spec fn captured_after(kind: OpKind, stepped: u64) -> int {
    match kind {
        OpKind::Boot => 0,
        OpKind::Advance => stepped as int / 2,
    }
}

/// The progress after a frame, given the frame count and the probe.
pub open spec fn progress_after(kind: OpKind, stepped: u64, playable: bool) -> Progress {
    if may_stop(kind, stepped) && playable {
        Progress::Ready
    } else if stepped >= frame_limit(kind) {
        Progress::Stalled
    } else {
        Progress::Running
    }
}

/// A running or finished operation.
#[derive(Debug)]
pub struct Operation {
    pub kind: OpKind,
    /// Controller byte held during an advance.
    pub held: u8,
    /// Frames run so far; never decreases.
    pub stepped: u64,
    /// Whether the player had control after the last frame.
    pub playable: bool,
    pub progress: Progress,
    /// Captured RGBA frames, in order.
    pub captured: Vec<Vec<u8>>,
}

impl Operation {
    pub open spec fn wf(&self) -> bool {
        &&& self.stepped <= frame_limit(self.kind)
        &&& self.captured@.len() == captured_after(self.kind, self.stepped)
        &&& frames_fit(self.captured@)
        &&& self.progress == Progress::Running ==> self.stepped < frame_limit(self.kind)
        &&& self.progress == Progress::Ready ==> self.playable && may_stop(self.kind, self.stepped)
        &&& self.progress == Progress::Stalled ==> self.stepped >= frame_limit(self.kind)
    }

    pub open spec fn is_fresh(&self, kind: OpKind, held: u8) -> bool {
        &&& self.wf()
        &&& self.kind == kind
        &&& self.held == held
        &&& self.stepped == 0
        &&& self.progress == Progress::Running
        &&& self.captured@.len() == 0
    }

    /// The boot operation, run at start and on reset.
    pub fn boot() -> (r: Operation)
        ensures
            r.is_fresh(OpKind::Boot, 0),
    {
        Operation {
            kind: OpKind::Boot,
            held: 0,
            stepped: 0,
            playable: false,
            progress: Progress::Running,
            captured: Vec::new(),
        }
    }

    /// An advance with `held` as the controller byte.
    pub fn advance(held: u8) -> (r: Operation)
        ensures
            r.is_fresh(OpKind::Advance, held),
    {
        Operation {
            kind: OpKind::Advance,
            held,
            stepped: 0,
            playable: false,
            progress: Progress::Running,
            captured: Vec::new(),
        }
    }

    /// What to do for the next frame.
    pub fn next_step(&self) -> (r: Step)
        ensures
            r.input == step_input(self.kind, self.held, self.stepped),
            r.capture == step_captures(self.kind, self.stepped),
    {
        match self.kind {
            OpKind::Boot => {
                let input = if self.stepped == WARMUP_FRAMES {
                    1u8 << START_BIT
                } else {
                    0
                };
                Step { input, capture: false }
            },
            OpKind::Advance => Step { input: self.held, capture: self.stepped % 2 == 1 },
        }
    }

    /// Records that one frame ran, with the probe read after it and, when
    /// the step asked for it, the frame's picture. The frame count grows by
    /// one and the operation keeps running only while under its budget.
    pub fn record(&mut self, playable: bool, frame: Option<Vec<u8>>) -> (r: Progress)
        requires
            old(self).wf(),
            old(self).progress == Progress::Running,
            frame.is_some() == step_captures(old(self).kind, old(self).stepped),
            frame matches Some(f) ==> f@.len() == FRAME_BYTES,
        ensures
            final(self).wf(),
            final(self).kind == old(self).kind,
            final(self).held == old(self).held,
            final(self).stepped == old(self).stepped + 1,
            final(self).playable == playable,
            final(self).progress == progress_after(old(self).kind, final(self).stepped, playable),
            r == final(self).progress,
            r == Progress::Running ==> final(self).stepped < frame_limit(old(self).kind),
            final(self).captured@ == match frame {
                Some(f) => old(self).captured@.push(f),
                None => old(self).captured@,
            },
    {
        let ghost before = self.captured@;
        if let Some(f) = frame {
            self.captured.push(f);
        }
        self.stepped = self.stepped + 1;
        self.playable = playable;
        let stop = match self.kind {
            OpKind::Boot => self.stepped >= BOOT_SCRIPT_FRAMES,
            OpKind::Advance => self.stepped >= ADVANCE_MIN_FRAMES && self.stepped % 2 == 0,
        };
        let limit = match self.kind {
            OpKind::Boot => BOOT_FRAME_LIMIT,
            OpKind::Advance => ADVANCE_FRAME_LIMIT,
        };
        self.progress = if stop && playable {
            Progress::Ready
        } else if self.stepped >= limit {
            Progress::Stalled
        } else {
            Progress::Running
        };
        proof {
            assert forall|i: int| 0 <= i < self.captured@.len() implies #[trigger] self.captured@[i]@.len() == FRAME_BYTES by {
                if i < before.len() {
                    assert(self.captured@[i] == before[i]);
                }
            }
        }
        self.progress
    }
}

/// Any operation has used at most its frame budget, and one that is still
/// running has used less; since each recorded frame raises the count by one,
/// an operation stops after at most that many frames. No budget exceeds the
/// boot budget.
pub proof fn lemma_within_budget(op: Operation)
    requires
        op.wf(),
    ensures
        op.stepped <= frame_limit(op.kind),
        op.progress == Progress::Running ==> op.stepped < frame_limit(op.kind),
        frame_limit(op.kind) <= BOOT_FRAME_LIMIT,
{
}

/// Whether `after` is what `record` leaves of `before`: it was running,
/// and one more frame has been recorded.
pub open spec fn records_one(before: Operation, after: Operation) -> bool {
    &&& before.progress == Progress::Running
    &&& after.wf()
    &&& after.kind == before.kind
    &&& after.stepped == before.stepped + 1
}

/// Whether `ops` is a run of frames recorded one after another.
pub open spec fn is_recorded_run(ops: Seq<Operation>) -> bool {
    forall|i: int| 0 <= i < ops.len() - 1 ==> #[trigger] records_one(ops[i], ops[i + 1])
}

proof fn lemma_run_prefix(ops: Seq<Operation>, k: int)
    requires
        ops.len() >= 1,
        ops[0].stepped == 0,
        is_recorded_run(ops),
        0 <= k < ops.len(),
    ensures
        ops[k].stepped == k,
        ops[k].kind == ops[0].kind,
    decreases k,
{
    if k > 0 {
        lemma_run_prefix(ops, k - 1);
        let j = k - 1;
        assert(records_one(ops[j], ops[j + 1]));
    }
}

/// Along a run of recorded frames from a fresh operation the frame count
/// equals the number of frames recorded, so it never decreases, and the run
/// holds at most the frame budget of frames: every operation stops within
/// its budget.
pub proof fn lemma_run_within_budget(ops: Seq<Operation>)
    requires
        ops.len() >= 1,
        ops[0].wf(),
        ops[0].stepped == 0,
        is_recorded_run(ops),
    ensures
        forall|i: int| 0 <= i < ops.len() ==> (#[trigger] ops[i]).stepped == i && ops[i].kind == ops[0].kind,
        forall|i: int, j: int| 0 <= i <= j < ops.len() ==> ops[i].stepped <= ops[j].stepped,
        ops.len() - 1 <= frame_limit(ops[0].kind),
{
    assert forall|i: int| 0 <= i < ops.len() implies (#[trigger] ops[i]).stepped == i && ops[i].kind == ops[0].kind by {
        lemma_run_prefix(ops, i);
    }
    assert forall|i: int, j: int| 0 <= i <= j < ops.len() implies ops[i].stepped <= ops[j].stepped by {
        lemma_run_prefix(ops, i);
        lemma_run_prefix(ops, j);
    }
    let n = ops.len() - 1;
    lemma_run_prefix(ops, n);
    if n > 0 {
        let j = n - 1;
        assert(records_one(ops[j], ops[j + 1]));
    }
    assert(ops[n].stepped <= frame_limit(ops[n].kind));
}

/// A finished advance has captured at least the minimum number of frames.
pub proof fn lemma_ready_advance_captures(op: Operation)
    requires
        op.wf(),
        op.kind == OpKind::Advance,
        op.progress == Progress::Ready,
    ensures
        op.captured@.len() >= ADVANCE_MIN_CAPTURED,
{
}

} // verus!
