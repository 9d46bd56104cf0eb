//! The frame-scheduling loop, as an explicit state machine. The scheduler is
//! either unarmed (no frame request outstanding) or armed (exactly one
//! outstanding). `start` arms it once; each refresh notification consumes the
//! outstanding request, yields the fixed per-frame command list, and re-arms
//! — unless `stop` was called, in which case the loop ends by not re-arming.
//! The host performs the commands and, while the plan says so, registers one
//! new frame request per refresh.

use vstd::prelude::*;

verus! {

/// One synchronous command of the per-frame GPU state setup. Color channels
/// and the clear depth are fractions with denominator 255: 0 stands for 0.0,
/// 255 for full intensity or the far plane.
#[derive(Clone, Copy, Debug, PartialEq, Eq, Structural)]
pub enum FrameCommand {
    BindProgram,
    EnableDepthTest,
    ClearColorBuffer,
    SetClearColor { red: u8, green: u8, blue: u8, alpha: u8 },
    SetClearDepth { depth: u8 },
}

/// What one refresh notification obliges the host to do: perform the
/// commands in order, then register one new frame request iff `rearm`.
#[derive(Debug)]
pub struct FramePlan {
    pub commands: Vec<FrameCommand>,
    pub rearm: bool,
}

/// The fixed body of every frame: bind the linked program, enable depth
/// testing, clear the color buffer, set the clear color to opaque black, set
/// the clear depth to the far plane.
pub open spec fn spec_frame_commands() -> Seq<FrameCommand> {
    seq![
        FrameCommand::BindProgram,
        FrameCommand::EnableDepthTest,
        FrameCommand::ClearColorBuffer,
        FrameCommand::SetClearColor { red: 0, green: 0, blue: 0, alpha: 255 },
        FrameCommand::SetClearDepth { depth: 255 },
    ]
}

/// Builds the fixed per-frame command list.
pub fn frame_commands() -> (v: Vec<FrameCommand>)
    ensures
        v@ == spec_frame_commands(),
{
    let mut v: Vec<FrameCommand> = Vec::new();
    v.push(FrameCommand::BindProgram);
    v.push(FrameCommand::EnableDepthTest);
    v.push(FrameCommand::ClearColorBuffer);
    v.push(FrameCommand::SetClearColor { red: 0, green: 0, blue: 0, alpha: 255 });
    v.push(FrameCommand::SetClearDepth { depth: 255 });
    proof {
        assert(v@ =~= spec_frame_commands());
    }
    v
}

/// Drives the indefinite sequence of frame executions. `armed` says whether
/// one frame request is outstanding with the host; `stopped` is the
/// cancellation flag; `frames` counts the frame bodies executed so far.
#[derive(Clone, Copy, Debug, PartialEq, Eq, Structural)]
pub struct FrameScheduler {
    pub armed: bool,
    pub stopped: bool,
    pub frames: u64,
}

impl FrameScheduler {
    /// The scheduler after one refresh notification: stopped, it disarms
    /// without running a frame; otherwise it runs one frame and stays armed.
    pub open spec fn spec_step(self) -> FrameScheduler {
        if self.stopped {
            FrameScheduler { armed: false, ..self }
        } else {
            FrameScheduler { frames: (self.frames + 1) as u64, ..self }
        }
    }

    /// A fresh scheduler: unarmed, not stopped, no frame executed yet.
    pub fn new() -> (s: FrameScheduler)
        ensures
            s == (FrameScheduler { armed: false, stopped: false, frames: 0 }),
    {
        FrameScheduler { armed: false, stopped: false, frames: 0 }
    }

    /// Arms the scheduler, once, at setup: the host owes one frame request.
    pub fn start(&mut self)
        requires
            !old(self).armed,
            !old(self).stopped,
        ensures
            *final(self) == (FrameScheduler { armed: true, ..*old(self) }),
    {
        self.armed = true;
    }

    /// Requests cancellation: the next refresh notification will not re-arm.
    /// The one outstanding request, if any, cannot be revoked here; it is
    /// consumed by that last notification.
    pub fn stop(&mut self)
        ensures
            *final(self) == (FrameScheduler { stopped: true, ..*old(self) }),
    {
        self.stopped = true;
    }

    /// Consumes the one outstanding frame request. Unless stopped, exactly
    /// one frame body is executed and the scheduler is re-armed before the
    /// plan is handed back, so the armed state never lapses between frames;
    /// stopped, no frame runs and the scheduler disarms for good.
    pub fn on_refresh(&mut self) -> (plan: FramePlan)
        requires
            old(self).armed,
            old(self).frames < u64::MAX,
        ensures
            *final(self) == old(self).spec_step(),
            plan.rearm == !old(self).stopped,
            old(self).stopped ==> plan.commands@ =~= Seq::<FrameCommand>::empty(),
            !old(self).stopped ==> plan.commands@ == spec_frame_commands(),
            !old(self).stopped ==> final(self).armed && final(self).frames == old(self).frames
                + 1,
    {
        if self.stopped {
            self.armed = false;
            FramePlan { commands: Vec::new(), rearm: false }
        } else {
            self.frames = self.frames + 1;
            FramePlan { commands: frame_commands(), rearm: true }
        }
    }
}

/// The scheduler after `n` refresh notifications.
pub open spec fn spec_run(s: FrameScheduler, n: nat) -> FrameScheduler
    decreases n,
{
    if n == 0 {
        s
    } else {
        spec_run(s, (n - 1) as nat).spec_step()
    }
}

/// Frame-loop liveness: once armed and not stopped, every refresh
/// notification executes exactly one frame body and leaves the scheduler
/// armed again — after any number of refreshes the frame count has grown by
/// exactly that number and one registration is still outstanding.
pub proof fn lemma_frame_loop_liveness(s: FrameScheduler, n: nat)
    requires
        s.armed,
        !s.stopped,
        s.frames + n <= u64::MAX,
    ensures
        spec_run(s, n).armed,
        !spec_run(s, n).stopped,
        spec_run(s, n).frames == s.frames + n,
    decreases n,
{
    if n > 0 {
        lemma_frame_loop_liveness(s, (n - 1) as nat);
    }
}

} // verus!
