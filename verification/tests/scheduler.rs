use renderboot::frame_commands;
use renderboot::FrameCommand;
use renderboot::FrameScheduler;

fn expected_frame_commands() -> Vec<FrameCommand> {
    vec![
        FrameCommand::BindProgram,
        FrameCommand::EnableDepthTest,
        FrameCommand::ClearColorBuffer,
        FrameCommand::SetClearColor { red: 0, green: 0, blue: 0, alpha: 255 },
        FrameCommand::SetClearDepth { depth: 255 },
    ]
}

#[test]
fn frame_command_list_is_exact() {
    assert_eq!(frame_commands(), expected_frame_commands());
}

#[test]
fn new_scheduler_is_unarmed() {
    let s = FrameScheduler::new();
    assert!(!s.armed);
    assert!(!s.stopped);
    assert_eq!(s.frames, 0);
}

#[test]
fn start_arms_the_scheduler_once() {
    let mut s = FrameScheduler::new();
    s.start();
    assert!(s.armed);
    assert!(!s.stopped);
    assert_eq!(s.frames, 0);
}

#[test]
fn five_refreshes_execute_five_frames_in_order() {
    let mut s = FrameScheduler::new();
    s.start();
    for i in 0..5u64 {
        let plan = s.on_refresh();
        // One frame body per notification, program bound before the clears.
        assert_eq!(plan.commands, expected_frame_commands());
        assert_eq!(plan.commands[0], FrameCommand::BindProgram);
        assert!(plan
            .commands
            .iter()
            .position(|c| *c == FrameCommand::ClearColorBuffer)
            .unwrap()
            > 0);
        assert!(plan.rearm);
        assert_eq!(s.frames, i + 1);
        // The armed state never lapses between one frame and the next.
        assert!(s.armed);
    }
    assert_eq!(s.frames, 5);
}

#[test]
fn stopped_scheduler_runs_no_frame_and_disarms() {
    let mut s = FrameScheduler::new();
    s.start();
    let plan = s.on_refresh();
    assert!(plan.rearm);
    assert_eq!(s.frames, 1);
    s.stop();
    assert!(s.armed);
    let last = s.on_refresh();
    assert!(last.commands.is_empty());
    assert!(!last.rearm);
    assert!(!s.armed);
    assert_eq!(s.frames, 1);
}

#[test]
fn stop_before_any_refresh_cancels_the_first_frame() {
    let mut s = FrameScheduler::new();
    s.start();
    s.stop();
    let plan = s.on_refresh();
    assert!(plan.commands.is_empty());
    assert!(!plan.rearm);
    assert!(!s.armed);
    assert_eq!(s.frames, 0);
}
