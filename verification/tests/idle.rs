use mango_tango::helpers::get_queue::{CallQueue, QueueSnapshot};
use mango_tango::helpers::track_end_handler::{idle_after_track_end, AFTER_TRACK_IDLE_SECS};
use mango_tango::lifecycle::idle::{on_idle_timeout, IdleManager, IdleTimeoutAction};
use mango_tango::middleware::idle::{idle_after_command, idle_command, IdleCommand, AFTER_COMMAND_IDLE_SECS};

fn idle() -> QueueSnapshot {
    QueueSnapshot::of_call(Some(CallQueue { len: 0, has_current: false }))
}

#[test]
fn snapshots() {
    let out = QueueSnapshot::of_call(None);
    assert!(!out.in_voice && out.queue_len == 0 && !out.is_playing);
    assert!(!out.is_idle());
    assert!(idle().is_idle());
    let busy = QueueSnapshot::of_call(Some(CallQueue { len: 2, has_current: true }));
    assert!(busy.in_voice && busy.queue_len == 2 && busy.is_playing);
    assert!(!busy.is_idle());
    let playing_no_queue = QueueSnapshot { in_voice: true, queue_len: 0, is_playing: true };
    assert!(!playing_no_queue.is_idle());
}

#[test]
fn idle_rule() {
    assert_eq!(idle_command(Some(idle()), 7), IdleCommand::Arm { timeout_secs: 7 });
    assert_eq!(idle_command(None, 7), IdleCommand::Disarm);
    assert_eq!(idle_command(Some(QueueSnapshot::of_call(None)), 7), IdleCommand::Disarm);
}

#[test]
fn after_command_and_track_end() {
    assert_eq!(AFTER_COMMAND_IDLE_SECS, 5);
    assert_eq!(AFTER_TRACK_IDLE_SECS, 300);
    assert_eq!(idle_after_command(None, Some(idle())), None);
    assert_eq!(idle_after_command(Some(9), Some(idle())), Some((9, IdleCommand::Arm { timeout_secs: 5 })));
    assert_eq!(idle_after_command(Some(9), None), Some((9, IdleCommand::Disarm)));
    assert_eq!(idle_after_track_end(Some(idle())), IdleCommand::Arm { timeout_secs: 300 });
    let busy = QueueSnapshot::of_call(Some(CallQueue { len: 1, has_current: true }));
    assert_eq!(idle_after_track_end(Some(busy)), IdleCommand::Disarm);
}

#[test]
fn timer_expiry() {
    assert_eq!(on_idle_timeout(None), IdleTimeoutAction { leave_voice: false, forget_timer: false });
    assert_eq!(on_idle_timeout(Some(idle())), IdleTimeoutAction { leave_voice: true, forget_timer: true });
    let busy = QueueSnapshot::of_call(Some(CallQueue { len: 1, has_current: false }));
    assert_eq!(on_idle_timeout(Some(busy)), IdleTimeoutAction { leave_voice: false, forget_timer: true });
}

#[test]
fn armed_timer_leaves_when_still_idle() {
    // law: the rule arms exactly when the expiry on the same queue leaves
    for s in [idle(), QueueSnapshot::of_call(None), QueueSnapshot { in_voice: true, queue_len: 3, is_playing: false }] {
        let armed = matches!(idle_command(Some(s), 1), IdleCommand::Arm { .. });
        assert_eq!(armed, on_idle_timeout(Some(s)).leave_voice);
    }
}

#[test]
fn manager_arm_and_disarm() {
    let mut m: IdleManager<&'static str> = IdleManager::new();
    assert!(!m.is_armed(1));
    assert_eq!(m.arm(1, "first"), None);
    assert!(m.is_armed(1));
    assert_eq!(m.arm(2, "other"), None);
    assert_eq!(m.arm(1, "second"), Some("first"));
    assert_eq!(m.disarm(1), Some("second"));
    assert!(!m.is_armed(1));
    assert_eq!(m.disarm(1), None);
    assert!(m.is_armed(2));
    assert_eq!(m.disarm(2), Some("other"));
}
