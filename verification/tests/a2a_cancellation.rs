use xana::a2a::cancellation::{
    cancel_tracked_task, cancellation_status, settle_tracked_task, CleanupAction, CleanupEvent,
    CleanupNotice, RemoteCancellation, RemoteTaskLease, TrackedTask,
};
use xana::a2a::validation::A2aWireError;

#[test]
fn cancellation_results_keep_confirmed_failed_timeout_and_unknown_distinct() {
    assert_eq!(cancellation_status(&Ok(true)), ("canceled", "confirmed"));
    assert_eq!(cancellation_status(&Ok(false)), ("detached_unknown", "failed"));
    assert_eq!(
        cancellation_status(&Err(A2aWireError::TimedOut)),
        ("detached_unknown", "timed_out")
    );
    assert_eq!(
        cancellation_status(&Err(A2aWireError::Cancelled)),
        ("detached_unknown", "unknown")
    );
}

#[test]
fn dropped_remote_task_lease_is_drained_by_the_owned_cleanup_scope() {
    let mut lease = RemoteTaskLease::new();
    lease.arm("task-drop".to_string());
    assert_eq!(lease.release(), Some("task-drop".to_string()));
    assert_eq!(lease.release(), None);
    let (mut cleanup, intent) = RemoteCancellation::new();
    assert_eq!(
        intent,
        CleanupAction::Record {
            state: "detached_unknown",
            remote_cancel: "requested_unconfirmed",
        }
    );
    assert_eq!(
        cleanup.step(CleanupEvent::Recorded(true)),
        (Some(CleanupNotice::CancellationRequested), CleanupAction::Schedule)
    );
    assert_eq!(cleanup.step(CleanupEvent::Scheduled(true)), (None, CleanupAction::Cancel));
    assert_eq!(
        cleanup.step(CleanupEvent::Replied(Ok(true))),
        (None, CleanupAction::Record { state: "canceled", remote_cancel: "confirmed" })
    );
    assert_eq!(cleanup.step(CleanupEvent::Recorded(true)), (None, CleanupAction::Finish));
}

#[test]
fn failed_cancellation_intent_persistence_sends_no_remote_request() {
    let (mut cleanup, _) = RemoteCancellation::new();
    assert_eq!(
        cleanup.step(CleanupEvent::Recorded(false)),
        (Some(CleanupNotice::Detached), CleanupAction::Finish)
    );
    assert_eq!(cleanup.step(CleanupEvent::Scheduled(true)), (None, CleanupAction::Finish));
    assert_eq!(cleanup.step(CleanupEvent::Replied(Ok(true))), (None, CleanupAction::Finish));
}

#[test]
fn unavailable_cleanup_capacity_is_recorded_without_network_work() {
    let (mut cleanup, _) = RemoteCancellation::new();
    cleanup.step(CleanupEvent::Recorded(true));
    assert_eq!(
        cleanup.step(CleanupEvent::Scheduled(false)),
        (
            None,
            CleanupAction::Record { state: "detached_unknown", remote_cancel: "not_scheduled" }
        )
    );
    assert_eq!(
        cleanup.step(CleanupEvent::Recorded(true)),
        (Some(CleanupNotice::Detached), CleanupAction::Finish)
    );
}

fn known_task(state: &str) -> TrackedTask {
    TrackedTask {
        agent_identity_digest: "digest".to_string(),
        state: state.to_string(),
        context_id: Some("context-explicit".to_string()),
    }
}

#[test]
fn explicit_cancellation_records_intent_before_sending_and_preserves_outcome() {
    let task = known_task("working");
    let known = Some(known_task("working"));
    let pending = cancel_tracked_task(&known, "digest", "task-explicit").unwrap();
    assert_eq!(pending.state, "detached_unknown");
    assert_eq!(pending.remote_cancel, "requested_unconfirmed");
    assert_eq!(pending.context_id.as_deref(), Some("context-explicit"));
    let completed = settle_tracked_task(&task, &Ok(true)).unwrap();
    assert_eq!(completed.state, "canceled");
    assert_eq!(completed.remote_cancel, "confirmed");
    assert_eq!(completed.context_id.as_deref(), Some("context-explicit"));
}

#[test]
fn explicit_cancellation_refuses_what_it_cannot_reach() {
    assert_eq!(
        cancel_tracked_task(&None, "digest", "a\"b"),
        Err("external task \"a\\\"b\" is not tracked by Xana".to_string())
    );
    assert_eq!(
        cancel_tracked_task(&Some(known_task("working")), "other", "task"),
        Err("external task belongs to an obsolete agent identity and cannot be contacted"
            .to_string())
    );
    for state in ["completed", "failed", "canceled", "rejected"] {
        assert_eq!(
            cancel_tracked_task(&Some(known_task(state)), "digest", "task"),
            Err(format!("external task is already terminal ({state})"))
        );
    }
    let refused = settle_tracked_task(&known_task("working"), &Ok(false)).unwrap();
    assert_eq!((refused.state.as_str(), refused.remote_cancel), ("working", "failed"));
    assert!(settle_tracked_task(&known_task("working"), &Err(A2aWireError::TimedOut)).is_err());
}

#[test]
fn unconfirmed_cancellations_leave_the_task_detached() {
    let (mut cleanup, _) = RemoteCancellation::new();
    cleanup.step(CleanupEvent::Recorded(true));
    cleanup.step(CleanupEvent::Scheduled(true));
    assert_eq!(
        cleanup.step(CleanupEvent::Replied(Err(A2aWireError::TimedOut))),
        (None, CleanupAction::Record { state: "detached_unknown", remote_cancel: "timed_out" })
    );
    assert_eq!(
        cleanup.step(CleanupEvent::Recorded(true)),
        (Some(CleanupNotice::Detached), CleanupAction::Finish)
    );
}
