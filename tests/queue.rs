use gtopia::message::UtopiaRequest;
use gtopia::queue::{CommandQueue, QUEUE_CAPACITY};

#[test]
fn sixteenth_command_is_refused() {
    let mut q = CommandQueue::new();
    assert_eq!(QUEUE_CAPACITY, 15);
    for i in 0..15 {
        assert!(q.submit(UtopiaRequest::TriggerLaunch(format!("item{}", i))), "command {} refused", i);
    }
    assert!(!q.submit(UtopiaRequest::TriggerLaunch("item15".to_string())));
    assert_eq!(q.len(), 15);
}

#[test]
fn commands_leave_in_submission_order() {
    let mut q = CommandQueue::new();
    for id in ["a", "b", "c"] {
        assert!(q.submit(UtopiaRequest::TriggerLaunch(id.to_string())));
    }
    for id in ["a", "b", "c"] {
        match q.take() {
            Some(UtopiaRequest::TriggerLaunch(x)) => assert_eq!(x, id),
            other => panic!("unexpected {:?}", other),
        }
    }
    assert!(q.take().is_none());
}

#[test]
fn room_frees_up_after_take() {
    let mut q = CommandQueue::new();
    for _ in 0..15 {
        assert!(q.submit(UtopiaRequest::GetFullGameLibrary));
    }
    assert!(!q.submit(UtopiaRequest::GetFullGameLibrary));
    assert!(q.take().is_some());
    assert!(q.submit(UtopiaRequest::GetFullGameLibrary));
    assert_eq!(q.len(), 15);
}

#[test]
fn closed_queue_refuses_but_keeps_waiting_commands() {
    let mut q = CommandQueue::new();
    assert!(q.request_library());
    q.close();
    assert!(q.is_closed());
    assert!(!q.submit(UtopiaRequest::GetFullGameLibrary));
    assert!(!q.request_library());
    assert_eq!(q.len(), 1);
    assert!(matches!(q.take(), Some(UtopiaRequest::GetFullGameLibrary)));
}

#[test]
fn empty_queue_takes_nothing() {
    let mut q = CommandQueue::new();
    assert_eq!(q.len(), 0);
    assert!(q.take().is_none());
    assert!(!q.is_closed());
}
