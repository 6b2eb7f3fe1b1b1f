use std::path::PathBuf;

use im_native_dialog::{ImNativeDialogError, ImNativeFileDialog};

#[test]
fn fresh_slot_is_empty() {
    let slot: ImNativeFileDialog<Option<PathBuf>> = ImNativeFileDialog::default();
    assert!(!slot.is_open());
}

#[test]
fn check_on_empty_slot_returns_nothing() {
    let mut slot: ImNativeFileDialog<Option<PathBuf>> = ImNativeFileDialog::default();
    assert!(slot.check().is_none());
    assert!(slot.check().is_none());
    assert!(!slot.is_open());
}

#[test]
fn single_file_selection_is_delivered_exactly_once() {
    // A request is opened, the UI polls while the worker is pending, the
    // worker resolves with a chosen path, and exactly one poll observes it.
    let mut slot: ImNativeFileDialog<Option<PathBuf>> = ImNativeFileDialog::default();
    let sender = slot.show().expect("fresh slot must accept a request");
    assert!(slot.is_open());

    // Worker still pending: every poll returns nothing and keeps the request.
    assert!(slot.check().is_none());
    assert!(slot.check().is_none());
    assert!(slot.is_open());

    sender
        .send(Ok(Some(PathBuf::from("/home/user/doc.txt"))))
        .expect("the slot still holds the receiving end");

    match slot.check() {
        Some(Ok(Some(path))) => assert_eq!(path, PathBuf::from("/home/user/doc.txt")),
        other => panic!("expected the chosen path, got {:?}", other.is_some()),
    }
    assert!(!slot.is_open());

    // Consumed: later polls return nothing again.
    assert!(slot.check().is_none());
    assert!(slot.check().is_none());
}

#[test]
fn cancelled_single_file_dialog_is_empty_success() {
    let mut slot: ImNativeFileDialog<Option<PathBuf>> = ImNativeFileDialog::default();
    let sender = slot.show().expect("fresh slot must accept a request");
    sender.send(Ok(None)).expect("receiver alive");
    match slot.check() {
        Some(Ok(None)) => {}
        _ => panic!("a cancelled dialog must come back as Ok(None)"),
    }
    assert!(!slot.is_open());
}

#[test]
fn cancelled_multi_file_dialog_is_empty_success() {
    let mut slot: ImNativeFileDialog<Vec<PathBuf>> = ImNativeFileDialog::default();
    let sender = slot.show().expect("fresh slot must accept a request");
    sender.send(Ok(Vec::new())).expect("receiver alive");
    match slot.check() {
        Some(Ok(paths)) => assert!(paths.is_empty()),
        _ => panic!("a cancelled dialog must come back as Ok with no paths"),
    }
    assert!(!slot.is_open());
}

#[test]
fn multi_file_selection_is_delivered() {
    let mut slot: ImNativeFileDialog<Vec<PathBuf>> = ImNativeFileDialog::default();
    let sender = slot.show().expect("fresh slot must accept a request");
    sender
        .send(Ok(vec![PathBuf::from("/a"), PathBuf::from("/b")]))
        .expect("receiver alive");
    match slot.check() {
        Some(Ok(paths)) => {
            assert_eq!(paths, vec![PathBuf::from("/a"), PathBuf::from("/b")]);
        }
        _ => panic!("expected the chosen paths"),
    }
    assert!(!slot.is_open());
}

#[test]
fn second_open_is_refused_and_first_request_is_kept() {
    let mut slot: ImNativeFileDialog<Option<PathBuf>> = ImNativeFileDialog::default();
    let sender = slot.show().expect("fresh slot must accept a request");

    // A second open while in flight fails without side effects.
    match slot.show() {
        Err(ImNativeDialogError::AlreadyOpen) => {}
        Ok(_) => panic!("a second open while in flight must be refused"),
    }
    assert!(slot.is_open());

    // The first request's delivery is unaffected.
    sender
        .send(Ok(Some(PathBuf::from("/kept.txt"))))
        .expect("receiver alive");
    match slot.check() {
        Some(Ok(Some(path))) => assert_eq!(path, PathBuf::from("/kept.txt")),
        _ => panic!("the first request's result must still be delivered"),
    }
}

#[test]
fn platform_error_is_surfaced_verbatim() {
    let mut slot: ImNativeFileDialog<Option<PathBuf>> = ImNativeFileDialog::default();
    let sender = slot.show().expect("fresh slot must accept a request");
    sender
        .send(Err(native_dialog::Error::NoImplementation))
        .expect("receiver alive");
    match slot.check() {
        Some(Err(native_dialog::Error::NoImplementation)) => {}
        _ => panic!("a platform error must be surfaced inside the result"),
    }
    assert!(!slot.is_open());
}

#[test]
fn disconnected_worker_is_masked_as_empty_success() {
    // Fault injection: the worker goes away without sending.
    let mut slot: ImNativeFileDialog<Option<PathBuf>> = ImNativeFileDialog::default();
    let sender = slot.show().expect("fresh slot must accept a request");
    drop(sender);
    match slot.check() {
        Some(Ok(None)) => {}
        _ => panic!("a vanished worker must be masked as Ok(None)"),
    }
    assert!(!slot.is_open());
    assert!(slot.check().is_none());
}

#[test]
fn disconnected_worker_is_masked_as_empty_list() {
    let mut slot: ImNativeFileDialog<Vec<PathBuf>> = ImNativeFileDialog::default();
    let sender = slot.show().expect("fresh slot must accept a request");
    drop(sender);
    match slot.check() {
        Some(Ok(paths)) => assert!(paths.is_empty()),
        _ => panic!("a vanished worker must be masked as an empty list"),
    }
    assert!(!slot.is_open());
}

#[test]
fn slot_is_reusable_after_consumption() {
    let mut slot: ImNativeFileDialog<Option<PathBuf>> = ImNativeFileDialog::default();

    let sender = slot.show().expect("fresh slot must accept a request");
    sender.send(Ok(None)).expect("receiver alive");
    assert!(slot.check().is_some());
    assert!(!slot.is_open());

    // A new request is accepted after the previous one was consumed.
    let sender = slot.show().expect("slot must be reusable");
    assert!(slot.is_open());
    sender
        .send(Ok(Some(PathBuf::from("/second.txt"))))
        .expect("receiver alive");
    match slot.check() {
        Some(Ok(Some(path))) => assert_eq!(path, PathBuf::from("/second.txt")),
        _ => panic!("the second request's result must be delivered"),
    }
}

#[test]
fn check_does_not_wait_for_a_silent_worker() {
    // The sender stays alive and silent; polling must still return at once
    // with nothing, any number of times.
    let mut slot: ImNativeFileDialog<Option<PathBuf>> = ImNativeFileDialog::default();
    let _sender = slot.show().expect("fresh slot must accept a request");
    for _ in 0..100 {
        assert!(slot.check().is_none());
        assert!(slot.is_open());
    }
}

#[test]
fn error_message_text() {
    let e = ImNativeDialogError::AlreadyOpen;
    assert_eq!(e.message(), "The dialog is already open.");
    assert_eq!(e, ImNativeDialogError::AlreadyOpen);
}
