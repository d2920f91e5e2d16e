use task_context::{get_task_waker, set_task_waker, ContextSlot, TaskError, WakeHandle};

#[test]
fn get_on_empty_slot_is_context_missing() {
    let mut slot = ContextSlot::new();
    let mut called = false;
    let r = get_task_waker(&mut slot, |cell, handle: WakeHandle| {
        called = true;
        (cell, handle)
    });
    assert_eq!(r, Err(TaskError::ContextMissing));
    assert!(!called);
    assert!(slot.is_empty());
}

#[test]
fn set_installs_handle_for_body() {
    let mut slot = ContextSlot::new();
    let h = WakeHandle::new(3);
    let seen = set_task_waker(&mut slot, h, |cell| {
        let contents = cell.current();
        (cell, contents)
    });
    assert_eq!(seen, Some(WakeHandle::new(3)));
}

#[test]
fn set_restores_prior_contents() {
    let mut slot = ContextSlot::new();
    let h = WakeHandle::new(1);
    let _ = set_task_waker(&mut slot, h, |cell| (cell, ()));
    assert!(slot.is_empty());
    assert_eq!(slot.current(), None);
}

#[test]
fn set_restores_even_when_body_discards_its_cell() {
    let mut slot = ContextSlot::new();
    let h = WakeHandle::new(4);
    let _ = set_task_waker(&mut slot, h, |_cell| (ContextSlot::new(), ()));
    assert!(slot.is_empty());
}

#[test]
fn get_hands_out_the_installed_handle() {
    let mut slot = ContextSlot::new();
    let h = WakeHandle::new(11);
    let r = set_task_waker(&mut slot, h, |mut cell| {
        let got = get_task_waker(&mut cell, |inner, handle: WakeHandle| (inner, handle));
        (cell, got)
    });
    assert_eq!(r, Ok(WakeHandle::new(11)));
    assert!(slot.is_empty());
}

#[test]
fn get_restores_the_handle_after_its_body() {
    let mut slot = ContextSlot::new();
    let h = WakeHandle::new(12);
    let after = set_task_waker(&mut slot, h, |mut cell| {
        let _ = get_task_waker(&mut cell, |inner, handle: WakeHandle| (inner, handle));
        let contents = cell.current();
        (cell, contents)
    });
    assert_eq!(after, Some(WakeHandle::new(12)));
}

#[test]
fn nested_get_without_install_is_context_missing() {
    let mut slot = ContextSlot::new();
    let h = WakeHandle::new(5);
    let r = set_task_waker(&mut slot, h, |mut cell| {
        let outcome = get_task_waker(&mut cell, |mut inner, _handle| {
            let nested = get_task_waker(&mut inner, |deepest, handle: WakeHandle| {
                (deepest, handle)
            });
            (inner, nested)
        });
        (cell, outcome)
    });
    assert_eq!(r, Ok(Err(TaskError::ContextMissing)));
    assert!(slot.is_empty());
}

#[test]
fn nested_installs_compose_as_a_stack() {
    let mut slot = ContextSlot::new();
    let h1 = WakeHandle::new(1);
    let h2 = WakeHandle::new(2);
    let (inner_seen, between) = set_task_waker(&mut slot, h1, |mut cell| {
        let inner_seen = set_task_waker(&mut cell, h2, |mut inner| {
            let got = get_task_waker(&mut inner, |deepest, handle: WakeHandle| (deepest, handle));
            (inner, got)
        });
        let between = cell.current();
        (cell, (inner_seen, between))
    });
    assert_eq!(inner_seen, Ok(WakeHandle::new(2)));
    assert_eq!(between, Some(WakeHandle::new(1)));
    assert!(slot.is_empty());
}

#[test]
fn handles_compare_by_identifier() {
    assert_eq!(WakeHandle::new(9), WakeHandle::new(9));
    assert_ne!(WakeHandle::new(9), WakeHandle::new(10));
    assert_eq!(WakeHandle::new(9).id, 9);
}
