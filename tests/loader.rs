use vk_bindings::loader::{resolve_proc_addr, slot_for, CallError, CommandTable, SlotState};
use vk_bindings::types::LoadingError;

fn table() -> CommandTable {
    CommandTable::new(vec!["vkCreateDevice".to_string(), "vkDestroyDevice".to_string()])
}

#[test]
fn call_before_load_is_uninitialized() {
    let t = table();
    assert_eq!(t.len(), 2);
    assert!(!t.is_loaded());
    assert_eq!(t.resolution_passes(), 0);
    assert_eq!(t.dispatch(0), Err(CallError::Uninitialized));
    assert_eq!(
        CallError::Uninitialized.message(t.name(0)),
        "Vulkan function vkCreateDevice called before initialization!"
    );
}

#[test]
fn load_resolves_or_marks_unavailable() {
    let mut t = table();
    t.load(&vec![0x1000, 0]);
    assert!(t.is_loaded());
    assert_eq!(t.dispatch(0), Ok(0x1000));
    assert_eq!(t.dispatch(1), Err(CallError::Unavailable));
    assert_eq!(
        CallError::Unavailable.message(t.name(1)),
        "Vulkan function vkDestroyDevice not available"
    );
    assert_ne!(
        CallError::Unavailable.message("vkQueueSubmit"),
        CallError::Uninitialized.message("vkQueueSubmit")
    );
}

#[test]
fn repeated_loads_make_one_pass() {
    let mut t = table();
    for _ in 0..8 {
        t.load(&vec![0x2000, 0x3000]);
    }
    t.load(&vec![0, 0]);
    assert_eq!(t.resolution_passes(), 1);
    assert_eq!(t.dispatch(0), Ok(0x2000));
    assert_eq!(t.dispatch(1), Ok(0x3000));
}

#[test]
fn null_proc_addr_is_an_error() {
    assert_eq!(resolve_proc_addr(0), Err(LoadingError()));
    assert_eq!(resolve_proc_addr(0x40), Ok(0x40));
    assert_eq!(slot_for(0), SlotState::Unavailable);
    assert_eq!(slot_for(7), SlotState::Resolved(7));
}

