//! Instance lifecycle and virtual dispatch, driven the way the foreign
//! runtime would drive them.

use gdext_class::dispatch::{get_virtual_callback, resolve_virtual, EntryPoint, VirtualMethod};
use gdext_class::names::bytes_eq;
use gdext_class::storage::{
    create_instance_callback, free_instance_callback, nop_instance_callbacks,
    reference_callback, to_string_callback, unreference_callback, InstanceStorage, ObjectPtr,
};
use gdext_class::registry::SlotStatus;
use gdext_class::traits::{
    GodotClass, GodotExtensionClass, GodotExtensionClassMethods, GodotMethods, MemTag,
};

struct Gadget {
    base: ObjectPtr,
    label: String,
}

impl GodotClass for Gadget {
    fn class_name() -> Vec<u8> {
        b"Gadget".to_vec()
    }

    fn parent_class_name() -> Vec<u8> {
        b"Base".to_vec()
    }

    fn mem_tag() -> MemTag {
        MemTag::StaticRefCount
    }
}

impl GodotExtensionClass for Gadget {
    fn has_to_string() -> bool {
        true
    }

    fn to_string_repr(&self) -> String {
        format!("Gadget({})", self.label)
    }
}

impl GodotExtensionClassMethods for Gadget {
    fn virtual_entries() -> Vec<VirtualMethod> {
        vec![
            VirtualMethod { name: b"_ready".to_vec(), entry: EntryPoint::from_addr(21) },
            VirtualMethod { name: b"_input".to_vec(), entry: EntryPoint::from_addr(22) },
        ]
    }

    fn register_methods() {}
}

impl GodotMethods for Gadget {
    fn init(base: ObjectPtr) -> Gadget {
        Gadget { base, label: String::from("fresh") }
    }
}

#[test]
fn create_reference_unreference_free_scenario() {
    let base = ObjectPtr::from_addr(0x1000);
    let mut storage = create_instance_callback::<Gadget>(base);
    assert!(!storage.base().is_null());
    assert_eq!(storage.base().addr(), 0x1000);
    assert_eq!(storage.refcount(), 1);
    assert_eq!(storage.get().base.addr(), 0x1000);

    reference_callback(&mut storage);
    assert_eq!(storage.refcount(), 2);
    unreference_callback(&mut storage);
    assert_eq!(storage.refcount(), 1);

    let native = free_instance_callback(storage);
    assert_eq!(native.label, "fresh");
    assert_eq!(native.base.addr(), 0x1000);
}

#[test]
fn refcount_is_initial_plus_references_minus_unreferences() {
    let mut storage = InstanceStorage::new(Gadget::init(ObjectPtr::from_addr(7)), ObjectPtr::from_addr(7));
    for _ in 0..3 {
        reference_callback(&mut storage);
    }
    for _ in 0..2 {
        unreference_callback(&mut storage);
    }
    assert_eq!(storage.refcount(), 1 + 3 - 2);
}

#[test]
fn stringify_moves_the_text_across_the_boundary() {
    let storage = create_instance_callback::<Gadget>(ObjectPtr::from_addr(0x2000));
    let foreign = to_string_callback(&storage);
    assert_eq!(foreign.as_str(), "Gadget(fresh)");
}

#[test]
fn virtual_resolution_finds_declared_methods() {
    let r = get_virtual_callback::<Gadget>(b"_ready\0");
    assert_eq!(r, Some(EntryPoint::from_addr(21)));
    let r = get_virtual_callback::<Gadget>(b"_input\0");
    assert_eq!(r, Some(EntryPoint::from_addr(22)));
}

#[test]
fn virtual_resolution_of_undeclared_name_is_not_found() {
    assert_eq!(get_virtual_callback::<Gadget>(b"_process\0"), None);
    assert_eq!(get_virtual_callback::<Gadget>(b"\0"), None);
}

#[test]
fn virtual_resolution_is_deterministic() {
    let first = get_virtual_callback::<Gadget>(b"_ready\0");
    let second = get_virtual_callback::<Gadget>(b"_ready\0");
    assert_eq!(first, second);
    let first = get_virtual_callback::<Gadget>(b"_missing\0");
    let second = get_virtual_callback::<Gadget>(b"_missing\0");
    assert_eq!(first, second);
}

#[test]
fn resolver_takes_the_first_matching_entry() {
    let entries = vec![
        VirtualMethod { name: b"_draw".to_vec(), entry: EntryPoint::from_addr(1) },
        VirtualMethod { name: b"_draw".to_vec(), entry: EntryPoint::from_addr(2) },
    ];
    assert_eq!(resolve_virtual(&entries, b"_draw"), Some(EntryPoint::from_addr(1)));
    assert_eq!(resolve_virtual(&entries, b"_drawn"), None);
    assert_eq!(resolve_virtual(&Vec::<VirtualMethod>::new(), b"_draw"), None);
}

#[test]
fn binding_callback_table_is_all_noops() {
    let callbacks = nop_instance_callbacks();
    assert_eq!(callbacks.create_callback, SlotStatus::Unimplemented);
    assert_eq!(callbacks.free_callback, SlotStatus::Unimplemented);
    assert_eq!(callbacks.reference_callback, SlotStatus::Unimplemented);
}

#[test]
fn object_ptr_conversions() {
    let p = ObjectPtr::from_addr(0xdead);
    assert_eq!(p.addr(), 0xdead);
    assert!(!p.is_null());
    assert!(ObjectPtr::null().is_null());
    assert_eq!(ObjectPtr::null().addr(), 0);
}

#[test]
fn byte_comparison_is_exact() {
    assert!(bytes_eq(b"_ready", b"_ready"));
    assert!(!bytes_eq(b"_ready", b"_Ready"));
    assert!(!bytes_eq(b"_ready", b"_read"));
    assert!(bytes_eq(b"", b""));
}
