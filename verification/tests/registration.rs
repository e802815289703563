//! Registration protocol: name encoding, descriptor layout, and the class
//! database accepting each class at most once.

use gdext_class::dispatch::{EntryPoint, VirtualMethod};
use gdext_class::names::{decode_c_str, ClassName};
use gdext_class::registry::{
    build_creation_info, register_class, Registry, RegistrationError, SlotStatus,
};
use gdext_class::storage::ObjectPtr;
use gdext_class::traits::{
    GodotClass, GodotExtensionClass, GodotExtensionClassMethods, GodotMethods, MemTag,
};

struct Foo {
    base: ObjectPtr,
    count: i64,
}

impl GodotClass for Foo {
    fn class_name() -> Vec<u8> {
        b"Foo".to_vec()
    }

    fn parent_class_name() -> Vec<u8> {
        b"Base".to_vec()
    }

    fn mem_tag() -> MemTag {
        MemTag::StaticRefCount
    }
}

impl GodotExtensionClass for Foo {
    fn has_to_string() -> bool {
        true
    }

    fn to_string_repr(&self) -> String {
        format!("Foo[count={}]", self.count)
    }
}

impl GodotExtensionClassMethods for Foo {
    fn virtual_entries() -> Vec<VirtualMethod> {
        vec![
            VirtualMethod { name: b"_ready".to_vec(), entry: EntryPoint::from_addr(11) },
            VirtualMethod { name: b"_process".to_vec(), entry: EntryPoint::from_addr(12) },
        ]
    }

    fn register_methods() {}
}

impl GodotMethods for Foo {
    fn init(base: ObjectPtr) -> Foo {
        Foo { base, count: 0 }
    }
}

/// A class that declares no string conversion and no virtual methods.
struct Quiet;

impl GodotClass for Quiet {
    fn class_name() -> Vec<u8> {
        b"Quiet".to_vec()
    }

    fn parent_class_name() -> Vec<u8> {
        b"Base".to_vec()
    }

    fn mem_tag() -> MemTag {
        MemTag::ManualMemory
    }
}

impl GodotExtensionClass for Quiet {
    fn has_to_string() -> bool {
        false
    }

    fn to_string_repr(&self) -> String {
        String::new()
    }
}

impl GodotExtensionClassMethods for Quiet {
    fn virtual_entries() -> Vec<VirtualMethod> {
        Vec::new()
    }

    fn register_methods() {}
}

impl GodotMethods for Quiet {
    fn init(_base: ObjectPtr) -> Quiet {
        Quiet
    }
}

/// A class that claims the name of a built-in.
struct Impostor;

impl GodotClass for Impostor {
    fn class_name() -> Vec<u8> {
        b"Base".to_vec()
    }

    fn parent_class_name() -> Vec<u8> {
        b"Base".to_vec()
    }

    fn mem_tag() -> MemTag {
        MemTag::ManualMemory
    }
}

impl GodotExtensionClass for Impostor {
    fn has_to_string() -> bool {
        false
    }

    fn to_string_repr(&self) -> String {
        String::new()
    }
}

impl GodotExtensionClassMethods for Impostor {
    fn virtual_entries() -> Vec<VirtualMethod> {
        Vec::new()
    }

    fn register_methods() {}
}

impl GodotMethods for Impostor {
    fn init(_base: ObjectPtr) -> Impostor {
        Impostor
    }
}

/// A class whose parent is itself an extension class.
struct Bar;

impl GodotClass for Bar {
    fn class_name() -> Vec<u8> {
        b"Bar".to_vec()
    }

    fn parent_class_name() -> Vec<u8> {
        b"Foo".to_vec()
    }

    fn mem_tag() -> MemTag {
        MemTag::StaticRefCount
    }
}

impl GodotExtensionClass for Bar {
    fn has_to_string() -> bool {
        false
    }

    fn to_string_repr(&self) -> String {
        String::new()
    }
}

impl GodotExtensionClassMethods for Bar {
    fn virtual_entries() -> Vec<VirtualMethod> {
        Vec::new()
    }

    fn register_methods() {}
}

impl GodotMethods for Bar {
    fn init(_base: ObjectPtr) -> Bar {
        Bar
    }
}

fn base_registry() -> Registry {
    Registry::with_builtins(vec![b"Base".to_vec()])
}

#[test]
fn class_name_has_exactly_one_trailing_terminator() {
    let name = ClassName::new::<Foo>();
    let bytes = name.c_str();
    assert_eq!(bytes, b"Foo\0");
    assert_eq!(bytes[bytes.len() - 1], 0);
    assert_eq!(bytes.iter().filter(|b| **b == 0).count(), 1);
}

#[test]
fn parent_class_name_is_encoded_from_the_declared_base() {
    let parent = ClassName::new_parent::<Foo>();
    assert_eq!(parent.c_str(), b"Base\0");
}

#[test]
fn declared_memory_strategy_is_readable() {
    assert_eq!(Foo::mem_tag(), MemTag::StaticRefCount);
    assert_eq!(Quiet::mem_tag(), MemTag::ManualMemory);
}

#[test]
fn class_name_round_trips_through_decoding() {
    let name = ClassName::from_name(b"AnimatedSprite".to_vec());
    let decoded = decode_c_str(name.c_str());
    assert_eq!(decoded, b"AnimatedSprite".to_vec());
}

#[test]
fn empty_name_round_trips() {
    let name = ClassName::from_name(Vec::new());
    assert_eq!(name.c_str(), b"\0");
    assert_eq!(decode_c_str(name.c_str()), Vec::<u8>::new());
}

#[test]
fn decoding_stops_at_first_terminator() {
    assert_eq!(decode_c_str(b"ab\0cd"), b"ab".to_vec());
    assert_eq!(decode_c_str(b"\0xyz"), Vec::<u8>::new());
    assert_eq!(decode_c_str(b"no terminator"), b"no terminator".to_vec());
}

#[test]
fn creation_info_layout_with_string_support() {
    let info = build_creation_info(true);
    assert_eq!(info.set_func, SlotStatus::Unimplemented);
    assert_eq!(info.get_func, SlotStatus::Unimplemented);
    assert_eq!(info.get_property_list_func, SlotStatus::Unimplemented);
    assert_eq!(info.free_property_list_func, SlotStatus::Unimplemented);
    assert_eq!(info.notification_func, SlotStatus::Unimplemented);
    assert_eq!(info.to_string_func, SlotStatus::Provided);
    assert_eq!(info.reference_func, SlotStatus::Provided);
    assert_eq!(info.unreference_func, SlotStatus::Provided);
    assert_eq!(info.create_instance_func, SlotStatus::Provided);
    assert_eq!(info.free_instance_func, SlotStatus::Provided);
    assert_eq!(info.get_virtual_func, SlotStatus::Provided);
    assert_eq!(info.get_rid_func, SlotStatus::Unimplemented);
}

#[test]
fn stringify_slot_absent_without_string_support() {
    let mut registry = base_registry();
    assert_eq!(register_class::<Quiet>(&mut registry), Ok(()));
    let info = registry.class_info(b"Quiet").expect("registered");
    assert_eq!(info.to_string_func, SlotStatus::Unimplemented);
    assert_eq!(info.reference_func, SlotStatus::Provided);
    assert_eq!(info.unreference_func, SlotStatus::Provided);
    assert_eq!(info.create_instance_func, SlotStatus::Provided);
    assert_eq!(info.free_instance_func, SlotStatus::Provided);
    assert_eq!(info.get_virtual_func, SlotStatus::Provided);
}

#[test]
fn registration_succeeds_once_then_is_refused() {
    let mut registry = base_registry();
    assert_eq!(register_class::<Foo>(&mut registry), Ok(()));
    assert!(registry.is_class_known(b"Foo"));
    assert_eq!(registry.class_count(), 1);
    assert_eq!(
        register_class::<Foo>(&mut registry),
        Err(RegistrationError::AlreadyRegistered)
    );
    assert_eq!(registry.class_count(), 1);
}

#[test]
fn registration_needs_a_known_parent() {
    let mut registry = Registry::with_builtins(Vec::new());
    assert_eq!(
        register_class::<Foo>(&mut registry),
        Err(RegistrationError::UnknownParent)
    );
    assert_eq!(registry.class_count(), 0);
    assert!(!registry.is_class_known(b"Foo"));
}

#[test]
fn registering_a_builtin_name_is_refused() {
    let mut registry = base_registry();
    assert_eq!(
        register_class::<Impostor>(&mut registry),
        Err(RegistrationError::AlreadyRegistered)
    );
}

#[test]
fn full_scenario_register_then_drive_one_instance() {
    let mut registry = base_registry();
    assert_eq!(register_class::<Foo>(&mut registry), Ok(()));

    // The foreign runtime allocates the base object and hands its handle in.
    let base = ObjectPtr::from_addr(0x4000);
    let mut storage = gdext_class::storage::create_instance_callback::<Foo>(base);
    assert!(!storage.base().is_null());
    assert_eq!(storage.base().addr(), base.addr());
    assert_eq!(storage.refcount(), 1);

    gdext_class::storage::reference_callback(&mut storage);
    gdext_class::storage::unreference_callback(&mut storage);
    assert_eq!(storage.refcount(), 1);

    // Freeing consumes the storage, so no later call on it can exist.
    let native = gdext_class::storage::free_instance_callback(storage);
    assert_eq!(native.count, 0);
}

#[test]
fn registered_chain_of_classes_is_recorded_in_order() {
    let mut registry = base_registry();
    // Bar's parent Foo is not registered yet.
    assert_eq!(
        register_class::<Bar>(&mut registry),
        Err(RegistrationError::UnknownParent)
    );
    assert_eq!(register_class::<Foo>(&mut registry), Ok(()));
    assert_eq!(register_class::<Bar>(&mut registry), Ok(()));
    assert_eq!(registry.class_count(), 2);
    assert!(registry.is_class_known(b"Foo"));
    assert!(registry.is_class_known(b"Bar"));
    assert!(registry.is_class_known(b"Base"));
    assert!(!registry.is_class_known(b"Baz"));
    let info = registry.class_info(b"Foo").expect("registered");
    assert_eq!(info.to_string_func, SlotStatus::Provided);
    assert!(registry.class_info(b"Baz").is_none());
}
