//! The class contract.
//!
//! Every bindable native type declares its logical class name, its parent
//! (base) type, a memory-management strategy tag, whether it supports string
//! conversion, its table of virtual methods, a one-time method-registration
//! routine, and a default-construction routine that takes ownership of a
//! foreign base handle. The implementations are emitted by an external
//! code generator; the bridge only ever calls through these traits.

use vstd::prelude::*;

use crate::names::zero_free;

verus! {

/// Memory-management strategy a bindable class declares.
#[derive(Clone, Copy, PartialEq, Eq, Debug, Structural)]
pub enum MemTag {
    /// Lifetime driven by the foreign runtime's reference counting.
    StaticRefCount,
    /// Lifetime managed manually by the code that owns the object.
    ManualMemory,
}

/// What every bindable type declares about itself.
pub trait GodotClass: Sized {
    /// The declared logical class name. Unspecified unless the
    /// implementation overrides it; the contract of `class_name` is what
    /// ties it to the executable name.
    open spec fn class_name_spec() -> Seq<u8> {
        vstd::pervasive::arbitrary()
    }

    /// The declared logical name of the parent class this one extends.
    /// Unspecified unless the implementation overrides it.
    open spec fn parent_name_spec() -> Seq<u8> {
        vstd::pervasive::arbitrary()
    }

    /// The logical class name as bytes. The name comes from a trusted
    /// compile-time source and never contains a zero byte, so it can be
    /// encoded with a single trailing terminator.
    fn class_name() -> (n: Vec<u8>)
        ensures
            n@ == Self::class_name_spec(),
            zero_free(n@),
    ;

    /// The logical name of the parent (base) class, from the same trusted
    /// compile-time source as `class_name`.
    fn parent_class_name() -> (n: Vec<u8>)
        ensures
            n@ == Self::parent_name_spec(),
            zero_free(n@),
    ;

    /// The declared memory-management strategy.
    fn mem_tag() -> MemTag;
}

/// Declared support for conversion to the foreign string representation.
pub trait GodotExtensionClass: GodotClass {
    /// Whether this class declares string-conversion support.
    /// Unspecified unless the implementation overrides it.
    open spec fn has_to_string_spec() -> bool {
        vstd::pervasive::arbitrary()
    }

    /// Whether this class declares string-conversion support; decides
    /// whether the registered descriptor carries a stringify callback.
    fn has_to_string() -> (b: bool)
        ensures
            b == Self::has_to_string_spec(),
    ;

    /// The string an instance converts to. Unspecified unless the
    /// implementation overrides it.
    open spec fn to_string_repr_spec(&self) -> Seq<char> {
        vstd::pervasive::arbitrary()
    }

    /// Converts this instance to its string representation. Only ever
    /// invoked when `has_to_string` holds.
    fn to_string_repr(&self) -> (s: String)
        ensures
            s@ == self.to_string_repr_spec(),
    ;
}

/// The virtual-method mapping a type declares, and its one-time
/// method-registration routine.
pub trait GodotExtensionClassMethods: GodotClass {
    /// The declared mapping from virtual method names to entry points.
    /// Unspecified unless the implementation overrides it.
    open spec fn virtual_table_spec() -> Seq<(Seq<u8>, crate::dispatch::EntryPoint)> {
        vstd::pervasive::arbitrary()
    }

    /// The declared virtual methods, in declaration order. Resolution does
    /// nothing but look a name up in this table.
    fn virtual_entries() -> (v: Vec<crate::dispatch::VirtualMethod>)
        ensures
            crate::dispatch::table_view(v@) == Self::virtual_table_spec(),
    ;

    /// One-time routine that tells the foreign runtime about the exposed
    /// methods, run right after the class descriptor is submitted.
    fn register_methods();
}

/// Default construction, used by the create-instance callback. It must not
/// call out to user-overridable construction logic: creation is a fixed
/// allocate-then-bind protocol.
pub trait GodotMethods: GodotClass {
    /// Builds the default instance, taking ownership of the handle of the
    /// foreign base object this instance extends.
    fn init(base: crate::storage::ObjectPtr) -> Self;
}

} // verus!
