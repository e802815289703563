//! Instance storage and the lifecycle callbacks that operate on it.
//!
//! One `InstanceStorage` owns exactly one native instance, its reference
//! count, and the handle of the foreign-side base object the instance
//! extends. The foreign runtime holds nothing but an opaque pointer to this
//! storage and drives it through the callbacks below: create, reference,
//! unreference, stringify, free.

use vstd::prelude::*;

use crate::registry::SlotStatus;
use crate::traits::{GodotExtensionClass, GodotMethods};

verus! {

/// Opaque handle standing for the address of a foreign-side object. Only
/// whole handles are stored, compared or passed back; no arithmetic is done
/// on them, and only `from_addr` and `addr` convert between a handle and
/// its raw representation.
#[derive(Clone, Copy, PartialEq, Eq, Debug, Structural)]
pub struct ObjectPtr {
    addr: usize,
}

impl ObjectPtr {
    /// The address this handle stands for.
    pub closed spec fn addr_spec(&self) -> usize {
        self.addr
    }

    /// A handle is null exactly when its address is zero.
    pub open spec fn is_null_spec(&self) -> bool {
        self.addr_spec() == 0
    }

    /// Wraps a raw address in a handle.
    pub fn from_addr(addr: usize) -> (p: Self)
        ensures
            p.addr_spec() == addr,
    {
        ObjectPtr { addr }
    }

    /// Reads the raw address back.
    pub fn addr(&self) -> (a: usize)
        ensures
            a == self.addr_spec(),
    {
        self.addr
    }

    /// The null handle.
    pub fn null() -> (p: Self)
        ensures
            p.is_null_spec(),
    {
        ObjectPtr { addr: 0 }
    }

    /// Whether this handle is null.
    pub fn is_null(&self) -> (b: bool)
        ensures
            b == self.is_null_spec(),
    {
        self.addr == 0
    }
}

/// The owning container bridging one native instance to the foreign side:
/// the instance itself, its reference count, and the handle of the foreign
/// base object it extends. The foreign runtime only ever sees an opaque
/// pointer to a value of this type and passes it back verbatim.
pub struct InstanceStorage<T> {
    user_instance: T,
    refcount: u64,
    base: ObjectPtr,
}

impl<T> InstanceStorage<T> {
    /// The owned native instance.
    pub closed spec fn instance_spec(&self) -> T {
        self.user_instance
    }

    /// The current reference count.
    pub closed spec fn refcount_spec(&self) -> u64 {
        self.refcount
    }

    /// The handle of the foreign base object.
    pub closed spec fn base_spec(&self) -> ObjectPtr {
        self.base
    }

    /// Wraps a native instance for the foreign side. A freshly created
    /// instance starts with one reference: the foreign object that owns it.
    pub fn new(user_instance: T, base: ObjectPtr) -> (s: Self)
        ensures
            s.instance_spec() == user_instance,
            s.refcount_spec() == 1,
            s.base_spec() == base,
    {
        InstanceStorage { user_instance, refcount: 1, base }
    }

    /// Borrows the owned instance.
    pub fn get(&self) -> (r: &T)
        ensures
            r == self.instance_spec(),
    {
        &self.user_instance
    }

    /// Reads the current reference count.
    pub fn refcount(&self) -> (c: u64)
        ensures
            c == self.refcount_spec(),
    {
        self.refcount
    }

    /// Reads the handle of the foreign base object.
    pub fn base(&self) -> (b: ObjectPtr)
        ensures
            b == self.base_spec(),
    {
        self.base
    }

    /// One reference call: the count grows by exactly one; the instance and
    /// the base handle stay as they were.
    pub fn inc_ref(&mut self)
        requires
            old(self).refcount_spec() < u64::MAX,
        ensures
            final(self).refcount_spec() == old(self).refcount_spec() + 1,
            final(self).instance_spec() == old(self).instance_spec(),
            final(self).base_spec() == old(self).base_spec(),
    {
        self.refcount = self.refcount + 1;
    }

    /// One unreference call: the count shrinks by exactly one and never
    /// goes below zero, since a well-formed call sequence only unreferences
    /// a live instance. The instance and the base handle stay as they were.
    pub fn dec_ref(&mut self)
        requires
            old(self).refcount_spec() >= 1,
        ensures
            final(self).refcount_spec() == old(self).refcount_spec() - 1,
            final(self).instance_spec() == old(self).instance_spec(),
            final(self).base_spec() == old(self).base_spec(),
    {
        self.refcount = self.refcount - 1;
    }
}

impl<T: GodotMethods> InstanceStorage<T> {
    /// Default-constructs the native instance around a foreign base handle
    /// and wraps it, with an initial reference count of one.
    pub fn construct_default(base: ObjectPtr) -> (s: Self)
        ensures
            s.refcount_spec() == 1,
            s.base_spec() == base,
    {
        InstanceStorage::new(T::init(base), base)
    }
}

/// The foreign runtime's own string representation, after ownership of a
/// native string has moved across the boundary.
pub struct ForeignString {
    data: String,
}

impl View for ForeignString {
    type V = Seq<char>;

    closed spec fn view(&self) -> Seq<char> {
        self.data@
    }
}

impl ForeignString {
    /// Moves a native string into the foreign representation. The call
    /// consumes its input: after it, only the foreign side owns the text,
    /// and no native destructor can run on it again.
    pub fn from_native(s: String) -> (f: Self)
        ensures
            f@ == s@,
    {
        ForeignString { data: s }
    }

    /// Reads the text the foreign side holds.
    pub fn as_str(&self) -> (r: &str)
        ensures
            r@ == self@,
    {
        self.data.as_str()
    }
}

/// The reference callback: recovers the storage behind the opaque instance
/// pointer and counts one more reference. It never creates or destroys
/// storage.
pub fn reference_callback<T>(storage: &mut InstanceStorage<T>)
    requires
        old(storage).refcount_spec() < u64::MAX,
    ensures
        final(storage).refcount_spec() == old(storage).refcount_spec() + 1,
        final(storage).instance_spec() == old(storage).instance_spec(),
        final(storage).base_spec() == old(storage).base_spec(),
{
    storage.inc_ref();
}

/// The unreference callback: counts one reference down. A well-formed call
/// sequence only unreferences an instance whose count is at least one.
pub fn unreference_callback<T>(storage: &mut InstanceStorage<T>)
    requires
        old(storage).refcount_spec() >= 1,
    ensures
        final(storage).refcount_spec() == old(storage).refcount_spec() - 1,
        final(storage).instance_spec() == old(storage).instance_spec(),
        final(storage).base_spec() == old(storage).base_spec(),
{
    storage.dec_ref();
}

/// The stringify callback: converts the stored instance to text and moves
/// ownership of the result across the boundary into the foreign string
/// representation. Only installed, and only invoked, for classes that
/// declare string-conversion support.
pub fn to_string_callback<T: GodotExtensionClass>(storage: &InstanceStorage<T>) -> (out:
    ForeignString)
    requires
        T::has_to_string_spec(),
    ensures
        out@ == storage.instance_spec().to_string_repr_spec(),
{
    let string = storage.get().to_string_repr();
    ForeignString::from_native(string)
}

/// The create-instance callback: the foreign runtime has already allocated
/// the base object of the parent class and hands its non-null handle in;
/// this wraps a default-constructed native instance around it. The storage
/// returned is what the opaque instance pointer will point to; it starts
/// live with one reference.
pub fn create_instance_callback<T: GodotMethods>(base: ObjectPtr) -> (s: InstanceStorage<T>)
    requires
        !base.is_null_spec(),
    ensures
        s.refcount_spec() == 1,
        s.base_spec() == base,
{
    InstanceStorage::<T>::construct_default(base)
}

/// The free-instance callback: consumes the storage, releasing ownership of
/// the native instance so its destruction logic runs exactly once. The
/// storage cannot be touched again after this call; the foreign runtime
/// guarantees a single, correctly paired invocation per instance.
pub fn free_instance_callback<T>(storage: InstanceStorage<T>) -> (t: T)
    ensures
        t == storage.instance_spec(),
{
    let InstanceStorage { user_instance, refcount: _, base: _ } = storage;
    user_instance
}

/// The fixed no-op instance-binding callback table handed to the foreign
/// runtime's binding mechanism: this bridge supports no foreign-side
/// binding lifecycle hooks beyond the identity association.
pub struct InstanceBindingCallbacks {
    /// Hook run when a binding is created; never provided here.
    pub create_callback: SlotStatus,
    /// Hook run when a binding is freed; never provided here.
    pub free_callback: SlotStatus,
    /// Hook run when a binding is re-referenced; never provided here.
    pub reference_callback: SlotStatus,
}

/// Builds the fixed no-op binding callback table.
pub fn nop_instance_callbacks() -> (c: InstanceBindingCallbacks)
    ensures
        c.create_callback is Unimplemented,
        c.free_callback is Unimplemented,
        c.reference_callback is Unimplemented,
{
    InstanceBindingCallbacks {
        create_callback: SlotStatus::Unimplemented,
        free_callback: SlotStatus::Unimplemented,
        reference_callback: SlotStatus::Unimplemented,
    }
}

} // verus!
