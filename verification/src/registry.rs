//! Class registration.
//!
//! For a native type, the builder assembles the fixed-shape table of
//! lifecycle callbacks, encodes the class and parent class names, and
//! submits all three to the foreign runtime's class-registration entry
//! point. The foreign class database is modelled here as an explicit
//! `Registry` value: it starts out knowing the runtime's built-in classes
//! and accepts each extension class at most once, with a parent it already
//! knows.

use vstd::prelude::*;

use crate::names::{decode_c_str, lemma_first_zero, ClassName};
use crate::traits::{GodotClass, GodotExtensionClass, GodotExtensionClassMethods, GodotMethods};

verus! {

/// One slot of a foreign callback table: either a provided entry point or
/// an explicit marker that the feature is unsupported.
#[derive(Clone, Copy, PartialEq, Eq, Debug, Structural)]
pub enum SlotStatus {
    /// The bridge leaves this hook empty; the foreign runtime falls back to
    /// its own default behaviour.
    Unimplemented,
    /// The bridge provides this hook.
    Provided,
}

/// The fixed-shape table of lifecycle callback slots submitted at class
/// registration. Slot identity and order mirror the foreign ABI's creation
/// info record; the property-introspection and RID slots are always left
/// unimplemented by this bridge.
#[derive(Clone, Copy, PartialEq, Eq, Debug, Structural)]
pub struct ClassCreationInfo {
    /// Property setter hook; not supported by this bridge.
    pub set_func: SlotStatus,
    /// Property getter hook; not supported by this bridge.
    pub get_func: SlotStatus,
    /// Property-list hook; not supported by this bridge.
    pub get_property_list_func: SlotStatus,
    /// Property-list release hook; not supported by this bridge.
    pub free_property_list_func: SlotStatus,
    /// Notification hook; not supported by this bridge.
    pub notification_func: SlotStatus,
    /// Stringify hook; provided exactly when the class declares
    /// string-conversion support.
    pub to_string_func: SlotStatus,
    /// Reference hook; always provided.
    pub reference_func: SlotStatus,
    /// Unreference hook; always provided.
    pub unreference_func: SlotStatus,
    /// Create-instance hook; always provided.
    pub create_instance_func: SlotStatus,
    /// Free-instance hook; always provided.
    pub free_instance_func: SlotStatus,
    /// Virtual-method resolution hook; always provided.
    pub get_virtual_func: SlotStatus,
    /// RID retrieval hook; not supported by this bridge.
    pub get_rid_func: SlotStatus,
}

/// The one descriptor shape this bridge ever submits for a class: every
/// required lifecycle callback present, the stringify slot present exactly
/// when the class declares string conversion, and every reserved slot
/// explicitly unimplemented.
pub open spec fn creation_info_spec(has_to_string: bool) -> ClassCreationInfo {
    ClassCreationInfo {
        set_func: SlotStatus::Unimplemented,
        get_func: SlotStatus::Unimplemented,
        get_property_list_func: SlotStatus::Unimplemented,
        free_property_list_func: SlotStatus::Unimplemented,
        notification_func: SlotStatus::Unimplemented,
        to_string_func: if has_to_string {
            SlotStatus::Provided
        } else {
            SlotStatus::Unimplemented
        },
        reference_func: SlotStatus::Provided,
        unreference_func: SlotStatus::Provided,
        create_instance_func: SlotStatus::Provided,
        free_instance_func: SlotStatus::Provided,
        get_virtual_func: SlotStatus::Provided,
        get_rid_func: SlotStatus::Unimplemented,
    }
}

/// The descriptor invariant: reference, unreference, create, free and
/// virtual-resolve callbacks are all present.
pub open spec fn required_callbacks_present(info: ClassCreationInfo) -> bool {
    &&& info.reference_func is Provided
    &&& info.unreference_func is Provided
    &&& info.create_instance_func is Provided
    &&& info.free_instance_func is Provided
    &&& info.get_virtual_func is Provided
}

/// Builds the callback table for a class, from whether it declares
/// string-conversion support.
pub fn build_creation_info(has_to_string: bool) -> (info: ClassCreationInfo)
    ensures
        info == creation_info_spec(has_to_string),
        required_callbacks_present(info),
        info.to_string_func is Provided <==> has_to_string,
{
    ClassCreationInfo {
        set_func: SlotStatus::Unimplemented,
        get_func: SlotStatus::Unimplemented,
        get_property_list_func: SlotStatus::Unimplemented,
        free_property_list_func: SlotStatus::Unimplemented,
        notification_func: SlotStatus::Unimplemented,
        to_string_func: if has_to_string {
            SlotStatus::Provided
        } else {
            SlotStatus::Unimplemented
        },
        reference_func: SlotStatus::Provided,
        unreference_func: SlotStatus::Provided,
        create_instance_func: SlotStatus::Provided,
        free_instance_func: SlotStatus::Provided,
        get_virtual_func: SlotStatus::Provided,
        get_rid_func: SlotStatus::Unimplemented,
    }
}

/// Why the class database refused a registration.
#[derive(Clone, Copy, PartialEq, Eq, Debug, Structural)]
pub enum RegistrationError {
    /// The class name is already known, as a built-in or as an extension
    /// class registered earlier.
    AlreadyRegistered,
    /// The named parent class is not known to the database.
    UnknownParent,
}

/// One extension class the database has accepted: its logical name, its
/// parent's logical name, and the callback table it was submitted with.
pub struct RegisteredClass {
    /// The logical class name, without terminator.
    pub class_name: Vec<u8>,
    /// The logical parent class name, without terminator.
    pub parent_name: Vec<u8>,
    /// The callback table submitted for this class.
    pub info: ClassCreationInfo,
}

/// The view of a list of raw names as a sequence of byte strings.
pub open spec fn name_seq_view(s: Seq<Vec<u8>>) -> Seq<Seq<u8>> {
    s.map_values(|v: Vec<u8>| v@)
}

/// The foreign runtime's class database, as this bridge observes it: the
/// built-in classes it started with and the extension classes accepted so
/// far, in order of registration.
pub struct Registry {
    builtins: Vec<Vec<u8>>,
    classes: Vec<RegisteredClass>,
}

impl Registry {
    /// The names of the built-in classes.
    pub closed spec fn builtins_spec(&self) -> Seq<Seq<u8>> {
        name_seq_view(self.builtins@)
    }

    /// The accepted extension classes: name, parent name, callback table.
    pub closed spec fn entries_spec(&self) -> Seq<(Seq<u8>, Seq<u8>, ClassCreationInfo)> {
        self.classes@.map_values(
            (|c: RegisteredClass| (c.class_name@, c.parent_name@, c.info)),
        )
    }

    /// The names of the accepted extension classes, in registration order.
    pub closed spec fn registered_names(&self) -> Seq<Seq<u8>> {
        self.classes@.map_values(|c: RegisteredClass| c.class_name@)
    }

    /// Whether an extension class of this name has been accepted.
    pub open spec fn is_registered(&self, name: Seq<u8>) -> bool {
        self.registered_names().contains(name)
    }

    /// Whether this name is known at all, as a built-in or as an accepted
    /// extension class.
    pub open spec fn knows_class(&self, name: Seq<u8>) -> bool {
        self.builtins_spec().contains(name) || self.is_registered(name)
    }

    /// Every name known to the database, built-ins first.
    pub open spec fn known_names(&self) -> Seq<Seq<u8>> {
        self.builtins_spec() + self.registered_names()
    }

    /// Database invariant: no extension class name is accepted twice, and
    /// none shadows a built-in.
    pub open spec fn wf(&self) -> bool {
        &&& (forall|i: int, j: int|
            0 <= i < j < self.registered_names().len() ==> self.registered_names()[i]
                != self.registered_names()[j])
        &&& (forall|i: int|
            0 <= i < self.registered_names().len() ==> !self.builtins_spec().contains(
                self.registered_names()[i],
            ))
    }

    /// A database that starts out knowing the given built-in classes and
    /// no extension class.
    pub fn with_builtins(builtin_class_names: Vec<Vec<u8>>) -> (r: Registry)
        ensures
            r.builtins_spec() == name_seq_view(builtin_class_names@),
            r.entries_spec() == Seq::<(Seq<u8>, Seq<u8>, ClassCreationInfo)>::empty(),
            r.wf(),
    {
        let r = Registry { builtins: builtin_class_names, classes: Vec::new() };
        proof {
            assert(r.entries_spec() =~= Seq::<(Seq<u8>, Seq<u8>, ClassCreationInfo)>::empty());
        }
        r
    }

    /// How many extension classes have been accepted.
    pub fn class_count(&self) -> (n: usize)
        ensures
            n == self.entries_spec().len(),
    {
        self.classes.len()
    }

    /// Whether this logical name is known to the database.
    pub fn is_class_known(&self, name: &[u8]) -> (r: bool)
        ensures
            r == self.knows_class(name@),
    {
        if name_list_contains(&self.builtins, name) {
            proof {
                lemma_exists_iff_contains_names(self.builtins@, name@);
            }
            return true;
        }
        let found = registered_index_of(&self.classes, name);
        proof {
            lemma_exists_iff_contains_names(self.builtins@, name@);
            lemma_exists_iff_contains_registered(self.classes@, name@);
        }
        found.is_some()
    }

    /// The callback table an extension class of this name was registered
    /// with, or `None` when no such class has been accepted.
    pub fn class_info(&self, class_name: &[u8]) -> (r: Option<&ClassCreationInfo>)
        ensures
            r is Some <==> self.is_registered(class_name@),
            r matches Some(info) ==> exists|i: int|
                0 <= i < self.entries_spec().len() && self.entries_spec()[i].0 == class_name@
                    && self.entries_spec()[i].2 == *info,
    {
        let found = registered_index_of(&self.classes, class_name);
        proof {
            lemma_exists_iff_contains_registered(self.classes@, class_name@);
        }
        match found {
            Some(i) => {
                assert(self.entries_spec()[i as int].0 == class_name@);
                assert(self.entries_spec()[i as int].2 == self.classes@[i as int].info);
                Some(&self.classes[i].info)
            },
            None => None,
        }
    }

    /// The class-registration entry point, as the foreign runtime exposes
    /// it: takes the encoded class name, the encoded parent class name and
    /// the callback table. It accepts exactly when the class name is fresh
    /// and the parent is known; on refusal the database is unchanged.
    pub fn register_extension_class(
        &mut self,
        class_name: &ClassName,
        parent_class_name: &ClassName,
        info: ClassCreationInfo,
    ) -> (r: Result<(), RegistrationError>)
        requires
            old(self).wf(),
            class_name.wf(),
            parent_class_name.wf(),
        ensures
            final(self).wf(),
            final(self).builtins_spec() == old(self).builtins_spec(),
            match r {
                Ok(()) => {
                    &&& !old(self).knows_class(class_name.name_spec())
                    &&& old(self).knows_class(parent_class_name.name_spec())
                    &&& final(self).entries_spec() == old(self).entries_spec().push(
                        (class_name.name_spec(), parent_class_name.name_spec(), info),
                    )
                    &&& final(self).known_names() == register_step(
                        old(self).known_names(),
                        class_name.name_spec(),
                    )
                },
                Err(RegistrationError::AlreadyRegistered) => {
                    &&& old(self).knows_class(class_name.name_spec())
                    &&& final(self).entries_spec() == old(self).entries_spec()
                    &&& final(self).known_names() == old(self).known_names()
                },
                Err(RegistrationError::UnknownParent) => {
                    &&& !old(self).knows_class(class_name.name_spec())
                    &&& !old(self).knows_class(parent_class_name.name_spec())
                    &&& final(self).entries_spec() == old(self).entries_spec()
                    &&& final(self).known_names() == old(self).known_names()
                },
            },
    {
        proof {
            lemma_classname_decodes(class_name);
            lemma_classname_decodes(parent_class_name);
        }
        let name = decode_c_str(class_name.c_str());
        let parent = decode_c_str(parent_class_name.c_str());
        proof {
            lemma_exists_iff_contains_names(self.builtins@, name@);
            lemma_exists_iff_contains_registered(self.classes@, name@);
            lemma_exists_iff_contains_names(self.builtins@, parent@);
            lemma_exists_iff_contains_registered(self.classes@, parent@);
        }
        let name_known = name_list_contains(&self.builtins, name.as_slice())
            || registered_index_of(&self.classes, name.as_slice()).is_some();
        if name_known {
            proof {
                lemma_knows_iff_known_contains(self, class_name.name_spec());
            }
            return Err(RegistrationError::AlreadyRegistered);
        }
        let parent_known = name_list_contains(&self.builtins, parent.as_slice())
            || registered_index_of(&self.classes, parent.as_slice()).is_some();
        if !parent_known {
            return Err(RegistrationError::UnknownParent);
        }
        let ghost pre = *self;
        self.classes.push(RegisteredClass { class_name: name, parent_name: parent, info });
        proof {
            let entry = (class_name.name_spec(), parent_class_name.name_spec(), info);
            assert(self.entries_spec() =~= pre.entries_spec().push(entry));
            assert(self.registered_names() =~= pre.registered_names().push(
                class_name.name_spec(),
            ));
            lemma_knows_iff_known_contains(&pre, class_name.name_spec());
            assert(self.known_names() =~= pre.known_names().push(class_name.name_spec()));
            assert forall|i: int, j: int|
                0 <= i < j < self.registered_names().len() implies self.registered_names()[i]
                != self.registered_names()[j] by {
                if j < pre.registered_names().len() {
                } else {
                    assert(self.registered_names()[j] == class_name.name_spec());
                    assert(!pre.is_registered(class_name.name_spec()));
                    assert(self.registered_names()[i] == pre.registered_names()[i]);
                }
            }
            assert forall|i: int|
                0 <= i < self.registered_names().len() implies !self.builtins_spec().contains(
                self.registered_names()[i],
            ) by {
                if i < pre.registered_names().len() {
                    assert(self.registered_names()[i] == pre.registered_names()[i]);
                } else {
                    assert(self.registered_names()[i] == class_name.name_spec());
                }
            }
        }
        Ok(())
    }
}

/// A well-formed `ClassName` buffer decodes back to exactly the logical
/// name it encodes.
pub proof fn lemma_classname_decodes(c: &ClassName)
    requires
        c.wf(),
    ensures
        crate::names::decode_spec(c@) == c.name_spec(),
{
    lemma_first_zero(c@);
    let fz = crate::names::first_zero(c@);
    if fz < c@.len() - 1 {
        assert(c@.take(c@.len() - 1)[fz] == c@[fz]);
    }
    if fz == c@.len() {
        assert(c@[c@.len() - 1] != 0u8);
    }
    assert(fz == c@.len() - 1);
}

/// Whether a raw name list holds this name, by exact bytes.
fn name_list_contains(v: &Vec<Vec<u8>>, name: &[u8]) -> (r: bool)
    ensures
        r == (exists|i: int| 0 <= i < v@.len() && v@[i]@ == name@),
{
    let n = v.len();
    let mut i: usize = 0;
    while i < n
        invariant
            n == v@.len(),
            0 <= i <= n,
            forall|j: int| 0 <= j < i ==> v@[j]@ != name@,
        decreases n - i,
    {
        if crate::names::bytes_eq(v[i].as_slice(), name) {
            return true;
        }
        i = i + 1;
    }
    false
}

/// Index of the first registered class with this name, if any.
fn registered_index_of(classes: &Vec<RegisteredClass>, name: &[u8]) -> (r: Option<usize>)
    ensures
        match r {
            Some(i) => 0 <= i < classes@.len() && classes@[i as int].class_name@ == name@,
            None => forall|j: int| 0 <= j < classes@.len() ==> classes@[j].class_name@ != name@,
        },
{
    let n = classes.len();
    let mut i: usize = 0;
    while i < n
        invariant
            n == classes@.len(),
            0 <= i <= n,
            forall|j: int| 0 <= j < i ==> classes@[j].class_name@ != name@,
        decreases n - i,
    {
        if crate::names::bytes_eq(classes[i].class_name.as_slice(), name) {
            return Some(i);
        }
        i = i + 1;
    }
    None
}

/// Membership in the viewed name list coincides with exact-byte membership
/// in the raw list.
proof fn lemma_exists_iff_contains_names(s: Seq<Vec<u8>>, name: Seq<u8>)
    ensures
        name_seq_view(s).contains(name) <==> (exists|i: int| 0 <= i < s.len() && s[i]@ == name),
{
    if exists|i: int| 0 <= i < s.len() && s[i]@ == name {
        let i = choose|i: int| 0 <= i < s.len() && s[i]@ == name;
        assert(name_seq_view(s)[i] == name);
    }
    if name_seq_view(s).contains(name) {
        let i = choose|i: int| 0 <= i < name_seq_view(s).len() && name_seq_view(s)[i] == name;
        assert(s[i]@ == name);
    }
}

/// Membership among the registered names coincides with exact-byte
/// membership in the class list.
proof fn lemma_exists_iff_contains_registered(s: Seq<RegisteredClass>, name: Seq<u8>)
    ensures
        s.map_values(|c: RegisteredClass| c.class_name@).contains(name) <==> (exists|i: int|
            0 <= i < s.len() && s[i].class_name@ == name),
{
    let mapped = s.map_values(|c: RegisteredClass| c.class_name@);
    if exists|i: int| 0 <= i < s.len() && s[i].class_name@ == name {
        let i = choose|i: int| 0 <= i < s.len() && s[i].class_name@ == name;
        assert(mapped[i] == name);
    }
    if mapped.contains(name) {
        let i = choose|i: int| 0 <= i < mapped.len() && mapped[i] == name;
        assert(s[i].class_name@ == name);
    }
}

/// A name is known to the database exactly when it occurs in the sequence
/// of all known names.
pub proof fn lemma_knows_iff_known_contains(r: &Registry, name: Seq<u8>)
    ensures
        r.knows_class(name) <==> r.known_names().contains(name),
{
    let b = r.builtins_spec();
    let g = r.registered_names();
    if b.contains(name) {
        let i = choose|i: int| 0 <= i < b.len() && b[i] == name;
        assert(r.known_names()[i] == name);
    }
    if g.contains(name) {
        let i = choose|i: int| 0 <= i < g.len() && g[i] == name;
        assert(r.known_names()[b.len() + i] == name);
    }
    if r.known_names().contains(name) {
        let i = choose|i: int| 0 <= i < r.known_names().len() && r.known_names()[i] == name;
        if i < b.len() {
            assert(b[i] == name);
        } else {
            assert(g[i - b.len()] == name);
        }
    }
}

/// What one registration attempt does to the set of known names: a fresh
/// name is added, a known name changes nothing.
pub open spec fn register_step(known: Seq<Seq<u8>>, name: Seq<u8>) -> Seq<Seq<u8>> {
    if known.contains(name) {
        known
    } else {
        known.push(name)
    }
}

/// The known names after a sequence of registration attempts.
pub open spec fn register_run(known: Seq<Seq<u8>>, attempts: Seq<Seq<u8>>) -> Seq<Seq<u8>>
    decreases attempts.len(),
{
    if attempts.len() == 0 {
        known
    } else {
        register_step(register_run(known, attempts.drop_last()), attempts.last())
    }
}

/// Whether the `i`-th attempt of a sequence succeeds: its name is not yet
/// known when its turn comes.
pub open spec fn attempt_succeeds(known: Seq<Seq<u8>>, attempts: Seq<Seq<u8>>, i: int) -> bool {
    !register_run(known, attempts.take(i)).contains(attempts[i])
}

/// Once a name is known it stays known through any further attempts.
proof fn lemma_run_monotone(known: Seq<Seq<u8>>, attempts: Seq<Seq<u8>>, name: Seq<u8>, i: int, j: int)
    requires
        0 <= i <= j <= attempts.len(),
        register_run(known, attempts.take(i)).contains(name),
    ensures
        register_run(known, attempts.take(j)).contains(name),
    decreases j - i,
{
    if j > i {
        lemma_run_monotone(known, attempts, name, i, j - 1);
        assert(attempts.take(j).drop_last() =~= attempts.take(j - 1));
        assert(attempts.take(j).len() == j);
        let s = register_run(known, attempts.take(j - 1));
        if !s.contains(attempts.take(j).last()) {
            let k = choose|k: int| 0 <= k < s.len() && s[k] == name;
            assert(s.push(attempts.take(j).last())[k] == name);
        }
    }
}

/// The registration entry point is invoked successfully at most once per
/// class name: once an attempt for a name has succeeded, every later
/// attempt for the same name is refused as already registered.
pub proof fn lemma_register_at_most_once(
    known: Seq<Seq<u8>>,
    attempts: Seq<Seq<u8>>,
    i: int,
    j: int,
)
    requires
        0 <= i < j < attempts.len(),
        attempts[i] == attempts[j],
        attempt_succeeds(known, attempts, i),
    ensures
        !attempt_succeeds(known, attempts, j),
{
    let s = register_run(known, attempts.take(i));
    assert(attempts.take(i + 1).drop_last() =~= attempts.take(i));
    assert(attempts.take(i + 1).len() == i + 1);
    assert(attempts.take(i + 1).last() == attempts[i]);
    assert(s.push(attempts[i])[s.len() as int] == attempts[i]);
    assert(register_run(known, attempts.take(i + 1)).contains(attempts[i]));
    lemma_run_monotone(known, attempts, attempts[i], i + 1, j);
}

/// Registers native type `T` with the foreign class database: builds the
/// callback table, encodes the class and parent class names, submits the
/// descriptor, and, when the database accepts it, runs the type's one-time
/// method-registration routine. Accepts exactly when `T`'s name is fresh
/// and its parent's name is known; on refusal the database is unchanged
/// and the error says which condition failed.
pub fn register_class<T: GodotExtensionClass + GodotExtensionClassMethods + GodotMethods>(
    registry: &mut Registry,
) -> (r: Result<(), RegistrationError>)
    requires
        old(registry).wf(),
    ensures
        final(registry).wf(),
        final(registry).builtins_spec() == old(registry).builtins_spec(),
        match r {
            Ok(()) => {
                &&& !old(registry).knows_class(T::class_name_spec())
                &&& old(registry).knows_class(T::parent_name_spec())
                &&& final(registry).entries_spec() == old(registry).entries_spec().push(
                    (
                        T::class_name_spec(),
                        T::parent_name_spec(),
                        creation_info_spec(T::has_to_string_spec()),
                    ),
                )
                &&& final(registry).known_names() == register_step(
                    old(registry).known_names(),
                    T::class_name_spec(),
                )
            },
            Err(RegistrationError::AlreadyRegistered) => {
                &&& old(registry).knows_class(T::class_name_spec())
                &&& final(registry).entries_spec() == old(registry).entries_spec()
                &&& final(registry).known_names() == old(registry).known_names()
            },
            Err(RegistrationError::UnknownParent) => {
                &&& !old(registry).knows_class(T::class_name_spec())
                &&& !old(registry).knows_class(T::parent_name_spec())
                &&& final(registry).entries_spec() == old(registry).entries_spec()
                &&& final(registry).known_names() == old(registry).known_names()
            },
        },
{
    let creation_info = build_creation_info(T::has_to_string());
    let class_name = ClassName::new::<T>();
    let parent_class_name = ClassName::new_parent::<T>();
    let result = registry.register_extension_class(&class_name, &parent_class_name, creation_info);
    match result {
        Ok(()) => {
            T::register_methods();
            Ok(())
        },
        Err(e) => Err(e),
    }
}

} // verus!
