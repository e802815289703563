//! Virtual dispatch resolver.
//!
//! The foreign runtime asks for a virtual method by name; the answer is
//! either a concrete callable entry point or an explicit "not found". The
//! resolver does nothing but look the name up in the mapping the type
//! declares: no fuzzy matching, no case folding.

use vstd::prelude::*;

use crate::names::{bytes_eq, decode_c_str, decode_spec, has_zero};
use crate::traits::GodotExtensionClassMethods;

verus! {

/// Opaque handle standing for the address of a callable entry point. Only
/// whole handles are compared or passed on; no arithmetic is done on them.
#[derive(Clone, Copy, PartialEq, Eq, Debug, Structural)]
pub struct EntryPoint {
    addr: usize,
}

impl EntryPoint {
    /// The address this handle stands for.
    pub closed spec fn addr_spec(&self) -> usize {
        self.addr
    }

    /// Wraps an address. This and `addr` are the only conversions between
    /// a handle and its raw representation.
    pub fn from_addr(addr: usize) -> (p: Self)
        ensures
            p.addr_spec() == addr,
    {
        EntryPoint { addr }
    }

    /// Reads the raw address back.
    pub fn addr(&self) -> (a: usize)
        ensures
            a == self.addr_spec(),
    {
        self.addr
    }
}

/// One declared virtual method: its name and the entry point implementing it.
#[derive(Debug)]
pub struct VirtualMethod {
    /// The method name, without terminator.
    pub name: Vec<u8>,
    /// The callable entry point.
    pub entry: EntryPoint,
}

/// The mathematical content of a declared method table.
pub open spec fn table_view(v: Seq<VirtualMethod>) -> Seq<(Seq<u8>, EntryPoint)> {
    v.map_values(|m: VirtualMethod| (m.name@, m.entry))
}

/// First entry of the table whose name matches, or `None` when none does.
pub open spec fn resolve_spec(table: Seq<(Seq<u8>, EntryPoint)>, name: Seq<u8>) -> Option<
    EntryPoint,
>
    decreases table.len(),
{
    if table.len() == 0 {
        None
    } else if table.first().0 == name {
        Some(table.first().1)
    } else {
        resolve_spec(table.drop_first(), name)
    }
}

/// Resolution answers "not found" exactly when the name is declared nowhere
/// in the table.
pub proof fn lemma_resolve_not_found(table: Seq<(Seq<u8>, EntryPoint)>, name: Seq<u8>)
    ensures
        resolve_spec(table, name) is None <==> (forall|i: int|
            0 <= i < table.len() ==> table[i].0 != name),
    decreases table.len(),
{
    if table.len() == 0 {
    } else if table.first().0 == name {
    } else {
        lemma_resolve_not_found(table.drop_first(), name);
        assert forall|i: int| 1 <= i < table.len() implies table.drop_first()[i - 1] == table[i] by {}
    }
}

/// Stepping the resolution spec past one non-matching prefix entry.
proof fn lemma_resolve_skip_step(table: Seq<(Seq<u8>, EntryPoint)>, name: Seq<u8>, i: int)
    requires
        0 <= i < table.len(),
    ensures
        resolve_spec(table.skip(i), name) == (if table[i].0 == name {
            Some(table[i].1)
        } else {
            resolve_spec(table.skip(i + 1), name)
        }),
{
    assert(table.skip(i).first() == table[i]);
    assert(table.skip(i).drop_first() =~= table.skip(i + 1));
}

/// Virtual resolution is deterministic: any two answers obtained for the
/// same declared table and the same method name are the same answer, both a
/// matching entry point or both "not found".
pub proof fn lemma_resolution_deterministic(
    table: Seq<(Seq<u8>, EntryPoint)>,
    name: Seq<u8>,
    r1: Option<EntryPoint>,
    r2: Option<EntryPoint>,
)
    requires
        r1 == resolve_spec(table, name),
        r2 == resolve_spec(table, name),
    ensures
        r1 == r2,
{
}

/// Looks a method name up in a declared table: the first entry with that
/// exact name wins, and a name declared nowhere yields `None`.
pub fn resolve_virtual(entries: &Vec<VirtualMethod>, name: &[u8]) -> (r: Option<EntryPoint>)
    ensures
        r == resolve_spec(table_view(entries@), name@),
        r is None <==> (forall|i: int| 0 <= i < entries@.len() ==> entries@[i].name@ != name@),
{
    let ghost table = table_view(entries@);
    assert(table.skip(0) =~= table);
    let n = entries.len();
    let mut i: usize = 0;
    while i < n
        invariant
            n == entries@.len(),
            0 <= i <= n,
            table == table_view(entries@),
            table.len() == n,
            forall|j: int| 0 <= j < n ==> table[j] == (entries@[j].name@, entries@[j].entry),
            resolve_spec(table, name@) == resolve_spec(table.skip(i as int), name@),
        decreases n - i,
    {
        proof {
            lemma_resolve_skip_step(table, name@, i as int);
        }
        if bytes_eq(entries[i].name.as_slice(), name) {
            return Some(entries[i].entry);
        }
        i = i + 1;
    }
    assert(table.skip(n as int) =~= Seq::<(Seq<u8>, EntryPoint)>::empty());
    proof {
        lemma_resolve_not_found(table, name@);
        assert(resolve_spec(table, name@) is None);
        assert forall|j: int| 0 <= j < entries@.len() implies entries@[j].name@ != name@ by {
            assert(table[j] == (entries@[j].name@, entries@[j].entry));
        }
    }
    None
}

/// The get-virtual callback: decodes the zero-terminated method name the
/// foreign runtime supplies and delegates to the resolver over the table
/// type `T` declares. The buffer is zero-terminated by ABI contract.
pub fn get_virtual_callback<T: GodotExtensionClassMethods>(p_name: &[u8]) -> (r: Option<
    EntryPoint,
>)
    requires
        has_zero(p_name@),
    ensures
        r == resolve_spec(T::virtual_table_spec(), decode_spec(p_name@)),
{
    let name = decode_c_str(p_name);
    let entries = T::virtual_entries();
    resolve_virtual(&entries, name.as_slice())
}

} // verus!
