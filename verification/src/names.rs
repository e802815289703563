//! Foreign-class-name encoder.
//!
//! The foreign ABI reads class and method names as zero-terminated byte
//! strings. A logical name must contain no zero byte; its encoding is the
//! name followed by exactly one terminating zero. `ClassName` owns such a
//! buffer so that the bytes stay alive for as long as a caller hands them to
//! the foreign runtime.

use vstd::prelude::*;

verus! {

/// Holds when a byte sequence contains no zero byte, so it can stand before
/// a zero terminator without being cut short.
pub open spec fn zero_free(s: Seq<u8>) -> bool {
    forall|i: int| 0 <= i < s.len() ==> s[i] != 0u8
}

/// Holds when a byte sequence contains at least one zero byte, i.e. it is a
/// well-formed zero-terminated buffer.
pub open spec fn has_zero(s: Seq<u8>) -> bool {
    exists|i: int| 0 <= i < s.len() && s[i] == 0u8
}

/// The encoding of a logical name: the name bytes followed by one zero.
pub open spec fn encode_spec(name: Seq<u8>) -> Seq<u8> {
    name.push(0u8)
}

/// Index of the first zero byte, or the length when there is none.
pub open spec fn first_zero(s: Seq<u8>) -> int
    decreases s.len(),
{
    if s.len() == 0 {
        0
    } else if s[0] == 0u8 {
        0
    } else {
        1 + first_zero(s.drop_first())
    }
}

/// The decoding of a zero-terminated buffer: the bytes before the first zero.
pub open spec fn decode_spec(s: Seq<u8>) -> Seq<u8> {
    s.take(first_zero(s))
}

/// `first_zero` points at a zero when one exists, never skips one, and stays
/// within the sequence.
pub proof fn lemma_first_zero(s: Seq<u8>)
    ensures
        0 <= first_zero(s) <= s.len(),
        forall|j: int| 0 <= j < first_zero(s) ==> s[j] != 0u8,
        first_zero(s) < s.len() ==> s[first_zero(s)] == 0u8,
        first_zero(s) == s.len() ==> zero_free(s),
    decreases s.len(),
{
    if s.len() == 0 {
    } else if s[0] == 0u8 {
    } else {
        lemma_first_zero(s.drop_first());
        assert forall|j: int| 0 <= j < first_zero(s) implies s[j] != 0u8 by {
            if j > 0 {
                assert(s.drop_first()[j - 1] == s[j]);
            }
        }
        if first_zero(s) < s.len() {
            assert(s.drop_first()[first_zero(s) - 1] == s[first_zero(s)]);
        }
        if first_zero(s) == s.len() {
            assert forall|j: int| 0 <= j < s.len() implies s[j] != 0u8 by {
                if j > 0 {
                    assert(s.drop_first()[j - 1] == s[j]);
                }
            }
        }
    }
}

/// Round trip: encoding a zero-free name and decoding the buffer again gives
/// the name back, the buffer ends in exactly one terminator, and no
/// terminator stands inside the name part.
pub proof fn lemma_encode_round_trip(name: Seq<u8>)
    requires
        zero_free(name),
    ensures
        decode_spec(encode_spec(name)) == name,
        encode_spec(name).len() == name.len() + 1,
        encode_spec(name)[name.len() as int] == 0u8,
        forall|j: int| 0 <= j < name.len() ==> encode_spec(name)[j] != 0u8,
        has_zero(encode_spec(name)),
{
    let e = encode_spec(name);
    lemma_first_zero(e);
    assert(e[name.len() as int] == 0u8);
    assert(first_zero(e) == name.len()) by {
        if first_zero(e) < name.len() {
            assert(e[first_zero(e)] == name[first_zero(e)]);
        }
        if first_zero(e) > name.len() {
            assert(e[name.len() as int] != 0u8);
        }
    }
    assert(e.take(name.len() as int) =~= name);
}

/// Byte-for-byte comparison of two slices.
pub fn bytes_eq(a: &[u8], b: &[u8]) -> (r: bool)
    ensures
        r == (a@ == b@),
{
    if a.len() != b.len() {
        assert(a@ != b@);
        return false;
    }
    let n = a.len();
    let mut i: usize = 0;
    while i < n
        invariant
            n == a@.len() == b@.len(),
            0 <= i <= n,
            forall|j: int| 0 <= j < i ==> a@[j] == b@[j],
        decreases n - i,
    {
        if a[i] != b[i] {
            return false;
        }
        i = i + 1;
    }
    assert(a@ =~= b@);
    true
}

/// Reads a zero-terminated buffer back into the logical name it encodes:
/// the bytes before the first zero, or the whole buffer if no zero occurs.
pub fn decode_c_str(buf: &[u8]) -> (r: Vec<u8>)
    ensures
        r@ == decode_spec(buf@),
{
    proof {
        lemma_first_zero(buf@);
    }
    let mut out: Vec<u8> = Vec::new();
    let n = buf.len();
    let mut i: usize = 0;
    while i < n
        invariant
            n == buf@.len(),
            0 <= i <= n,
            out@ == buf@.take(i as int),
            forall|j: int| 0 <= j < i ==> buf@[j] != 0u8,
            i <= first_zero(buf@),
        decreases n - i,
    {
        proof {
            lemma_first_zero(buf@);
        }
        if buf[i] == 0 {
            assert(first_zero(buf@) == i);
            return out;
        }
        out.push(buf[i]);
        assert(out@ =~= buf@.take(i + 1));
        i = i + 1;
    }
    assert(first_zero(buf@) == n);
    assert(out@ =~= buf@.take(first_zero(buf@)));
    out
}

/// The zero-terminated form of one class name, as the foreign registration
/// entry point reads it. The backing buffer lives as long as this value, so
/// a view of it handed out stays valid while the value is kept alive.
pub struct ClassName {
    backing: Vec<u8>,
}

impl View for ClassName {
    type V = Seq<u8>;

    closed spec fn view(&self) -> Seq<u8> {
        self.backing@
    }
}

impl ClassName {
    /// The backing buffer is a well-formed encoding of some zero-free name.
    pub open spec fn wf(&self) -> bool {
        &&& self@.len() >= 1
        &&& self@[self@.len() - 1] == 0u8
        &&& zero_free(self@.take(self@.len() - 1))
    }

    /// The logical name this buffer encodes.
    pub open spec fn name_spec(&self) -> Seq<u8> {
        self@.take(self@.len() - 1)
    }

    /// Encodes a logical name. A name with an embedded zero byte is a
    /// programming error at this boundary, so it is ruled out up front.
    pub fn from_name(name: Vec<u8>) -> (r: Self)
        requires
            zero_free(name@),
        ensures
            r@ == encode_spec(name@),
            r.name_spec() == name@,
            r.wf(),
    {
        let ghost n = name@;
        let mut backing = name;
        backing.push(0u8);
        let r = ClassName { backing };
        proof {
            lemma_encode_round_trip(n);
            assert(r@.take(r@.len() - 1) =~= n);
        }
        r
    }

    /// Encodes the class name that type `T` declares.
    pub fn new<T: crate::traits::GodotClass>() -> (r: Self)
        ensures
            r@ == encode_spec(T::class_name_spec()),
            r.name_spec() == T::class_name_spec(),
            r.wf(),
    {
        ClassName::from_name(T::class_name())
    }

    /// Encodes the parent class name that type `T` declares.
    pub fn new_parent<T: crate::traits::GodotClass>() -> (r: Self)
        ensures
            r@ == encode_spec(T::parent_name_spec()),
            r.name_spec() == T::parent_name_spec(),
            r.wf(),
    {
        ClassName::from_name(T::parent_class_name())
    }

    /// The stable view of the zero-terminated buffer, handed to foreign
    /// calls; it borrows the backing store, so the buffer outlives the use.
    pub fn c_str(&self) -> (r: &[u8])
        ensures
            r@ == self@,
    {
        self.backing.as_slice()
    }
}

} // verus!
