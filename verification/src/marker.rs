//! The marker that tells whether a signal has been observed in the meantime.

use vstd::prelude::*;

verus! {

/// A count of the signals observed so far, where all the signals that one look at the pipe finds
/// count as one. It has as many bytes as it takes, so it never wraps around, and no later marker
/// is ever equal to one that a waiter still holds.
///
/// The bytes are in base 256, the least significant one first and the most significant one not
/// zero.
#[derive(Debug)]
pub struct Marker {
    bytes: Vec<u8>,
}

/// The number that `bytes` stand for.
spec fn value(bytes: Seq<u8>) -> nat
    decreases bytes.len(),
{
    if bytes.len() == 0 {
        0
    } else {
        bytes[0] as nat + 256 * value(bytes.skip(1))
    }
}

/// There are no leading zeros, so each number is written in one way only.
spec fn canonical(bytes: Seq<u8>) -> bool {
    bytes.len() > 0 ==> bytes.last() != 0
}

impl View for Marker {
    type V = nat;

    closed spec fn view(&self) -> nat {
        value(self.bytes@)
    }
}

/// Adding one turns the leading run of `k` full bytes into zeros and increments the byte behind.
proof fn lemma_increment(before: Seq<u8>, after: Seq<u8>, k: int)
    requires
        0 <= k <= before.len(),
        forall|i: int| 0 <= i < k ==> before[i] == 255,
        forall|i: int| 0 <= i < k ==> after[i] == 0,
        k < before.len() ==> {
            &&& after.len() == before.len()
            &&& after[k] == before[k] + 1
            &&& forall|i: int| k < i < before.len() ==> after[i] == before[i]
        },
        k == before.len() ==> after.len() == k + 1 && after[k] == 1,
    ensures
        value(after) == value(before) + 1,
    decreases k,
{
    if k == 0 {
        if before.len() == 0 {
            assert(after.skip(1) =~= Seq::<u8>::empty());
            assert(value(after.skip(1)) == 0);
        } else {
            assert(after.skip(1) =~= before.skip(1));
        }
    } else {
        lemma_increment(before.skip(1), after.skip(1), k - 1);
    }
}

/// A number with no leading zeros and at least one digit is not zero.
proof fn lemma_positive(bytes: Seq<u8>)
    requires
        canonical(bytes),
        bytes.len() > 0,
    ensures
        value(bytes) > 0,
    decreases bytes.len(),
{
    if bytes.len() > 1 {
        assert(bytes.skip(1).last() == bytes.last());
        lemma_positive(bytes.skip(1));
    }
}

/// Different bytes stand for different numbers.
proof fn lemma_injective(a: Seq<u8>, b: Seq<u8>)
    requires
        canonical(a),
        canonical(b),
        value(a) == value(b),
    ensures
        a == b,
    decreases a.len(),
{
    if a.len() == 0 {
        if b.len() > 0 {
            lemma_positive(b);
        }
        assert(a =~= b);
    } else if b.len() == 0 {
        lemma_positive(a);
    } else {
        let a1 = a.skip(1);
        let b1 = b.skip(1);
        assert(a1.len() > 0 ==> a1.last() == a.last());
        assert(b1.len() > 0 ==> b1.last() == b.last());
        assert(a[0] == b[0] && value(a1) == value(b1));
        lemma_injective(a1, b1);
        assert(a =~= seq![a[0]] + a1);
        assert(b =~= seq![b[0]] + b1);
    }
}

impl Marker {
    #[verifier::type_invariant]
    spec fn no_leading_zeros(self) -> bool {
        canonical(self.bytes@)
    }

    /// The marker from before the first signal.
    pub fn new() -> (marker: Marker)
        ensures
            marker@ == 0,
    {
        Marker { bytes: Vec::new() }
    }

    /// The marker that takes this one's place when signals have been observed.
    pub fn successor(&self) -> (marker: Marker)
        ensures
            marker@ == self@ + 1,
    {
        proof {
            use_type_invariant(self);
        }
        let len: usize = self.bytes.len();
        let mut bytes: Vec<u8> = Vec::with_capacity(len);
        let mut k: usize = 0;
        while k < len && self.bytes[k] == 255
            invariant
                k <= len,
                len == self.bytes@.len(),
                bytes@.len() == k,
                forall|i: int| 0 <= i < k ==> self.bytes@[i] == 255,
                forall|i: int| 0 <= i < k ==> bytes@[i] == 0,
            decreases len - k,
        {
            bytes.push(0);
            k += 1;
        }
        if k == len {
            bytes.push(1);
        } else {
            bytes.push(self.bytes[k] + 1);
            let mut j: usize = k + 1;
            while j < len
                invariant
                    k < j <= len,
                    len == self.bytes@.len(),
                    bytes@.len() == j,
                    self.bytes@[k as int] != 255,
                    forall|i: int| 0 <= i < k ==> bytes@[i] == 0,
                    bytes@[k as int] == self.bytes@[k as int] + 1,
                    forall|i: int| k < i < j ==> bytes@[i] == self.bytes@[i],
                decreases len - j,
            {
                bytes.push(self.bytes[j]);
                j += 1;
            }
        }
        proof {
            lemma_increment(self.bytes@, bytes@, k as int);
        }
        Marker { bytes }
    }

    /// Whether no signal has been observed between this marker and `other`.
    pub fn same(&self, other: &Marker) -> (same: bool)
        ensures
            same == (self@ == other@),
    {
        proof {
            use_type_invariant(self);
            use_type_invariant(other);
            if self@ == other@ {
                lemma_injective(self.bytes@, other.bytes@);
            }
        }
        let len: usize = self.bytes.len();
        if len != other.bytes.len() {
            return false;
        }
        let mut i: usize = 0;
        while i < len
            invariant
                i <= len,
                len == self.bytes@.len(),
                len == other.bytes@.len(),
                self@ == other@ ==> self.bytes@ == other.bytes@,
                forall|j: int| 0 <= j < i ==> self.bytes@[j] == other.bytes@[j],
            decreases len - i,
        {
            if self.bytes[i] != other.bytes[i] {
                return false;
            }
            i += 1;
        }
        assert(self.bytes@ =~= other.bytes@);
        true
    }
}

impl Clone for Marker {
    fn clone(&self) -> (marker: Marker)
        ensures
            marker@ == self@,
    {
        proof {
            use_type_invariant(self);
        }
        let bytes: Vec<u8> = self.bytes.clone();
        assert(bytes@ =~= self.bytes@);
        Marker { bytes }
    }
}

} // verus!
