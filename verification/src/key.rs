//! Account addresses as the game rules see them: 32 bytes compared for equality.
use vstd::prelude::*;

verus! {

#[derive(Clone, Copy, Debug)]
pub struct Key {
    pub bytes: [u8; 32],
}

impl View for Key {
    type V = Seq<u8>;

    open spec fn view(&self) -> Seq<u8> {
        self.bytes@
    }
}

/// Whether every byte of `s` is zero.
pub open spec fn all_zero(s: Seq<u8>) -> bool {
    forall|i: int| 0 <= i < s.len() ==> s[i] == 0
}

/// Whether every byte of `bytes` is zero.
pub fn bytes_all_zero(bytes: &[u8]) -> (r: bool)
    ensures
        r == all_zero(bytes@),
{
    let mut i: usize = 0;
    while i < bytes.len()
        invariant
            i <= bytes@.len(),
            forall|j: int| 0 <= j < i ==> bytes@[j] == 0,
        decreases bytes@.len() - i,
    {
        if bytes[i] != 0 {
            return false;
        }
        i = i + 1;
    }
    true
}

/// Whether two byte strings are equal.
pub fn bytes_equal(a: &[u8], b: &[u8]) -> (r: bool)
    ensures
        r == (a@ == b@),
{
    if a.len() != b.len() {
        return false;
    }
    let mut i: usize = 0;
    while i < a.len()
        invariant
            i <= a@.len(),
            a@.len() == b@.len(),
            forall|j: int| 0 <= j < i ==> a@[j] == b@[j],
        decreases a@.len() - i,
    {
        if a[i] != b[i] {
            return false;
        }
        i = i + 1;
    }
    assert(a@ =~= b@);
    true
}

impl Key {
    /// The key made of the given bytes.
    pub fn new(bytes: [u8; 32]) -> (k: Key)
        ensures
            k@ == bytes@,
    {
        Key { bytes }
    }

    /// The all-zero key, which stands for "no account".
    pub fn zero() -> (k: Key)
        ensures
            all_zero(k@),
            k@.len() == 32,
    {
        let k = Key { bytes: [0u8; 32] };
        assert(all_zero(k@));
        k
    }

    /// Whether this key and `other` name the same account.
    pub fn same_as(&self, other: &Key) -> (r: bool)
        ensures
            r == (self@ == other@),
    {
        bytes_equal(vstd::array::array_as_slice(&self.bytes), vstd::array::array_as_slice(&other.bytes))
    }

    /// Whether this is the all-zero key.
    pub fn is_zero(&self) -> (r: bool)
        ensures
            r == all_zero(self@),
    {
        bytes_all_zero(vstd::array::array_as_slice(&self.bytes))
    }
}

} // verus!
