//! The 32-byte identity of an account, a player or a program.

use vstd::prelude::*;
use vstd::std_specs::cmp::PartialEqSpecImpl;
use crate::bytes::zeros;

verus! {

/// Number of bytes in an identity.
pub const PUBKEY_BYTES: usize = 32;

/// An identity of `PUBKEY_BYTES` bytes. Identities can be copied and compared
/// and mean nothing else; two are the same exactly when all their bytes are.
#[derive(Clone, Copy, Debug, Eq)]
pub struct Pubkey {
    pub bytes: [u8; 32],
}

impl View for Pubkey {
    type V = Seq<u8>;

    open spec fn view(&self) -> Seq<u8> {
        self.bytes@
    }
}

impl PartialEq for Pubkey {
    fn eq(&self, other: &Self) -> (r: bool) {
        let mut i: usize = 0;
        while i < PUBKEY_BYTES
            invariant
                i <= PUBKEY_BYTES,
                forall|k: int| 0 <= k < i ==> self.bytes[k] == other.bytes[k],
            decreases PUBKEY_BYTES - i,
        {
            if self.bytes[i] != other.bytes[i] {
                return false;
            }
            i += 1;
        }
        assert(self.bytes =~= other.bytes);
        true
    }
}

impl PartialEqSpecImpl for Pubkey {
    open spec fn obeys_eq_spec() -> bool {
        true
    }

    open spec fn eq_spec(&self, other: &Self) -> bool {
        *self == *other
    }
}

impl Default for Pubkey {
    /// The identity whose bytes are all zero.
    fn default() -> (key: Self)
        ensures
            key@ == zeros(PUBKEY_BYTES as nat),
    {
        let key = Pubkey { bytes: [0u8; 32] };
        assert(key@ =~= zeros(PUBKEY_BYTES as nat));
        key
    }
}

impl Pubkey {
    /// The identity made of the first `PUBKEY_BYTES` bytes of `s`.
    pub open spec fn of(s: Seq<u8>) -> Pubkey
        recommends
            s.len() >= PUBKEY_BYTES,
    {
        Pubkey {
            bytes: [
                s[0], s[1], s[2], s[3], s[4], s[5], s[6], s[7],
                s[8], s[9], s[10], s[11], s[12], s[13], s[14], s[15],
                s[16], s[17], s[18], s[19], s[20], s[21], s[22], s[23],
                s[24], s[25], s[26], s[27], s[28], s[29], s[30], s[31],
            ],
        }
    }

    /// An identity has `PUBKEY_BYTES` bytes and is the identity made of them,
    /// so identities with the same bytes are the same.
    pub proof fn lemma_of_view(self)
        ensures
            self@.len() == PUBKEY_BYTES,
            Pubkey::of(self@) == self,
    {
        assert(Pubkey::of(self@).bytes =~= self.bytes);
    }

    /// The identity made of `PUBKEY_BYTES` bytes has those bytes.
    pub proof fn lemma_view_of(s: Seq<u8>)
        requires
            s.len() == PUBKEY_BYTES,
        ensures
            Pubkey::of(s)@ == s,
    {
        assert(Pubkey::of(s)@ =~= s);
    }

    /// The identity with these bytes.
    pub fn new_from_array(bytes: [u8; 32]) -> (key: Pubkey)
        ensures
            key.bytes == bytes,
    {
        Pubkey { bytes }
    }

    /// The bytes of the identity.
    pub fn to_bytes(self) -> (bytes: [u8; 32])
        ensures
            bytes == self.bytes,
    {
        self.bytes
    }

    /// Reads the identity held in the `PUBKEY_BYTES` bytes of `input` from `at`.
    pub fn read(input: &[u8], at: usize) -> (key: Pubkey)
        requires
            at + PUBKEY_BYTES <= input.len(),
        ensures
            key == Pubkey::of(input@.subrange(at as int, at + PUBKEY_BYTES)),
    {
        let mut bytes = [0u8; 32];
        let mut i: usize = 0;
        while i < PUBKEY_BYTES
            invariant
                i <= PUBKEY_BYTES,
                at + PUBKEY_BYTES <= input.len(),
                forall|k: int| 0 <= k < i ==> bytes[k] == input[at + k],
            decreases PUBKEY_BYTES - i,
        {
            bytes[i] = input[at + i];
            i += 1;
        }
        assert(bytes =~= Pubkey::of(input@.subrange(at as int, at + PUBKEY_BYTES)).bytes);
        Pubkey { bytes }
    }

    /// Appends the bytes of the identity to `out`.
    pub fn write(&self, out: &mut Vec<u8>)
        ensures
            final(out)@ == old(out)@ + self@,
    {
        let mut i: usize = 0;
        while i < PUBKEY_BYTES
            invariant
                i <= PUBKEY_BYTES,
                out@ == old(out)@ + self@.subrange(0, i as int),
            decreases PUBKEY_BYTES - i,
        {
            out.push(self.bytes[i]);
            i += 1;
            assert(out@ =~= old(out)@ + self@.subrange(0, i as int));
        }
        assert(self@.subrange(0, PUBKEY_BYTES as int) =~= self@);
    }
}

} // verus!
