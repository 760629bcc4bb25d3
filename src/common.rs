//! Values shared by the three subsystems: account keys, bounded text and
//! the outcome of a delegated asset transfer.
use vstd::prelude::*;
use vstd::utf8::encode_utf8;

verus! {

/// A 32-byte account address or signer identity.
#[derive(Clone, Copy, Debug)]
pub struct Key {
    pub bytes: [u8; 32],
}

impl PartialEq for Key {
    fn eq(&self, other: &Key) -> (r: bool) {
        let mut i: usize = 0;
        while i < 32
            invariant
                0 <= i <= 32,
                forall|j: int| 0 <= j < i ==> self.bytes@[j] == other.bytes@[j],
            decreases 32 - i,
        {
            if self.bytes[i] != other.bytes[i] {
                proof {
                    assert(self.bytes@[i as int] != other.bytes@[i as int]);
                }
                return false;
            }
            i = i + 1;
        }
        proof {
            assert(self.bytes =~= other.bytes);
        }
        true
    }
}

impl vstd::std_specs::cmp::PartialEqSpecImpl for Key {
    open spec fn obeys_eq_spec() -> bool {
        true
    }

    open spec fn eq_spec(&self, other: &Key) -> bool {
        *self == *other
    }
}

/// Length in bytes of the UTF-8 encoding of `s` (the length that `str::len`
/// reports; a string held in memory always has a length that fits a `usize`).
pub open spec fn byte_len(s: String) -> usize {
    encode_utf8(s@).len() as usize
}

/// Whether `s` is at most `max` bytes long.
pub fn fits(s: &String, max: usize) -> (r: bool)
    ensures
        r == (byte_len(*s) <= max),
{
    s.as_str().len() <= max
}

/// Why the asset-transfer service refused a mint, burn or transfer; the
/// code is the one the service reported, carried through unchanged.
#[derive(Clone, Copy, Debug, PartialEq, Eq, Structural)]
pub struct TransferFailure {
    pub code: u64,
}

/// The first failure among two asset transfers that must both succeed.
pub open spec fn first_failure(
    a: Result<(), TransferFailure>,
    b: Result<(), TransferFailure>,
) -> Option<TransferFailure> {
    match a {
        Err(f) => Some(f),
        Ok(_) => match b {
            Err(f) => Some(f),
            Ok(_) => None,
        },
    }
}

} // verus!
