//! Account addresses.
use vstd::prelude::*;

verus! {

/// The address of an account or a program: 32 raw bytes.
#[derive(Clone, Copy, Debug, Eq, Hash)]
pub struct Pubkey {
    pub bytes: [u8; 32],
}

impl View for Pubkey {
    type V = Seq<u8>;

    /// An address is modelled by its bytes.
    open spec fn view(&self) -> Seq<u8> {
        self.bytes@
    }
}

impl PartialEq for Pubkey {
    /// Byte-wise comparison.
    fn eq(&self, other: &Self) -> (r: bool) {
        let mut i: usize = 0;
        while i < 32
            invariant
                i <= 32,
                forall|j: int| 0 <= j < i ==> self.bytes[j] == other.bytes[j],
            decreases 32 - i,
        {
            if self.bytes[i] != other.bytes[i] {
                return false;
            }
            i += 1;
        }
        proof {
            lemma_same_bytes(*self, *other);
        }
        true
    }
}

impl vstd::std_specs::cmp::PartialEqSpecImpl for Pubkey {
    open spec fn obeys_eq_spec() -> bool {
        true
    }

    open spec fn eq_spec(&self, other: &Self) -> bool {
        self@ == other@
    }
}

impl Pubkey {
    /// The address with the given bytes.
    pub fn new_from_array(bytes: [u8; 32]) -> (key: Pubkey)
        ensures
            key@ == bytes@,
            key.bytes == bytes,
    {
        Pubkey { bytes }
    }

    /// The bytes of the address.
    pub fn to_bytes(&self) -> (bytes: [u8; 32])
        ensures
            bytes@ == self@,
            bytes == self.bytes,
    {
        self.bytes
    }
}

/// Two addresses with the same bytes are one address.
pub proof fn lemma_same_bytes(a: Pubkey, b: Pubkey)
    requires
        forall|j: int| 0 <= j < 32 ==> a.bytes[j] == b.bytes[j],
    ensures
        a == b,
        a@ == b@,
{
    assert(a.bytes =~= b.bytes);
}

/// Mainnet address of the Quay program
/// (`QUayE6nexQWYNZAEqfN8FxoNwQDSu3CAzT2qq9J1ArG`).
///
/// It serves label resolution only: an adapter takes the live program id from
/// the owner of its strategy account, so other deployments resolve on their own.
pub const QUAY_PROGRAM_ID: [u8; 32] = [
    0x06, 0x03, 0x8c, 0xc2, 0x0d, 0x0b, 0xad, 0xb3, 0xe1, 0x41, 0xb5, 0x59, 0xdd, 0x34, 0x82, 0x78,
    0x35, 0x23, 0xf0, 0x9d, 0x84, 0x4b, 0xd7, 0x33, 0x3a, 0xc9, 0x20, 0xf8, 0xd0, 0x16, 0x31, 0x7d,
];

/// Mainnet address of the Jupiter aggregator program
/// (`JUP6LkbZbjS1jKKwapdHNy74zcZ3tLUZoi5QNyVTaV4`), the top-level program that a
/// routed swap executes under.
pub const JUPITER_ROUTER_ID: [u8; 32] = [
    0x04, 0x79, 0xd5, 0x5b, 0xf2, 0x31, 0xc0, 0x6e, 0xee, 0x74, 0xc5, 0x6e, 0xce, 0x68, 0x15, 0x07,
    0xfd, 0xb1, 0xb2, 0xde, 0xa3, 0xf4, 0x8e, 0x51, 0x02, 0xb1, 0xcd, 0xa2, 0x56, 0xbc, 0x13, 0x8f,
];

/// Address of the SPL Token program
/// (`TokenkegQfeZyiNwAJbNbGKPFXCWuBvf9Ss623VQ5DA`).
pub const SPL_TOKEN_PROGRAM_ID: [u8; 32] = [
    0x06, 0xdd, 0xf6, 0xe1, 0xd7, 0x65, 0xa1, 0x93, 0xd9, 0xcb, 0xe1, 0x46, 0xce, 0xeb, 0x79, 0xac,
    0x1c, 0xb4, 0x85, 0xed, 0x5f, 0x5b, 0x37, 0x91, 0x3a, 0x8c, 0xf5, 0x85, 0x7e, 0xff, 0x00, 0xa9,
];

} // verus!
