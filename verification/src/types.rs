//! Plain values shared by the escrow and the factory: account identifiers,
//! the asset rails, what the host tells an entry point, and the errors.

use vstd::prelude::*;
use crate::amount::U256;

verus! {

/// An opaque account identifier of the host ledger.
#[derive(Clone, Copy, Debug, PartialEq, Eq)]
pub struct Address {
    pub bytes: [u8; 32],
}

impl Address {
    /// Whether this is the null identifier, the one made of zero bytes.
    pub open spec fn is_null(&self) -> bool {
        forall|i: int| 0 <= i < 32 ==> self.bytes@[i] == 0
    }

    /// The null identifier, which stands where no token ledger is meant.
    pub open spec fn spec_null() -> Address {
        Address { bytes: vstd::array::spec_array_fill_for_copy_type::<u8, 32>(0u8) }
    }

    /// The null identifier, which stands where no token ledger is meant.
    #[verifier::when_used_as_spec(spec_null)]
    pub fn null() -> (a: Address)
        ensures
            a == Address::spec_null(),
            a.is_null(),
    {
        broadcast use vstd::array::axiom_spec_array_fill_for_copy_type;

        Address { bytes: [0u8;32] }
    }

    /// Whether two identifiers are the same account.
    pub fn same(&self, other: &Address) -> (equal: bool)
        ensures
            equal == (*self == *other),
    {
        let equal = crate::hash::bytes32_eq(&self.bytes, &other.bytes);
        proof {
            if equal {
                assert(self.bytes =~= other.bytes);
            }
        }
        equal
    }
}

/// There is only one null identifier.
pub proof fn lemma_null_is_unique(a: Address)
    ensures
        a.is_null() <==> a == Address::null(),
{
    broadcast use vstd::array::axiom_spec_array_fill_for_copy_type;

    if a.is_null() {
        assert(a.bytes =~= Address::null().bytes);
    }
}

/// The payment rail that backs an escrow.
#[derive(Clone, Copy, Debug, PartialEq, Eq, Structural)]
pub enum AssetKind {
    /// The host ledger's own balance.
    Native,
    /// An external fungible-token ledger.
    PSP22,
}

impl Default for AssetKind {
    fn default() -> (kind: AssetKind)
        ensures
            kind == AssetKind::Native,
    {
        AssetKind::Native
    }
}

impl AssetKind {
    /// The tag under which records and snapshots carry the rail.
    pub open spec fn spec_code(&self) -> u8 {
        match self {
            AssetKind::Native => 0,
            AssetKind::PSP22 => 1,
        }
    }

    /// The tag under which records and snapshots carry the rail:
    /// 0 for native, 1 for a token.
    pub fn code(&self) -> (tag: u8)
        ensures
            tag == self.spec_code(),
    {
        match self {
            AssetKind::Native => 0,
            AssetKind::PSP22 => 1,
        }
    }
}

/// What the host ledger tells an entry point about the call in progress.
#[derive(Clone, Copy, Debug, PartialEq, Eq)]
pub struct CallEnv {
    /// Who made the call.
    pub caller: Address,
    /// The native value attached to the call.
    pub transferred_value: U256,
    /// The current block height.
    pub block_number: u64,
}

/// Why a claim was turned down.
#[derive(Clone, Copy, Debug, PartialEq, Eq, Structural)]
pub enum ClaimError {
    AlreadyFinalized,
    Expired,
    BadSecret,
    NativeTransferFailed,
    PSP22TransferFailed,
}

/// Why a refund was turned down.
#[derive(Clone, Copy, Debug, PartialEq, Eq, Structural)]
pub enum RefundError {
    AlreadyFinalized,
    NotExpired,
    NativeTransferFailed,
    PSP22TransferFailed,
}

/// Why an escrow could not be created.
#[derive(Clone, Copy, Debug, PartialEq, Eq, Structural)]
pub enum CreateError {
    /// The resolver deposit is zero.
    DepositRequired,
    /// The value attached to a native escrow does not exceed the deposit.
    InsufficientValue,
    /// The value attached to a token escrow is not the deposit exactly.
    DepositMismatch,
    /// The token amount to lock is zero.
    ZeroAmount,
    /// The token ledger refused to move the principal into the escrow.
    PSP22TransferFailed,
}

} // verus!
