//! The escrow state machine: one agreement that is either claimed with the
//! secret before its deadline or refunded from the deadline on, once.
//!
//! `claim` and `refund` decide. Where they accept, they put the escrow
//! under a guard before any payment leaves, so that a call that comes in
//! while the payments are under way is turned down, and return the
//! settlement: the payments for the host to make, in order, and the
//! records to emit once all are made. `settle_claim` and `settle_refund`
//! take what became of the payments: they lift the guard, and set the
//! terminal flag where every payment was made.

use vstd::prelude::*;
use crate::amount::U256;
use crate::hash::{bytes32_eq, hash_keccak256, keccak256};
use crate::types::{Address, AssetKind, CallEnv, ClaimError, CreateError, RefundError};

verus! {

/// The call identifier of the token ledger's `transfer(to, amount, data)`.
pub const TRANSFER_SELECTOR: u32 = 0xBAF3_96F5;

/// One payment for the host to make out of the escrow's own holdings.
#[derive(Clone, Copy, Debug, PartialEq, Eq)]
pub enum Payment {
    /// Move `amount` of native value to `to`.
    Native { to: Address, amount: U256 },
    /// Call `selector` on the ledger `token`, as the escrow itself, with
    /// `to`, `amount` and empty data.
    PSP22 { token: Address, selector: u32, to: Address, amount: U256 },
}

impl Payment {
    /// The number of units that are paid.
    pub open spec fn value(&self) -> nat {
        match self {
            Payment::Native { amount, .. } => amount@,
            Payment::PSP22 { amount, .. } => amount@,
        }
    }
}

/// What became of the payments of a settlement.
#[derive(Clone, Copy, Debug, PartialEq, Eq, Structural)]
pub enum Paid {
    /// Every payment was made.
    All,
    /// The payment of the principal failed; no other was tried.
    PrincipalFailed,
    /// The principal was paid and the payment of the deposit failed.
    DepositFailed,
}

/// The guard of an escrow: which call, if any, has been accepted and
/// waits for its payments.
#[derive(Clone, Copy, Debug, PartialEq, Eq, Structural)]
pub enum Finalizing {
    /// No call is under way.
    Idle,
    /// A claim was accepted; its payments are under way.
    Claim,
    /// A refund was accepted; its payments are under way.
    Refund,
}

/// The record that discloses the secret of a claim.
#[derive(Clone, Copy, Debug, PartialEq, Eq)]
pub struct SecretRevealed {
    pub secret: [u8; 32],
}

/// The record of a claim that was settled.
#[derive(Clone, Copy, Debug, PartialEq, Eq)]
pub struct Claimed {
    pub account: Address,
    pub amount: U256,
    pub asset_kind: u8,
}

/// The record of a refund that was settled.
#[derive(Clone, Copy, Debug, PartialEq, Eq)]
pub struct Refunded {
    pub account: Address,
    pub amount: U256,
    pub asset_kind: u8,
}

/// What an accepted claim asks of the host: `principal`, then `deposit`
/// where there is one, then the two records.
#[derive(Clone, Copy, Debug, PartialEq, Eq)]
pub struct ClaimSettlement {
    pub principal: Payment,
    pub deposit: Option<Payment>,
    pub revealed: SecretRevealed,
    pub claimed: Claimed,
}

/// What an accepted refund asks of the host: `principal`, then `deposit`
/// where there is one, then the record.
#[derive(Clone, Copy, Debug, PartialEq, Eq)]
pub struct RefundSettlement {
    pub principal: Payment,
    pub deposit: Option<Payment>,
    pub refunded: Refunded,
}

/// A snapshot of an escrow, with the height at which it was taken.
#[derive(Clone, Copy, Debug, PartialEq, Eq)]
pub struct EscrowInfo {
    pub initiator: Address,
    pub beneficiary: Address,
    pub hashed_secret: [u8; 32],
    pub expiry: u64,
    pub locked_amount: U256,
    pub resolver_deposit: U256,
    pub claimed: bool,
    pub refunded: bool,
    pub now: u64,
    pub asset_kind: u8,
    pub psp22_token: Address,
}

/// One agreement: value locked for `beneficiary` under a hashed secret
/// until the height `expiry`, and for `initiator` from then on.
#[derive(Clone, Copy, Debug, PartialEq, Eq)]
pub struct HtlcEscrow {
    pub initiator: Address,
    pub beneficiary: Address,
    pub hashed_secret: [u8; 32],
    pub expiry: u64,
    pub locked_amount: U256,
    pub resolver_deposit: U256,
    pub claimed: bool,
    pub refunded: bool,
    pub asset_kind: AssetKind,
    pub psp22_token: Address,
    pub finalizing: Finalizing,
}

/// The first reason for which a native escrow cannot be created with
/// `value` attached and `deposit` as the resolver deposit, if there is one.
pub open spec fn native_terms_error(value: U256, deposit: U256) -> Option<CreateError> {
    if deposit@ == 0 {
        Some(CreateError::DepositRequired)
    } else if value@ <= deposit@ {
        Some(CreateError::InsufficientValue)
    } else {
        None
    }
}

/// The first reason for which a token escrow cannot be created with
/// `value` attached, `deposit` as the resolver deposit and `amount` of the
/// token to lock, if there is one.
pub open spec fn psp22_terms_error(value: U256, deposit: U256, amount: U256) -> Option<
    CreateError,
> {
    if deposit@ == 0 {
        Some(CreateError::DepositRequired)
    } else if value@ != deposit@ {
        Some(CreateError::DepositMismatch)
    } else if amount@ == 0 {
        Some(CreateError::ZeroAmount)
    } else {
        None
    }
}

/// The absolute deadline for an offset given at height `now`: their sum,
/// or the largest height where the sum would pass it.
pub open spec fn deadline(now: u64, offset: u64) -> u64 {
    if now + offset > u64::MAX {
        u64::MAX
    } else {
        (now + offset) as u64
    }
}

impl HtlcEscrow {
    /// Whether the escrow has reached one of its two terminal states.
    pub open spec fn finalized(&self) -> bool {
        self.claimed || self.refunded
    }

    /// Whether the escrow is open to a claim or a refund: it is not
    /// finalized and no accepted call waits for its payments.
    pub open spec fn active(&self) -> bool {
        !self.claimed && !self.refunded && self.finalizing is Idle
    }

    /// What holds of every escrow from its creation on: both amounts are
    /// positive, at most one terminal flag is set, a call is under way
    /// only on an escrow that is not finalized, and a native escrow names
    /// the null identifier as its token ledger.
    pub open spec fn wf(&self) -> bool {
        &&& self.locked_amount@ > 0
        &&& self.resolver_deposit@ > 0
        &&& !(self.claimed && self.refunded)
        &&& (self.finalized() ==> self.finalizing is Idle)
        &&& (self.asset_kind is Native ==> self.psp22_token == Address::null())
    }

    /// The payment of the principal to `to`, on the escrow's rail.
    pub open spec fn principal_payment(&self, to: Address) -> Payment {
        match self.asset_kind {
            AssetKind::Native => Payment::Native { to, amount: self.locked_amount },
            AssetKind::PSP22 => Payment::PSP22 {
                token: self.psp22_token,
                selector: TRANSFER_SELECTOR,
                to,
                amount: self.locked_amount,
            },
        }
    }

    /// The payment of the resolver deposit to `finisher`, where the deposit
    /// is not zero.
    pub open spec fn deposit_payment(&self, finisher: Address) -> Option<Payment> {
        if self.resolver_deposit@ > 0 {
            Some(Payment::Native { to: finisher, amount: self.resolver_deposit })
        } else {
            None
        }
    }

    /// Why a claim at height `now` with a secret of the given digest is
    /// turned down: the first of finalized (or under way to it), expired,
    /// wrong secret that holds, or `None` where the claim is accepted.
    pub open spec fn claim_rejection(&self, digest: Seq<u8>, now: u64) -> Option<ClaimError> {
        if !self.active() {
            Some(ClaimError::AlreadyFinalized)
        } else if now >= self.expiry {
            Some(ClaimError::Expired)
        } else if digest != self.hashed_secret@ {
            Some(ClaimError::BadSecret)
        } else {
            None
        }
    }

    /// Why a refund at height `now` is turned down: the first of finalized
    /// (or under way to it) and not yet expired that holds, or `None`
    /// where it is accepted.
    pub open spec fn refund_rejection(&self, now: u64) -> Option<RefundError> {
        if !self.active() {
            Some(RefundError::AlreadyFinalized)
        } else if now < self.expiry {
            Some(RefundError::NotExpired)
        } else {
            None
        }
    }

    /// What an accepted claim by `caller` with `secret` asks of the host.
    pub open spec fn claim_settlement(&self, secret: [u8; 32], caller: Address) -> ClaimSettlement {
        ClaimSettlement {
            principal: self.principal_payment(self.beneficiary),
            deposit: self.deposit_payment(caller),
            revealed: SecretRevealed { secret },
            claimed: Claimed {
                account: self.beneficiary,
                amount: self.locked_amount,
                asset_kind: self.asset_kind.spec_code(),
            },
        }
    }

    /// What an accepted refund called by `caller` asks of the host.
    pub open spec fn refund_settlement(&self, caller: Address) -> RefundSettlement {
        RefundSettlement {
            principal: self.principal_payment(self.initiator),
            deposit: self.deposit_payment(caller),
            refunded: Refunded {
                account: self.initiator,
                amount: self.locked_amount,
                asset_kind: self.asset_kind.spec_code(),
            },
        }
    }

    /// The escrow under the guard `guard`, with nothing else changed.
    pub open spec fn guarded(&self, guard: Finalizing) -> HtlcEscrow {
        HtlcEscrow { finalizing: guard, ..*self }
    }

    /// The escrow after a claim under way has been settled with `paid`:
    /// claimed where every payment was made, as before the claim where one
    /// failed. An escrow on which no claim is under way stays as it is.
    pub open spec fn after_claim_settled(&self, paid: Paid) -> HtlcEscrow {
        if !(self.finalizing is Claim) {
            *self
        } else if paid is All {
            HtlcEscrow { claimed: true, finalizing: Finalizing::Idle, ..*self }
        } else {
            self.guarded(Finalizing::Idle)
        }
    }

    /// The escrow after a refund under way has been settled with `paid`:
    /// refunded where every payment was made, as before the refund where
    /// one failed. An escrow on which no refund is under way stays as it
    /// is.
    pub open spec fn after_refund_settled(&self, paid: Paid) -> HtlcEscrow {
        if !(self.finalizing is Refund) {
            *self
        } else if paid is All {
            HtlcEscrow { refunded: true, finalizing: Finalizing::Idle, ..*self }
        } else {
            self.guarded(Finalizing::Idle)
        }
    }

    /// How a claim ends whose payments came out as `paid`: well where all
    /// were made, else with the error of the rail that failed, the
    /// escrow's own for the principal and the native one for the deposit.
    /// Where no claim is under way there is nothing to settle.
    pub open spec fn claim_outcome(&self, paid: Paid) -> Result<(), ClaimError> {
        if !(self.finalizing is Claim) {
            Err(ClaimError::AlreadyFinalized)
        } else {
            match paid {
                Paid::All => Ok(()),
                Paid::PrincipalFailed => Err(
                    match self.asset_kind {
                        AssetKind::Native => ClaimError::NativeTransferFailed,
                        AssetKind::PSP22 => ClaimError::PSP22TransferFailed,
                    },
                ),
                Paid::DepositFailed => Err(ClaimError::NativeTransferFailed),
            }
        }
    }

    /// How a refund ends whose payments came out as `paid`: well where all
    /// were made, else with the error of the rail that failed, the
    /// escrow's own for the principal and the native one for the deposit.
    /// Where no refund is under way there is nothing to settle.
    pub open spec fn refund_outcome(&self, paid: Paid) -> Result<(), RefundError> {
        if !(self.finalizing is Refund) {
            Err(RefundError::AlreadyFinalized)
        } else {
            match paid {
                Paid::All => Ok(()),
                Paid::PrincipalFailed => Err(
                    match self.asset_kind {
                        AssetKind::Native => RefundError::NativeTransferFailed,
                        AssetKind::PSP22 => RefundError::PSP22TransferFailed,
                    },
                ),
                Paid::DepositFailed => Err(RefundError::NativeTransferFailed),
            }
        }
    }

    /// Whether `secret` hashes to the commitment of the escrow.
    pub open spec fn accepts_secret(&self, secret: Seq<u8>) -> bool {
        keccak256(secret) == self.hashed_secret@
    }

    /// The snapshot of the escrow taken at height `now`.
    pub open spec fn info_at(&self, now: u64) -> EscrowInfo {
        EscrowInfo {
            initiator: self.initiator,
            beneficiary: self.beneficiary,
            hashed_secret: self.hashed_secret,
            expiry: self.expiry,
            locked_amount: self.locked_amount,
            resolver_deposit: self.resolver_deposit,
            claimed: self.claimed,
            refunded: self.refunded,
            now,
            asset_kind: self.asset_kind.spec_code(),
            psp22_token: self.psp22_token,
        }
    }

    /// Creates an escrow on the native rail. The caller becomes the
    /// initiator; the value attached, less the resolver deposit, is locked;
    /// `expiry` is an offset from the current height.
    ///
    /// Fails where the deposit is zero or the value attached does not
    /// exceed it.
    pub fn new_native(
        env: &CallEnv,
        beneficiary: Address,
        hashed_secret: [u8; 32],
        expiry: u64,
        resolver_deposit: U256,
    ) -> (created: Result<HtlcEscrow, CreateError>)
        ensures
            native_terms_error(env.transferred_value, resolver_deposit) matches Some(e)
                ==> created == Err::<HtlcEscrow, CreateError>(e),
            native_terms_error(env.transferred_value, resolver_deposit) is None ==> {
                &&& created is Ok
                &&& created->Ok_0.wf()
                &&& created->Ok_0.initiator == env.caller
                &&& created->Ok_0.beneficiary == beneficiary
                &&& created->Ok_0.hashed_secret == hashed_secret
                &&& created->Ok_0.expiry == deadline(env.block_number, expiry)
                &&& created->Ok_0.locked_amount@ == env.transferred_value@ - resolver_deposit@
                &&& created->Ok_0.resolver_deposit == resolver_deposit
                &&& !created->Ok_0.claimed
                &&& !created->Ok_0.refunded
                &&& created->Ok_0.asset_kind == AssetKind::Native
                &&& created->Ok_0.psp22_token == Address::null()
                &&& created->Ok_0.finalizing == Finalizing::Idle
            },
    {
        if resolver_deposit.is_zero() {
            return Err(CreateError::DepositRequired);
        }
        match env.transferred_value.checked_sub(resolver_deposit) {
            None => Err(CreateError::InsufficientValue),
            Some(locked_amount) => {
                if locked_amount.is_zero() {
                    return Err(CreateError::InsufficientValue);
                }
                Ok(
                    HtlcEscrow {
                        initiator: env.caller,
                        beneficiary,
                        hashed_secret,
                        expiry: env.block_number.saturating_add(expiry),
                        locked_amount,
                        resolver_deposit,
                        claimed: false,
                        refunded: false,
                        asset_kind: AssetKind::Native,
                        psp22_token: Address::null(),
                        finalizing: Finalizing::Idle,
                    },
                )
            },
        }
    }

    /// Creates an escrow on the token rail, for `amount` of the ledger
    /// `token`. The caller becomes the initiator and attaches the resolver
    /// deposit, no more and no less; the tokens are moved in by whoever
    /// asked for the escrow, in a step of its own.
    ///
    /// Fails where the deposit is zero, the value attached differs from it,
    /// or `amount` is zero.
    pub fn new_psp22(
        env: &CallEnv,
        token: Address,
        amount: U256,
        beneficiary: Address,
        hashed_secret: [u8; 32],
        expiry: u64,
        resolver_deposit: U256,
    ) -> (created: Result<HtlcEscrow, CreateError>)
        ensures
            psp22_terms_error(env.transferred_value, resolver_deposit, amount) matches Some(e)
                ==> created == Err::<HtlcEscrow, CreateError>(e),
            psp22_terms_error(env.transferred_value, resolver_deposit, amount) is None ==> created
                == Ok::<HtlcEscrow, CreateError>(
                HtlcEscrow {
                    initiator: env.caller,
                    beneficiary,
                    hashed_secret,
                    expiry: deadline(env.block_number, expiry),
                    locked_amount: amount,
                    resolver_deposit,
                    claimed: false,
                    refunded: false,
                    asset_kind: AssetKind::PSP22,
                    psp22_token: token,
                    finalizing: Finalizing::Idle,
                },
            ) && created->Ok_0.wf(),
    {
        if resolver_deposit.is_zero() {
            return Err(CreateError::DepositRequired);
        }
        if !env.transferred_value.same(&resolver_deposit) {
            return Err(CreateError::DepositMismatch);
        }
        if amount.is_zero() {
            return Err(CreateError::ZeroAmount);
        }
        Ok(
            HtlcEscrow {
                initiator: env.caller,
                beneficiary,
                hashed_secret,
                expiry: env.block_number.saturating_add(expiry),
                locked_amount: amount,
                resolver_deposit,
                claimed: false,
                refunded: false,
                asset_kind: AssetKind::PSP22,
                psp22_token: token,
                finalizing: Finalizing::Idle,
            },
        )
    }

    /// The current height, as the host reports it.
    pub fn now(&self, env: &CallEnv) -> (height: u64)
        ensures
            height == env.block_number,
    {
        env.block_number
    }

    /// The payment of `amount` of native value to `to`.
    pub fn pay_native(to: Address, amount: U256) -> (payment: Payment)
        ensures
            payment == (Payment::Native { to, amount }),
    {
        Payment::Native { to, amount }
    }

    /// The payment of `amount` to `to` on the ledger `token`: a call of
    /// its `transfer`, made as the escrow itself.
    pub fn pay_psp22(token: Address, to: Address, amount: U256) -> (payment: Payment)
        ensures
            payment == (Payment::PSP22 { token, selector: TRANSFER_SELECTOR, to, amount }),
    {
        Payment::PSP22 { token, selector: TRANSFER_SELECTOR, to, amount }
    }

    /// The payment of the principal to `to`, on the escrow's rail.
    pub fn pay_principal(&self, to: Address) -> (payment: Payment)
        ensures
            payment == self.principal_payment(to),
    {
        match self.asset_kind {
            AssetKind::Native => Self::pay_native(to, self.locked_amount),
            AssetKind::PSP22 => Self::pay_psp22(self.psp22_token, to, self.locked_amount),
        }
    }

    /// The payment of the resolver deposit to `finisher`, where the deposit
    /// is not zero.
    pub fn pay_deposit(&self, finisher: Address) -> (payment: Option<Payment>)
        ensures
            payment == self.deposit_payment(finisher),
    {
        if self.resolver_deposit.is_zero() {
            None
        } else {
            Some(Self::pay_native(finisher, self.resolver_deposit))
        }
    }

    /// Whether `digest` is the commitment that the escrow was created with.
    pub fn matches_commitment(&self, digest: &[u8; 32]) -> (ok: bool)
        ensures
            ok == (digest@ == self.hashed_secret@),
    {
        bytes32_eq(digest, &self.hashed_secret)
    }

    /// Whether `secret` is the preimage of the escrow's commitment: hashes
    /// it and compares byte for byte.
    pub fn verify_secret(&self, secret: [u8; 32]) -> (ok: bool)
        ensures
            ok == self.accepts_secret(secret@),
    {
        let digest = hash_keccak256(&secret);
        self.matches_commitment(&digest)
    }

    /// A snapshot of every field, with the current height. Changes nothing.
    pub fn get_info(&self, env: &CallEnv) -> (info: EscrowInfo)
        ensures
            info == self.info_at(env.block_number),
    {
        EscrowInfo {
            initiator: self.initiator,
            beneficiary: self.beneficiary,
            hashed_secret: self.hashed_secret,
            expiry: self.expiry,
            locked_amount: self.locked_amount,
            resolver_deposit: self.resolver_deposit,
            claimed: self.claimed,
            refunded: self.refunded,
            now: self.now(env),
            asset_kind: self.asset_kind.code(),
            psp22_token: self.psp22_token,
        }
    }

    /// Decides a claim of which the digest of the secret is already known.
    ///
    /// `digest` has to be the commitment hash of `secret`; `claim` computes
    /// it and calls this. The claim is turned down, and the escrow left as
    /// it was, for the first of these that holds: the escrow is finalized
    /// or a call on it is under way; the current height has reached the
    /// deadline; the digest is not the commitment. Otherwise the escrow
    /// comes under the guard of the claim, and the payments and records of
    /// the claim are returned.
    pub fn claim_with_digest(&mut self, env: &CallEnv, secret: [u8; 32], digest: &[u8; 32]) -> (r:
        Result<ClaimSettlement, ClaimError>)
        ensures
            old(self).claim_rejection(digest@, env.block_number) matches Some(e) ==> r == Err::<
                ClaimSettlement,
                ClaimError,
            >(e) && *final(self) == *old(self),
            old(self).claim_rejection(digest@, env.block_number) is None ==> r == Ok::<
                ClaimSettlement,
                ClaimError,
            >(old(self).claim_settlement(secret, env.caller)) && *final(self) == old(
                self,
            ).guarded(Finalizing::Claim),
            r is Ok <==> old(self).active() && env.block_number < old(self).expiry && digest@
                == old(self).hashed_secret@,
            old(self).wf() ==> final(self).wf(),
    {
        if self.claimed || self.refunded || !self.is_idle() {
            return Err(ClaimError::AlreadyFinalized);
        }
        if self.now(env) >= self.expiry {
            return Err(ClaimError::Expired);
        }
        if !self.matches_commitment(digest) {
            return Err(ClaimError::BadSecret);
        }
        let principal = self.pay_principal(self.beneficiary);
        let deposit = self.pay_deposit(env.caller);
        self.finalizing = Finalizing::Claim;
        Ok(
            ClaimSettlement {
                principal,
                deposit,
                revealed: SecretRevealed { secret },
                claimed: Claimed {
                    account: self.beneficiary,
                    amount: self.locked_amount,
                    asset_kind: self.asset_kind.code(),
                },
            },
        )
    }

    /// Claims the escrow with `secret`.
    ///
    /// Succeeds exactly where the escrow is active (not finalized, no call
    /// under way), the current height is below the deadline and `secret`
    /// hashes to the commitment; otherwise fails with the error of the
    /// first of the three that does not hold, in that order, and changes
    /// nothing. On success the escrow comes under the guard of the claim
    /// before any payment is made, and the settlement names the payments
    /// (the principal to the beneficiary, the deposit to the caller) and
    /// the records. `settle_claim` closes the claim.
    pub fn claim(&mut self, env: &CallEnv, secret: [u8; 32]) -> (r: Result<
        ClaimSettlement,
        ClaimError,
    >)
        ensures
            old(self).claim_rejection(keccak256(secret@), env.block_number) matches Some(e) ==> r
                == Err::<ClaimSettlement, ClaimError>(e) && *final(self) == *old(self),
            old(self).claim_rejection(keccak256(secret@), env.block_number) is None ==> r == Ok::<
                ClaimSettlement,
                ClaimError,
            >(old(self).claim_settlement(secret, env.caller)) && *final(self) == old(
                self,
            ).guarded(Finalizing::Claim),
            r is Ok <==> old(self).active() && env.block_number < old(self).expiry
                && old(self).accepts_secret(secret@),
            old(self).wf() ==> final(self).wf(),
    {
        let digest = hash_keccak256(&secret);
        self.claim_with_digest(env, secret, &digest)
    }

    /// Refunds the escrow to its initiator.
    ///
    /// Succeeds exactly where the escrow is active (not finalized, no call
    /// under way) and the current height has reached the deadline;
    /// otherwise fails with `AlreadyFinalized` or, for an active escrow,
    /// `NotExpired`, and changes nothing. On success the escrow comes
    /// under the guard of the refund before any payment is made, and the
    /// settlement names the payments (the principal to the initiator, the
    /// deposit to the caller) and the record. `settle_refund` closes the
    /// refund.
    pub fn refund(&mut self, env: &CallEnv) -> (r: Result<RefundSettlement, RefundError>)
        ensures
            old(self).refund_rejection(env.block_number) matches Some(e) ==> r == Err::<
                RefundSettlement,
                RefundError,
            >(e) && *final(self) == *old(self),
            old(self).refund_rejection(env.block_number) is None ==> r == Ok::<
                RefundSettlement,
                RefundError,
            >(old(self).refund_settlement(env.caller)) && *final(self) == old(self).guarded(
                Finalizing::Refund,
            ),
            r is Ok <==> old(self).active() && env.block_number >= old(self).expiry,
            old(self).wf() ==> final(self).wf(),
    {
        if self.claimed || self.refunded || !self.is_idle() {
            return Err(RefundError::AlreadyFinalized);
        }
        if self.now(env) < self.expiry {
            return Err(RefundError::NotExpired);
        }
        let principal = self.pay_principal(self.initiator);
        let deposit = self.pay_deposit(env.caller);
        self.finalizing = Finalizing::Refund;
        Ok(
            RefundSettlement {
                principal,
                deposit,
                refunded: Refunded {
                    account: self.initiator,
                    amount: self.locked_amount,
                    asset_kind: self.asset_kind.code(),
                },
            },
        )
    }

    /// Whether no accepted call waits for its payments.
    pub fn is_idle(&self) -> (idle: bool)
        ensures
            idle == (self.finalizing is Idle),
    {
        match self.finalizing {
            Finalizing::Idle => true,
            _ => false,
        }
    }

    /// Closes an accepted claim once the host has tried its payments.
    ///
    /// Where all were made the escrow is claimed, for good. Where one
    /// failed the claim did not happen: the escrow is as it was before,
    /// and the error names the rail that failed, the escrow's own for the
    /// principal and the native one for the deposit. Either way the guard
    /// is lifted. On an escrow on which no claim is under way nothing
    /// changes, and the result is `AlreadyFinalized`.
    pub fn settle_claim(&mut self, paid: Paid) -> (r: Result<(), ClaimError>)
        ensures
            r == old(self).claim_outcome(paid),
            *final(self) == old(self).after_claim_settled(paid),
            old(self).wf() ==> final(self).wf(),
    {
        match self.finalizing {
            Finalizing::Claim => {},
            _ => {
                return Err(ClaimError::AlreadyFinalized);
            },
        }
        self.finalizing = Finalizing::Idle;
        match paid {
            Paid::All => {
                self.claimed = true;
                Ok(())
            },
            Paid::PrincipalFailed => match self.asset_kind {
                AssetKind::Native => Err(ClaimError::NativeTransferFailed),
                AssetKind::PSP22 => Err(ClaimError::PSP22TransferFailed),
            },
            Paid::DepositFailed => Err(ClaimError::NativeTransferFailed),
        }
    }

    /// Closes an accepted refund once the host has tried its payments.
    ///
    /// Where all were made the escrow is refunded, for good. Where one
    /// failed the refund did not happen: the escrow is as it was before,
    /// and the error names the rail that failed, the escrow's own for the
    /// principal and the native one for the deposit. Either way the guard
    /// is lifted. On an escrow on which no refund is under way nothing
    /// changes, and the result is `AlreadyFinalized`.
    pub fn settle_refund(&mut self, paid: Paid) -> (r: Result<(), RefundError>)
        ensures
            r == old(self).refund_outcome(paid),
            *final(self) == old(self).after_refund_settled(paid),
            old(self).wf() ==> final(self).wf(),
    {
        match self.finalizing {
            Finalizing::Refund => {},
            _ => {
                return Err(RefundError::AlreadyFinalized);
            },
        }
        self.finalizing = Finalizing::Idle;
        match paid {
            Paid::All => {
                self.refunded = true;
                Ok(())
            },
            Paid::PrincipalFailed => match self.asset_kind {
                AssetKind::Native => Err(RefundError::NativeTransferFailed),
                AssetKind::PSP22 => Err(RefundError::PSP22TransferFailed),
            },
            Paid::DepositFailed => Err(RefundError::NativeTransferFailed),
        }
    }
}

/// Finalized is terminal. An escrow that is claimed or refunded turns down
/// every claim and every refund as already finalized, whatever the secret
/// and the height, and no settlement changes it; a call that is turned
/// down returns no settlement, so that no payment follows from it.
pub proof fn lemma_finalized_is_terminal(
    escrow: HtlcEscrow,
    digest: Seq<u8>,
    now: u64,
    paid: Paid,
)
    requires
        escrow.wf(),
        escrow.finalized(),
    ensures
        escrow.claim_rejection(digest, now) == Some(ClaimError::AlreadyFinalized),
        escrow.refund_rejection(now) == Some(RefundError::AlreadyFinalized),
        escrow.after_claim_settled(paid) == escrow,
        escrow.after_refund_settled(paid) == escrow,
{
}

/// Mutual exclusion. A claim or a refund that was accepted and fully paid
/// finalizes the escrow, with one terminal flag set and nothing else
/// changed, and every claim and every refund after it is turned down as
/// already finalized, whatever the secret and the height.
pub proof fn lemma_settled_call_excludes_later_calls(
    escrow: HtlcEscrow,
    digest: Seq<u8>,
    now: u64,
    later_digest: Seq<u8>,
    later: u64,
)
    requires
        escrow.wf(),
    ensures
        escrow.claim_rejection(digest, now) is None ==> {
            let done = escrow.guarded(Finalizing::Claim).after_claim_settled(Paid::All);
            &&& done == (HtlcEscrow { claimed: true, ..escrow })
            &&& done.wf()
            &&& done.claim_rejection(later_digest, later) == Some(ClaimError::AlreadyFinalized)
            &&& done.refund_rejection(later) == Some(RefundError::AlreadyFinalized)
        },
        escrow.refund_rejection(now) is None ==> {
            let done = escrow.guarded(Finalizing::Refund).after_refund_settled(Paid::All);
            &&& done == (HtlcEscrow { refunded: true, ..escrow })
            &&& done.wf()
            &&& done.claim_rejection(later_digest, later) == Some(ClaimError::AlreadyFinalized)
            &&& done.refund_rejection(later) == Some(RefundError::AlreadyFinalized)
        },
{
}

/// While the payments of an accepted call are under way, the escrow turns
/// down every claim and every refund, so that a call that comes back in
/// from a payment cannot settle the escrow a second time.
pub proof fn lemma_guard_rejects_reentry(
    escrow: HtlcEscrow,
    guard: Finalizing,
    digest: Seq<u8>,
    now: u64,
)
    requires
        !(guard is Idle),
    ensures
        escrow.guarded(guard).claim_rejection(digest, now) == Some(ClaimError::AlreadyFinalized),
        escrow.guarded(guard).refund_rejection(now) == Some(RefundError::AlreadyFinalized),
{
}

/// At any height an active escrow accepts a claim with the right secret
/// or a refund, never both: before the deadline only the claim, from the
/// deadline on only the refund.
pub proof fn lemma_claim_and_refund_exclude(escrow: HtlcEscrow, digest: Seq<u8>, now: u64)
    ensures
        !(escrow.claim_rejection(digest, now) is None && escrow.refund_rejection(now) is None),
        escrow.active() && digest == escrow.hashed_secret@ ==> (escrow.claim_rejection(
            digest,
            now,
        ) is None || escrow.refund_rejection(now) is None),
{
}

/// A claim or a refund that was accepted and whose payments then failed
/// leaves the escrow exactly as it was before the call.
pub proof fn lemma_failed_settlement_restores(
    escrow: HtlcEscrow,
    digest: Seq<u8>,
    now: u64,
    paid: Paid,
)
    requires
        !(paid is All),
    ensures
        escrow.claim_rejection(digest, now) is None ==> escrow.guarded(
            Finalizing::Claim,
        ).after_claim_settled(paid) == escrow,
        escrow.refund_rejection(now) is None ==> escrow.guarded(
            Finalizing::Refund,
        ).after_refund_settled(paid) == escrow,
{
}

/// Conservation on the native rail. An escrow created with the value
/// `value` attached and a deposit below it pays, when it is claimed or
/// refunded, the value less the deposit to the counterparty and the
/// deposit to the finisher, both as native value: together the whole of
/// `value`, so that nothing of it stays in the escrow.
pub proof fn lemma_native_conservation(
    escrow: HtlcEscrow,
    value: U256,
    secret: [u8; 32],
    finisher: Address,
)
    requires
        escrow.asset_kind is Native,
        escrow.resolver_deposit@ > 0,
        value@ > escrow.resolver_deposit@,
        escrow.locked_amount@ == value@ - escrow.resolver_deposit@,
    ensures
        ({
            let claim = escrow.claim_settlement(secret, finisher);
            &&& claim.principal == (Payment::Native {
                to: escrow.beneficiary,
                amount: escrow.locked_amount,
            })
            &&& claim.principal.value() == value@ - escrow.resolver_deposit@
            &&& claim.deposit == Some(
                Payment::Native { to: finisher, amount: escrow.resolver_deposit },
            )
            &&& value@ - claim.principal.value() - claim.deposit->0.value() == 0
        }),
        ({
            let refund = escrow.refund_settlement(finisher);
            &&& refund.principal == (Payment::Native {
                to: escrow.initiator,
                amount: escrow.locked_amount,
            })
            &&& refund.principal.value() == value@ - escrow.resolver_deposit@
            &&& refund.deposit == Some(
                Payment::Native { to: finisher, amount: escrow.resolver_deposit },
            )
            &&& value@ - refund.principal.value() - refund.deposit->0.value() == 0
        }),
{
}

/// Two snapshots of one escrow differ in nothing but the height at which
/// they were taken.
pub proof fn lemma_info_differs_in_height_only(escrow: HtlcEscrow, first: u64, second: u64)
    ensures
        (EscrowInfo { now: second, ..escrow.info_at(first) }) == escrow.info_at(second),
{
}

/// A secret that hashes to the commitment is accepted, and another one is
/// accepted only where it hashes to the same digest.
pub proof fn lemma_secret_round_trip(escrow: HtlcEscrow, secret: Seq<u8>, other: Seq<u8>)
    requires
        keccak256(secret) == escrow.hashed_secret@,
    ensures
        escrow.accepts_secret(secret),
        escrow.accepts_secret(other) <==> keccak256(other) == keccak256(secret),
        forall|now: u64|
            escrow.active() && now < escrow.expiry ==> (escrow.claim_rejection(
                keccak256(other),
                now,
            ) is None <==> keccak256(other) == keccak256(secret)),
{
}

} // verus!
