//! The factory: it holds the template of the escrow and turns a request
//! for a new escrow into what the host has to do, an instantiation and,
//! for a token escrow, a pull of the principal into the new account.
//!
//! The host derives the address of the new escrow from the instantiation
//! that it is handed; the factory decides what that instantiation holds.

use vstd::prelude::*;
use crate::amount::U256;
use crate::escrow::{native_terms_error, psp22_terms_error, Finalizing, HtlcEscrow};
use crate::types::{Address, CallEnv, CreateError};

verus! {

/// The call identifier of the token ledger's
/// `transfer_from(from, to, amount, data)`.
pub const TRANSFER_FROM_SELECTOR: u32 = 0x54B3_C76F;

/// The constructor of the escrow to run, with its arguments.
#[derive(Clone, Copy, Debug, PartialEq, Eq)]
pub enum Constructor {
    NewNative {
        beneficiary: Address,
        hashed_secret: [u8; 32],
        expiry: u64,
        resolver_deposit: U256,
    },
    NewPsp22 {
        token: Address,
        amount: U256,
        beneficiary: Address,
        hashed_secret: [u8; 32],
        expiry: u64,
        resolver_deposit: U256,
    },
}

/// A request to the host to instantiate an escrow: the template, the
/// native value that the new account starts with, the salt that makes its
/// address predictable, and the constructor call.
#[derive(Clone, Copy, Debug, PartialEq, Eq)]
pub struct Instantiation {
    pub code_hash: [u8; 32],
    pub endowment: U256,
    pub salt: Option<[u8; 32]>,
    pub constructor: Constructor,
}

/// A call of `transfer_from` on a token ledger, made as the factory: it
/// moves `amount` from `from`, who has approved the factory, to `to`.
#[derive(Clone, Copy, Debug, PartialEq, Eq)]
pub struct TokenPull {
    pub token: Address,
    pub selector: u32,
    pub from: Address,
    pub to: Address,
    pub amount: U256,
}

/// The record of an escrow that was created.
#[derive(Clone, Copy, Debug, PartialEq, Eq)]
pub struct EscrowCreated {
    pub escrow: Address,
    pub beneficiary: Address,
    pub expiry: u64,
    pub locked_amount: U256,
    pub resolver_deposit: U256,
    pub hashed_secret: [u8; 32],
    pub is_psp22: bool,
    pub psp22_token: Address,
}

/// A creation that the factory has accepted: the instantiation to ask of
/// the host and the principal that the escrow will hold.
#[derive(Clone, Copy, Debug, PartialEq, Eq)]
pub struct Creation {
    pub instantiation: Instantiation,
    pub locked_amount: U256,
}

/// Instantiates escrows from one template.
#[derive(Clone, Copy, Debug, PartialEq, Eq)]
pub struct HtlcFactory {
    pub escrow_code_hash: [u8; 32],
}

impl Constructor {
    /// The beneficiary that the constructor is given.
    pub open spec fn beneficiary(&self) -> Address {
        match self {
            Constructor::NewNative { beneficiary, .. } => *beneficiary,
            Constructor::NewPsp22 { beneficiary, .. } => *beneficiary,
        }
    }

    /// The commitment that the constructor is given.
    pub open spec fn hashed_secret(&self) -> [u8; 32] {
        match self {
            Constructor::NewNative { hashed_secret, .. } => *hashed_secret,
            Constructor::NewPsp22 { hashed_secret, .. } => *hashed_secret,
        }
    }

    /// The offset of the deadline that the constructor is given.
    pub open spec fn expiry(&self) -> u64 {
        match self {
            Constructor::NewNative { expiry, .. } => *expiry,
            Constructor::NewPsp22 { expiry, .. } => *expiry,
        }
    }

    /// The resolver deposit that the constructor is given.
    pub open spec fn resolver_deposit(&self) -> U256 {
        match self {
            Constructor::NewNative { resolver_deposit, .. } => *resolver_deposit,
            Constructor::NewPsp22 { resolver_deposit, .. } => *resolver_deposit,
        }
    }
}

impl Creation {
    /// The pull of the principal that follows the instantiation of a token
    /// escrow at `escrow`, out of the account of `caller`; a native escrow
    /// has none.
    pub open spec fn spec_funding(&self, caller: Address, escrow: Address) -> Option<TokenPull> {
        match self.instantiation.constructor {
            Constructor::NewNative { .. } => None,
            Constructor::NewPsp22 { token, amount, .. } => Some(
                TokenPull {
                    token,
                    selector: TRANSFER_FROM_SELECTOR,
                    from: caller,
                    to: escrow,
                    amount,
                },
            ),
        }
    }

    /// The record of this creation, for an escrow that stands at `escrow`.
    pub open spec fn record(&self, escrow: Address) -> EscrowCreated {
        EscrowCreated {
            escrow,
            beneficiary: self.instantiation.constructor.beneficiary(),
            expiry: self.instantiation.constructor.expiry(),
            locked_amount: self.locked_amount,
            resolver_deposit: self.instantiation.constructor.resolver_deposit(),
            hashed_secret: self.instantiation.constructor.hashed_secret(),
            is_psp22: self.instantiation.constructor is NewPsp22,
            psp22_token: match self.instantiation.constructor {
                Constructor::NewNative { .. } => Address::null(),
                Constructor::NewPsp22 { token, .. } => token,
            },
        }
    }

    /// The call that moves the principal of a token escrow in, once the
    /// host has instantiated it at `escrow`: out of the account of
    /// `caller`, who asked for the creation. A native escrow needs none.
    pub fn funding(&self, caller: Address, escrow: Address) -> (pull: Option<TokenPull>)
        ensures
            pull == self.spec_funding(caller, escrow),
    {
        match self.instantiation.constructor {
            Constructor::NewNative { .. } => None,
            Constructor::NewPsp22 { token, amount, .. } => Some(
                TokenPull {
                    token,
                    selector: TRANSFER_FROM_SELECTOR,
                    from: caller,
                    to: escrow,
                    amount,
                },
            ),
        }
    }

    /// Closes the creation once the host has instantiated the escrow at
    /// `escrow` and, for a token escrow, tried the pull of the principal:
    /// `pulled` says whether that call succeeded.
    ///
    /// A token escrow whose principal did not arrive must not stay: the
    /// result is then `PSP22TransferFailed`, on which the host undoes the
    /// whole creation. Otherwise the result is the record to emit.
    pub fn conclude(&self, escrow: Address, pulled: bool) -> (r: Result<
        EscrowCreated,
        CreateError,
    >)
        ensures
            self.instantiation.constructor is NewPsp22 && !pulled ==> r == Err::<
                EscrowCreated,
                CreateError,
            >(CreateError::PSP22TransferFailed),
            self.instantiation.constructor is NewNative || pulled ==> r == Ok::<
                EscrowCreated,
                CreateError,
            >(self.record(escrow)),
    {
        match self.instantiation.constructor {
            Constructor::NewNative { beneficiary, hashed_secret, expiry, resolver_deposit } => Ok(
                EscrowCreated {
                    escrow,
                    beneficiary,
                    expiry,
                    locked_amount: self.locked_amount,
                    resolver_deposit,
                    hashed_secret,
                    is_psp22: false,
                    psp22_token: Address::null(),
                },
            ),
            Constructor::NewPsp22 {
                token,
                amount,
                beneficiary,
                hashed_secret,
                expiry,
                resolver_deposit,
            } => {
                if !pulled {
                    return Err(CreateError::PSP22TransferFailed);
                }
                Ok(
                    EscrowCreated {
                        escrow,
                        beneficiary,
                        expiry,
                        locked_amount: self.locked_amount,
                        resolver_deposit,
                        hashed_secret,
                        is_psp22: true,
                        psp22_token: token,
                    },
                )
            },
        }
    }
}

impl Instantiation {
    /// The first reason for which the constructor that the instantiation
    /// names turns it down, if there is one.
    pub open spec fn terms_error(&self) -> Option<CreateError> {
        match self.constructor {
            Constructor::NewNative { resolver_deposit, .. } => native_terms_error(
                self.endowment,
                resolver_deposit,
            ),
            Constructor::NewPsp22 { resolver_deposit, amount, .. } => psp22_terms_error(
                self.endowment,
                resolver_deposit,
                amount,
            ),
        }
    }

    /// Runs the constructor that the instantiation names, as the host does
    /// for the new account: the deployer is its caller, the endowment the
    /// value attached, `now` the current height.
    pub fn construct(&self, deployer: Address, now: u64) -> (r: Result<HtlcEscrow, CreateError>)
        ensures
            self.terms_error() matches Some(e) ==> r == Err::<HtlcEscrow, CreateError>(e),
            self.terms_error() is None ==> r is Ok,
            r is Ok ==> {
                &&& r->Ok_0.wf()
                &&& r->Ok_0.initiator == deployer
                &&& r->Ok_0.beneficiary == self.constructor.beneficiary()
                &&& r->Ok_0.hashed_secret == self.constructor.hashed_secret()
                &&& r->Ok_0.expiry == crate::escrow::deadline(now, self.constructor.expiry())
                &&& r->Ok_0.resolver_deposit == self.constructor.resolver_deposit()
                &&& !r->Ok_0.claimed
                &&& !r->Ok_0.refunded
                &&& r->Ok_0.finalizing == Finalizing::Idle
                &&& r->Ok_0.asset_kind is PSP22 == self.constructor is NewPsp22
                &&& (self.constructor matches Constructor::NewNative { resolver_deposit, .. }
                    ==> r->Ok_0.locked_amount@ + resolver_deposit@ == self.endowment@
                    && r->Ok_0.psp22_token == Address::null())
                &&& (self.constructor matches Constructor::NewPsp22 { token, amount, .. }
                    ==> r->Ok_0.locked_amount == amount && r->Ok_0.psp22_token == token)
            },
    {
        let env = CallEnv { caller: deployer, transferred_value: self.endowment, block_number: now };
        match self.constructor {
            Constructor::NewNative { beneficiary, hashed_secret, expiry, resolver_deposit } => {
                HtlcEscrow::new_native(&env, beneficiary, hashed_secret, expiry, resolver_deposit)
            },
            Constructor::NewPsp22 {
                token,
                amount,
                beneficiary,
                hashed_secret,
                expiry,
                resolver_deposit,
            } => HtlcEscrow::new_psp22(
                &env,
                token,
                amount,
                beneficiary,
                hashed_secret,
                expiry,
                resolver_deposit,
            ),
        }
    }
}

impl HtlcFactory {
    /// The instantiation of a native escrow from this factory's template.
    pub open spec fn native_instantiation(
        &self,
        beneficiary: Address,
        hashed_secret: [u8; 32],
        expiry: u64,
        resolver_deposit: U256,
        salt: Option<[u8; 32]>,
        endowment: U256,
    ) -> Instantiation {
        Instantiation {
            code_hash: self.escrow_code_hash,
            endowment,
            salt,
            constructor: Constructor::NewNative {
                beneficiary,
                hashed_secret,
                expiry,
                resolver_deposit,
            },
        }
    }

    /// The instantiation of a token escrow from this factory's template:
    /// its endowment is the resolver deposit.
    pub open spec fn psp22_instantiation(
        &self,
        token: Address,
        amount: U256,
        beneficiary: Address,
        hashed_secret: [u8; 32],
        expiry: u64,
        resolver_deposit: U256,
        salt: Option<[u8; 32]>,
    ) -> Instantiation {
        Instantiation {
            code_hash: self.escrow_code_hash,
            endowment: resolver_deposit,
            salt,
            constructor: Constructor::NewPsp22 {
                token,
                amount,
                beneficiary,
                hashed_secret,
                expiry,
                resolver_deposit,
            },
        }
    }

    /// A factory for the template `escrow_code_hash`.
    pub fn new(escrow_code_hash: [u8; 32]) -> (factory: HtlcFactory)
        ensures
            factory.escrow_code_hash == escrow_code_hash,
    {
        HtlcFactory { escrow_code_hash }
    }

    /// The template that every escrow of this factory is made from.
    pub fn get_escrow_code_hash(&self) -> (code_hash: [u8; 32])
        ensures
            code_hash == self.escrow_code_hash,
    {
        self.escrow_code_hash
    }

    /// The request to instantiate a native escrow that starts with
    /// `endowment`, principal and deposit together.
    pub fn instantiate_native(
        &self,
        beneficiary: Address,
        hashed_secret: [u8; 32],
        expiry: u64,
        resolver_deposit: U256,
        salt: Option<[u8; 32]>,
        endowment: U256,
    ) -> (request: Instantiation)
        ensures
            request == self.native_instantiation(
                beneficiary,
                hashed_secret,
                expiry,
                resolver_deposit,
                salt,
                endowment,
            ),
    {
        Instantiation {
            code_hash: self.escrow_code_hash,
            endowment,
            salt,
            constructor: Constructor::NewNative {
                beneficiary,
                hashed_secret,
                expiry,
                resolver_deposit,
            },
        }
    }

    /// The request to instantiate a token escrow. It starts with the
    /// resolver deposit alone; the tokens follow by a pull.
    pub fn instantiate_psp22(
        &self,
        token: Address,
        amount: U256,
        beneficiary: Address,
        hashed_secret: [u8; 32],
        expiry: u64,
        resolver_deposit: U256,
        salt: Option<[u8; 32]>,
    ) -> (request: Instantiation)
        ensures
            request == self.psp22_instantiation(
                token,
                amount,
                beneficiary,
                hashed_secret,
                expiry,
                resolver_deposit,
                salt,
            ),
    {
        Instantiation {
            code_hash: self.escrow_code_hash,
            endowment: resolver_deposit,
            salt,
            constructor: Constructor::NewPsp22 {
                token,
                amount,
                beneficiary,
                hashed_secret,
                expiry,
                resolver_deposit,
            },
        }
    }

    /// Accepts or turns down the creation of a native escrow.
    ///
    /// The value attached to the call is principal and deposit together.
    /// Fails where the deposit is zero or the value does not exceed it.
    /// Otherwise the escrow is to be instantiated with the whole value as
    /// its endowment, and its principal is the value less the deposit.
    pub fn create_native_escrow(
        &self,
        env: &CallEnv,
        beneficiary: Address,
        hashed_secret: [u8; 32],
        expiry: u64,
        resolver_deposit: U256,
        salt: Option<[u8; 32]>,
    ) -> (r: Result<Creation, CreateError>)
        ensures
            native_terms_error(env.transferred_value, resolver_deposit) matches Some(e) ==> r
                == Err::<Creation, CreateError>(e),
            native_terms_error(env.transferred_value, resolver_deposit) is None ==> r is Ok
                && r->Ok_0.instantiation == self.native_instantiation(
                beneficiary,
                hashed_secret,
                expiry,
                resolver_deposit,
                salt,
                env.transferred_value,
            ) && r->Ok_0.locked_amount@ == env.transferred_value@ - resolver_deposit@,
    {
        if resolver_deposit.is_zero() {
            return Err(CreateError::DepositRequired);
        }
        if !env.transferred_value.gt(&resolver_deposit) {
            return Err(CreateError::InsufficientValue);
        }
        match env.transferred_value.checked_sub(resolver_deposit) {
            None => Err(CreateError::InsufficientValue),
            Some(locked_amount) => Ok(
                Creation {
                    instantiation: self.instantiate_native(
                        beneficiary,
                        hashed_secret,
                        expiry,
                        resolver_deposit,
                        salt,
                        env.transferred_value,
                    ),
                    locked_amount,
                },
            ),
        }
    }

    /// Accepts or turns down the creation of a token escrow for `amount`
    /// of the ledger `token`.
    ///
    /// The value attached to the call is the resolver deposit, exactly.
    /// Fails where the deposit is zero, the value differs from it, or
    /// `amount` is zero. Otherwise the escrow is to be instantiated with
    /// the deposit as its endowment, and `amount` pulled into it.
    pub fn create_psp22_escrow(
        &self,
        env: &CallEnv,
        token: Address,
        amount: U256,
        beneficiary: Address,
        hashed_secret: [u8; 32],
        expiry: u64,
        resolver_deposit: U256,
        salt: Option<[u8; 32]>,
    ) -> (r: Result<Creation, CreateError>)
        ensures
            psp22_terms_error(env.transferred_value, resolver_deposit, amount) matches Some(e)
                ==> r == Err::<Creation, CreateError>(e),
            psp22_terms_error(env.transferred_value, resolver_deposit, amount) is None ==> r
                == Ok::<Creation, CreateError>(
                Creation {
                    instantiation: self.psp22_instantiation(
                        token,
                        amount,
                        beneficiary,
                        hashed_secret,
                        expiry,
                        resolver_deposit,
                        salt,
                    ),
                    locked_amount: amount,
                },
            ),
    {
        if resolver_deposit.is_zero() {
            return Err(CreateError::DepositRequired);
        }
        if !env.transferred_value.same(&resolver_deposit) {
            return Err(CreateError::DepositMismatch);
        }
        if amount.is_zero() {
            return Err(CreateError::ZeroAmount);
        }
        Ok(
            Creation {
                instantiation: self.instantiate_psp22(
                    token,
                    amount,
                    beneficiary,
                    hashed_secret,
                    expiry,
                    resolver_deposit,
                    salt,
                ),
                locked_amount: amount,
            },
        )
    }
}

/// Two factories with the same template that are asked for a native
/// escrow with the same arguments, the same salt and the same value
/// attached hand the host the same instantiation, whoever calls them and
/// at whatever height: all that the address of the escrow is derived from.
pub proof fn lemma_native_instantiation_is_deterministic(
    first: HtlcFactory,
    second: HtlcFactory,
    beneficiary: Address,
    hashed_secret: [u8; 32],
    expiry: u64,
    resolver_deposit: U256,
    salt: Option<[u8; 32]>,
    value: U256,
)
    requires
        first.escrow_code_hash == second.escrow_code_hash,
    ensures
        first.native_instantiation(
            beneficiary,
            hashed_secret,
            expiry,
            resolver_deposit,
            salt,
            value,
        ) == second.native_instantiation(
            beneficiary,
            hashed_secret,
            expiry,
            resolver_deposit,
            salt,
            value,
        ),
{
}

/// What the factory accepts, the constructor accepts: an instantiation
/// that comes out of an accepted creation meets the terms of the
/// constructor that it names.
pub proof fn lemma_accepted_creation_constructs(
    factory: HtlcFactory,
    token: Address,
    amount: U256,
    beneficiary: Address,
    hashed_secret: [u8; 32],
    expiry: u64,
    resolver_deposit: U256,
    salt: Option<[u8; 32]>,
    value: U256,
)
    ensures
        native_terms_error(value, resolver_deposit) is None ==> factory.native_instantiation(
            beneficiary,
            hashed_secret,
            expiry,
            resolver_deposit,
            salt,
            value,
        ).terms_error() is None,
        psp22_terms_error(value, resolver_deposit, amount) is None ==> factory.psp22_instantiation(
            token,
            amount,
            beneficiary,
            hashed_secret,
            expiry,
            resolver_deposit,
            salt,
        ).terms_error() is None,
{
}

} // verus!
