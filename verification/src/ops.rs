//! The operation surface: initialization and the two supply operations.
//!
//! Each operation runs as one atomic step: it validates against the
//! configuration record and either fails with an error, touching nothing, or
//! produces a fully authenticated request for the external ledger module.
//! Every input reaches an operation by shared reference or by value, so a
//! failed operation can leave no partial effect behind.

use crate::config::Config;
use crate::delegate::delegate_of;
use crate::delegate::derive_delegate;
use crate::error::ErrorCode;
use crate::identity::Identity;
use vstd::prelude::*;

verus! {

/// The accounts an initialization call touches.
#[derive(Clone, Copy, Debug)]
pub struct Initialize {
    /// The record at the canonical location: freshly allocated and zeroed by
    /// the storage collaborator, or already established.
    pub config: Config,
    /// The identity paying for the record's allocation.
    pub signer: Identity,
    /// The token whose supply the new configuration will control.
    pub mint: Identity,
}

/// The accounts a mint call touches.
#[derive(Clone, Copy, Debug)]
pub struct MintTokens {
    /// The configuration record looked up at the canonical location; `None`
    /// when the lookup failed because the deployment was never initialized.
    pub config: Option<Config>,
    /// The token whose supply is to grow.
    pub mint: Identity,
    /// The holding to credit.
    pub destination: Identity,
    /// The caller requesting the mint.
    pub signer: Identity,
    /// The identity the destination holding belongs to; its binding to the
    /// destination is checked by the ledger collaborator, not by this core.
    pub destination_account_holder: Identity,
}

/// The accounts a burn call touches.
#[derive(Clone, Copy, Debug)]
pub struct BurnTokens {
    /// The configuration record looked up at the canonical location; `None`
    /// when the lookup failed because the deployment was never initialized.
    pub config: Option<Config>,
    /// The token whose supply is to shrink.
    pub mint: Identity,
    /// The holding to debit.
    pub burn_from: Identity,
    /// The caller requesting the burn.
    pub signer: Identity,
    /// The identity the debited holding belongs to; its binding to the
    /// holding is checked by the ledger collaborator, not by this core.
    pub burn_from_account_holder: Identity,
}

/// A validated, authenticated supply-change request, ready to hand to the
/// external ledger module's mint or burn entry point. Producing one is the
/// whole effect of a successful supply operation; the bookkeeping itself is
/// the ledger module's.
#[derive(Clone, Copy, Debug, PartialEq)]
pub struct DelegatedRequest {
    /// The token whose supply changes.
    pub token: Identity,
    /// The holding credited or debited.
    pub account: Identity,
    /// The derived signing delegate that authenticates the call.
    pub delegate: Identity,
    /// The proof value that reproduces the delegate's address from the fixed
    /// label and the administrator's identity.
    pub bump: u8,
    /// The number of units to mint or burn.
    pub amount: u64,
}

/// What the established record says for the given inputs, or why none is
/// created: `ProgramIsAlreadyInitialized` exactly when a configured record
/// already sits at the canonical location.
pub open spec fn spec_initialize(accounts: Initialize, authority: Identity) -> Result<
    Config,
    ErrorCode,
> {
    if accounts.config.is_configured {
        Err(ErrorCode::ProgramIsAlreadyInitialized)
    } else {
        Ok(Config { mint: accounts.mint, authority, is_configured: true })
    }
}

/// Create the configuration record exactly once.
///
/// The storage collaborator persists the returned record; this core refuses
/// to overwrite an established one, as its second line of defense behind the
/// storage layer's create-only-if-absent rule.
pub fn initialize(accounts: &Initialize, authority: Identity) -> (r: Result<Config, ErrorCode>)
    ensures
        r == spec_initialize(*accounts, authority),
{
    if accounts.config.is_configured {
        Err(ErrorCode::ProgramIsAlreadyInitialized)
    } else {
        Ok(Config { mint: accounts.mint, authority, is_configured: true })
    }
}

/// The validation both supply operations share, in order, short-circuiting on
/// the first failure: the record must exist and be configured, the supplied
/// token must be the configured token, and the caller must be the configured
/// administrator.
pub open spec fn spec_authorize(config: Option<Config>, token: Identity, caller: Identity) -> Result<
    (),
    ErrorCode,
> {
    match config {
        None => Err(ErrorCode::ProgramIsNotInitialized),
        Some(c) => if !c.is_configured {
            Err(ErrorCode::ProgramIsNotInitialized)
        } else if token@ != c.mint@ {
            Err(ErrorCode::NotPermitted)
        } else if caller@ != c.authority@ {
            Err(ErrorCode::NotPermitted)
        } else {
            Ok(())
        },
    }
}

fn authorize(config: &Option<Config>, token: &Identity, caller: &Identity) -> (r: Result<
    Config,
    ErrorCode,
>)
    ensures
        (match spec_authorize(*config, *token, *caller) {
            Err(e) => r == Err::<Config, ErrorCode>(e),
            Ok(_) => r matches Ok(c) && *config == Some(c),
        }),
{
    let c = match config {
        None => { return Err(ErrorCode::ProgramIsNotInitialized); },
        Some(c) => *c,
    };
    if !c.is_configured {
        return Err(ErrorCode::ProgramIsNotInitialized);
    }
    if !(*token == c.mint) {
        return Err(ErrorCode::NotPermitted);
    }
    if !(*caller == c.authority) {
        return Err(ErrorCode::NotPermitted);
    }
    Ok(c)
}

/// What a supply operation returns: the validation verdict verbatim on
/// failure; on success, either the one authenticated request for exactly the
/// supplied token, holding and amount under the derived delegate, or
/// `InvalidAccount` in the rare case that no delegate can be derived.
pub open spec fn supply_op_post(
    config: Option<Config>,
    token: Identity,
    caller: Identity,
    account: Identity,
    amount: u64,
    r: Result<DelegatedRequest, ErrorCode>,
) -> bool {
    match spec_authorize(config, token, caller) {
        Err(e) => r == Err::<DelegatedRequest, ErrorCode>(e),
        Ok(_) => ({
            &&& config matches Some(c)
            &&& match delegate_of(c.authority@) {
                None => r == Err::<DelegatedRequest, ErrorCode>(ErrorCode::InvalidAccount),
                Some(d) => {
                    &&& r matches Ok(req)
                    &&& req.token@ == token@
                    &&& req.account@ == account@
                    &&& req.delegate@ == d.0
                    &&& req.bump == d.1
                    &&& req.amount == amount
                },
            }
        }),
    }
}

/// Request that `amount` new units be credited to the destination holding.
///
/// Only the configured administrator may mint, and only for the configured
/// token; on any validation failure no request is produced and nothing
/// changes. The successful request is authenticated as the derived delegate,
/// not as the caller.
pub fn mint_tokens(accounts: &MintTokens, amount: u64) -> (r: Result<DelegatedRequest, ErrorCode>)
    ensures
        supply_op_post(
            accounts.config,
            accounts.mint,
            accounts.signer,
            accounts.destination,
            amount,
            r,
        ),
{
    let c = match authorize(&accounts.config, &accounts.mint, &accounts.signer) {
        Err(e) => { return Err(e); },
        Ok(c) => c,
    };
    match derive_delegate(&c.authority) {
        None => Err(ErrorCode::InvalidAccount),
        Some((delegate, bump)) => Ok(
            DelegatedRequest {
                token: accounts.mint,
                account: accounts.destination,
                delegate,
                bump,
                amount,
            },
        ),
    }
}

/// Request that `amount` units be debited from the source holding.
///
/// Validated exactly as minting is; insufficient balance or ownership
/// mismatches on the holding itself are the ledger module's to detect. The
/// successful request is authenticated as the derived delegate.
pub fn burn_tokens(accounts: &BurnTokens, amount: u64) -> (r: Result<DelegatedRequest, ErrorCode>)
    ensures
        supply_op_post(
            accounts.config,
            accounts.mint,
            accounts.signer,
            accounts.burn_from,
            amount,
            r,
        ),
{
    let c = match authorize(&accounts.config, &accounts.mint, &accounts.signer) {
        Err(e) => { return Err(e); },
        Ok(c) => c,
    };
    match derive_delegate(&c.authority) {
        None => Err(ErrorCode::InvalidAccount),
        Some((delegate, bump)) => Ok(
            DelegatedRequest {
                token: accounts.mint,
                account: accounts.burn_from,
                delegate,
                bump,
                amount,
            },
        ),
    }
}

/// Law: authorization symmetry. Whatever a supply operation returned, if the
/// caller is any identity other than the configured administrator, the result
/// is `NotPermitted` — for every amount and every holding — so no request
/// reaches the ledger module and no balance can change.
pub proof fn lemma_authorization_symmetry(
    config: Config,
    token: Identity,
    caller: Identity,
    account: Identity,
    amount: u64,
    r: Result<DelegatedRequest, ErrorCode>,
)
    requires
        config.is_configured,
        caller@ != config.authority@,
        supply_op_post(Some(config), token, caller, account, amount, r),
    ensures
        r == Err::<DelegatedRequest, ErrorCode>(ErrorCode::NotPermitted),
{
}

/// Law: token-identity binding. Whatever a supply operation returned, if the
/// supplied token is not the configured token, the result is `NotPermitted`,
/// even when the caller is the configured administrator.
pub proof fn lemma_token_identity_binding(
    config: Config,
    token: Identity,
    caller: Identity,
    account: Identity,
    amount: u64,
    r: Result<DelegatedRequest, ErrorCode>,
)
    requires
        config.is_configured,
        token@ != config.mint@,
        supply_op_post(Some(config), token, caller, account, amount, r),
    ensures
        r == Err::<DelegatedRequest, ErrorCode>(ErrorCode::NotPermitted),
{
}

/// Law: a request exists only under full authorization. Whatever a supply
/// operation returned, a request is produced only when the deployment is
/// configured, the token matches and the caller is the administrator; on any
/// failure the operation yields the error alone, and since every operation
/// input is taken by shared reference, the configuration record and all
/// holdings are left untouched.
pub proof fn lemma_request_only_when_authorized(
    config: Option<Config>,
    token: Identity,
    caller: Identity,
    account: Identity,
    amount: u64,
    r: Result<DelegatedRequest, ErrorCode>,
)
    requires
        supply_op_post(config, token, caller, account, amount, r),
    ensures
        r is Ok ==> spec_authorize(config, token, caller) is Ok,
        r is Ok ==> (config matches Some(c) ==> c.is_configured && token@ == c.mint@ && caller@
            == c.authority@),
        r is Ok ==> config is Some,
{
}

} // verus!
