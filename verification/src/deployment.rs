//! The deployment's state machine: uninitialized, then configured, one way.
//!
//! A deployment holds at most one configuration record, at a canonical
//! location every operation resolves for itself. Initialization moves the
//! deployment from uninitialized to configured once and for all; the supply
//! operations read the record and never change it.

use crate::config::Config;
use crate::error::ErrorCode;
use crate::identity::Identity;
use crate::ops::BurnTokens;
use crate::ops::DelegatedRequest;
use crate::ops::Initialize;
use crate::ops::MintTokens;
use crate::ops::burn_tokens;
use crate::ops::initialize;
use crate::ops::mint_tokens;
use crate::ops::supply_op_post;
use vstd::prelude::*;

verus! {

/// A deployed instance of the controller: the record at its canonical
/// location, if one was ever created.
#[derive(Clone, Copy, Debug, PartialEq)]
pub struct Deployment {
    /// The configuration record, `None` while the deployment is uninitialized.
    pub config: Option<Config>,
}

/// One initialization step: the deployment after the attempt and the verdict.
/// A configured record refuses the step and survives it unchanged; otherwise
/// the record for the given token and administrator is established.
pub open spec fn spec_init_step(d: Deployment, mint: Identity, authority: Identity) -> (
    Deployment,
    Result<(), ErrorCode>,
) {
    match d.config {
        Some(c) => if c.is_configured {
            (d, Err(ErrorCode::ProgramIsAlreadyInitialized))
        } else {
            (
                Deployment { config: Some(Config { mint, authority, is_configured: true }) },
                Ok(()),
            )
        },
        None => (
            Deployment { config: Some(Config { mint, authority, is_configured: true }) },
            Ok(()),
        ),
    }
}

impl Deployment {
    /// A fresh, uninitialized deployment.
    pub fn new() -> (d: Deployment)
        ensures
            d.config is None,
    {
        Deployment { config: None }
    }

    /// Create the configuration record, exactly once per deployment.
    pub fn initialize(&mut self, signer: Identity, mint: Identity, authority: Identity) -> (r:
        Result<(), ErrorCode>)
        ensures
            *final(self) == spec_init_step(*old(self), mint, authority).0,
            r == spec_init_step(*old(self), mint, authority).1,
    {
        let existing: Config = match &self.config {
            Some(c) => *c,
            None => Config::default(),
        };
        let accounts = Initialize { config: existing, signer, mint };
        match initialize(&accounts, authority) {
            Ok(c) => {
                self.config = Some(c);
                Ok(())
            },
            Err(e) => Err(e),
        }
    }

    /// Mint against this deployment's record.
    pub fn mint_tokens(
        &self,
        mint: Identity,
        destination: Identity,
        signer: Identity,
        destination_account_holder: Identity,
        amount: u64,
    ) -> (r: Result<DelegatedRequest, ErrorCode>)
        ensures
            supply_op_post(self.config, mint, signer, destination, amount, r),
    {
        let accounts = MintTokens {
            config: self.config,
            mint,
            destination,
            signer,
            destination_account_holder,
        };
        mint_tokens(&accounts, amount)
    }

    /// Burn against this deployment's record.
    pub fn burn_tokens(
        &self,
        mint: Identity,
        burn_from: Identity,
        signer: Identity,
        burn_from_account_holder: Identity,
        amount: u64,
    ) -> (r: Result<DelegatedRequest, ErrorCode>)
        ensures
            supply_op_post(self.config, mint, signer, burn_from, amount, r),
    {
        let accounts = BurnTokens {
            config: self.config,
            mint,
            burn_from,
            signer,
            burn_from_account_holder,
        };
        burn_tokens(&accounts, amount)
    }
}

/// Law: single initialization. On a deployment not yet configured, the first
/// initialization succeeds and establishes the record for its token and
/// administrator; a second attempt, whatever its inputs, yields
/// `ProgramIsAlreadyInitialized`, and the record after both attempts is the
/// record the first attempt alone produced.
pub proof fn lemma_single_initialization(
    d: Deployment,
    m1: Identity,
    a1: Identity,
    m2: Identity,
    a2: Identity,
)
    requires
        d.config matches Some(c) ==> !c.is_configured,
    ensures
        ({
            let (d1, r1) = spec_init_step(d, m1, a1);
            let (d2, r2) = spec_init_step(d1, m2, a2);
            &&& r1 is Ok
            &&& d1.config == Some(Config { mint: m1, authority: a1, is_configured: true })
            &&& r2 == Err::<(), ErrorCode>(ErrorCode::ProgramIsAlreadyInitialized)
            &&& d2 == d1
        }),
{
}

} // verus!
