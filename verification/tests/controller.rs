use aanikeev_token::config::Config;
use aanikeev_token::deployment::Deployment;
use aanikeev_token::error::ErrorCode;
use aanikeev_token::identity::Identity;
use aanikeev_token::ops::BurnTokens;
use aanikeev_token::ops::DelegatedRequest;
use aanikeev_token::ops::Initialize;
use aanikeev_token::ops::MintTokens;
use aanikeev_token::ops::burn_tokens;
use aanikeev_token::ops::initialize;
use aanikeev_token::ops::mint_tokens;

fn id(tag: u8) -> Identity {
    Identity { bytes: [tag; 32] }
}

/// A stand-in for the external ledger module: one holding's balance, changed
/// only by a well-formed request and only when the debit is covered.
fn ledger_apply(balance: u64, req: &DelegatedRequest, credit: bool) -> Result<u64, ()> {
    if credit {
        balance.checked_add(req.amount).ok_or(())
    } else {
        if req.amount > balance {
            Err(())
        } else {
            Ok(balance - req.amount)
        }
    }
}

#[test]
fn initialize_establishes_record() {
    let admin = id(1);
    let token = id(2);
    let payer = id(3);
    let mut d = Deployment::new();
    assert_eq!(d.config, None);
    assert_eq!(d.initialize(payer, token, admin), Ok(()));
    assert_eq!(
        d.config,
        Some(Config { mint: token, authority: admin, is_configured: true })
    );
}

#[test]
fn initialize_twice_rejected() {
    let admin = id(1);
    let token = id(2);
    let payer = id(3);
    let mut d = Deployment::new();
    assert_eq!(d.initialize(payer, token, admin), Ok(()));
    let first = d.config;
    let r = d.initialize(id(7), id(8), id(9));
    assert_eq!(r, Err(ErrorCode::ProgramIsAlreadyInitialized));
    assert_eq!(d.config, first);
}

#[test]
fn initialize_on_occupied_record_rejected() {
    let occupied = Config { mint: id(2), authority: id(1), is_configured: true };
    let r = initialize(&Initialize { config: occupied, signer: id(3), mint: id(4) }, id(5));
    assert_eq!(r, Err(ErrorCode::ProgramIsAlreadyInitialized));
}

#[test]
fn mint_before_initialization_rejected() {
    let r = mint_tokens(
        &MintTokens {
            config: None,
            mint: id(2),
            destination: id(4),
            signer: id(1),
            destination_account_holder: id(5),
        },
        10,
    );
    assert_eq!(r, Err(ErrorCode::ProgramIsNotInitialized));
}

#[test]
fn burn_before_initialization_rejected() {
    let r = burn_tokens(
        &BurnTokens {
            config: None,
            mint: id(2),
            burn_from: id(4),
            signer: id(1),
            burn_from_account_holder: id(5),
        },
        10,
    );
    assert_eq!(r, Err(ErrorCode::ProgramIsNotInitialized));
}

#[test]
fn mint_by_other_caller_rejected() {
    let admin = id(1);
    let other = id(9);
    let token = id(2);
    let cfg = Config { mint: token, authority: admin, is_configured: true };
    for amount in [0u64, 1, 100, u64::MAX] {
        let r = mint_tokens(
            &MintTokens {
                config: Some(cfg),
                mint: token,
                destination: id(4),
                signer: other,
                destination_account_holder: id(5),
            },
            amount,
        );
        assert_eq!(r, Err(ErrorCode::NotPermitted));
    }
}

#[test]
fn burn_by_other_caller_rejected() {
    let admin = id(1);
    let other = id(9);
    let token = id(2);
    let cfg = Config { mint: token, authority: admin, is_configured: true };
    for amount in [0u64, 1, 100, u64::MAX] {
        let r = burn_tokens(
            &BurnTokens {
                config: Some(cfg),
                mint: token,
                burn_from: id(4),
                signer: other,
                burn_from_account_holder: id(5),
            },
            amount,
        );
        assert_eq!(r, Err(ErrorCode::NotPermitted));
    }
}

#[test]
fn mint_with_wrong_token_rejected() {
    let admin = id(1);
    let token = id(2);
    let wrong = id(3);
    let cfg = Config { mint: token, authority: admin, is_configured: true };
    let r = mint_tokens(
        &MintTokens {
            config: Some(cfg),
            mint: wrong,
            destination: id(4),
            signer: admin,
            destination_account_holder: id(5),
        },
        10,
    );
    assert_eq!(r, Err(ErrorCode::NotPermitted));
}

#[test]
fn burn_with_wrong_token_rejected() {
    let admin = id(1);
    let token = id(2);
    let wrong = id(3);
    let cfg = Config { mint: token, authority: admin, is_configured: true };
    let r = burn_tokens(
        &BurnTokens {
            config: Some(cfg),
            mint: wrong,
            burn_from: id(4),
            signer: admin,
            burn_from_account_holder: id(5),
        },
        10,
    );
    assert_eq!(r, Err(ErrorCode::NotPermitted));
}

#[test]
fn mint_request_carries_inputs_and_delegate() {
    let admin = id(1);
    let token = id(2);
    let dest = id(4);
    let cfg = Config { mint: token, authority: admin, is_configured: true };
    let req = mint_tokens(
        &MintTokens {
            config: Some(cfg),
            mint: token,
            destination: dest,
            signer: admin,
            destination_account_holder: id(5),
        },
        250,
    )
    .expect("authorized mint must yield a request");
    assert_eq!(req.token, token);
    assert_eq!(req.account, dest);
    assert_eq!(req.amount, 250);
    let (delegate, bump) =
        aanikeev_token::delegate::derive_delegate(&admin).expect("delegate must derive");
    assert_eq!(req.delegate, delegate);
    assert_eq!(req.bump, bump);
}

#[test]
fn scenario_mint_and_burn() {
    let admin = id(1);
    let other = id(9);
    let token = id(2);
    let dest = id(4);
    let holder = id(5);
    let mut d = Deployment::new();
    assert_eq!(d.initialize(id(3), token, admin), Ok(()));
    let mut balance: u64 = 0;

    let req = d.mint_tokens(token, dest, admin, holder, 100).expect("mint by admin succeeds");
    balance = ledger_apply(balance, &req, true).expect("ledger accepts the mint");
    assert_eq!(balance, 100);

    let r = d.mint_tokens(token, dest, other, holder, 50);
    assert_eq!(r, Err(ErrorCode::NotPermitted));
    assert_eq!(balance, 100);

    let req = d.burn_tokens(token, dest, admin, holder, 40).expect("burn by admin succeeds");
    balance = ledger_apply(balance, &req, false).expect("ledger accepts the burn");
    assert_eq!(balance, 60);
}

#[test]
fn failed_ledger_call_changes_nothing() {
    let admin = id(1);
    let token = id(2);
    let dest = id(4);
    let holder = id(5);
    let mut d = Deployment::new();
    assert_eq!(d.initialize(id(3), token, admin), Ok(()));
    let record = d.config;
    let mut balance: u64 = 100;

    // The request is well-authorized, but the ledger module refuses to debit
    // more than the holding covers; the record and the balance survive intact.
    let req = d.burn_tokens(token, dest, admin, holder, 500).expect("authorization passes");
    let outcome = ledger_apply(balance, &req, false);
    assert!(outcome.is_err());
    assert_eq!(balance, 100);
    assert_eq!(d.config, record);
}
