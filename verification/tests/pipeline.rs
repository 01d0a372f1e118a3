use distrotron::{
    Action, CallContext, Event, GasConfig, PayError, Phase, Pipeline, TGAS,
};

fn ctx_with(deposit: u128) -> CallContext {
    CallContext {
        current_account: "distro.testnet".to_string(),
        signer: "robert.testnet".to_string(),
        attached_deposit: deposit,
        prepaid_gas: 300 * TGAS,
        used_gas: 5 * TGAS,
    }
}

fn to_yocto(near: &str) -> u128 {
    near.parse::<u128>().unwrap() * 10u128.pow(24)
}

/// Drives a freshly dispatched pipeline to completion with the given
/// settled outcomes and returns (refund, reported amount).
fn settle(pipeline: &mut Pipeline, outcomes: Vec<bool>) -> (Option<(String, u128)>, u128) {
    let mut refund = None;
    let mut action = pipeline.step(Event::TransfersSettled { outcomes });
    if let Action::IssueRefund { target, amount } = action {
        refund = Some((target, amount));
        action = pipeline.step(Event::RefundSettled);
    }
    match action {
        Action::Report { .. } => {}
        _ => panic!("the compensator always hands over to the reporter"),
    }
    match pipeline.step(Event::ReportSettled) {
        Action::Finish { paid } => (refund, paid),
        _ => panic!("the reporter always finishes the pipeline"),
    }
}

// pay_out should succeed and pay every payee the same slice.
#[test]
fn payout_1() {
    let mut pipeline = Pipeline::new(ctx_with(to_yocto("300")), GasConfig::default());

    let bob = "bob".to_string();
    let carol = "carol".to_string();
    let dick = "dick".to_string();
    let mut balances = [to_yocto("10"), to_yocto("10"), to_yocto("10")];
    assert_eq!(balances[0], to_yocto("10"));

    let action = pipeline.step(Event::Invoke {
        recipients: vec![bob.clone(), carol.clone(), dick.clone()],
    });
    let transfers = match action {
        Action::IssueTransfers { transfers } => transfers,
        _ => panic!("a valid request dispatches the fan-out"),
    };
    assert_eq!(transfers.len(), 3);
    for (i, t) in transfers.iter().enumerate() {
        balances[i] += t.amount;
    }

    // all transfers succeed: the trigger slot, then one result per transfer
    let (refund, retval) = settle(&mut pipeline, vec![true, true, true, true]);
    assert!(refund.is_none());
    assert!(retval > 0, "negative payment error");
    println!("pay_out paid each user: {}", &retval);

    // assert everybody got paid:
    assert_eq!(balances[0], to_yocto("10") + retval);
    assert_eq!(balances[1], to_yocto("10") + retval);
    assert_eq!(balances[2], to_yocto("10") + retval);
    assert_eq!(pipeline.phase, Phase::Done { paid: retval });
}

// pay_out should fail with no list of recipients, whatever was attached:
#[test]
fn pay_out_nobody_aborts() {
    for deposit in [0, 1, to_yocto("300")] {
        let mut pipeline = Pipeline::new(ctx_with(deposit), GasConfig::default());
        let action = pipeline.step(Event::Invoke { recipients: vec![] });
        match action {
            Action::Abort { reason } => {
                assert_eq!(reason, PayError::EmptyRecipientList);
                assert_eq!(reason.reason(), "Empty recipient list");
            }
            _ => panic!("an empty recipient list must abort"),
        }
        assert_eq!(
            pipeline.phase,
            Phase::Failed { reason: PayError::EmptyRecipientList }
        );
    }
}

// pay_out should fail if no payment attached:
#[test]
fn pay_out_nomoney_aborts() {
    let mut pipeline = Pipeline::new(ctx_with(to_yocto("0")), GasConfig::default());
    let action = pipeline.step(Event::Invoke {
        recipients: vec!["bob".to_string(), "carol".to_string(), "dick".to_string()],
    });
    match action {
        Action::Abort { reason } => {
            assert_eq!(reason, PayError::NoPaymentAttached);
            assert_eq!(reason.reason(), "No payment attached");
        }
        _ => panic!("a payment-less request must abort"),
    }
}

// End-to-end: four recipients, 10 units attached, all transfers succeed.
#[test]
fn payout_four_recipients_no_refund() {
    let mut pipeline = Pipeline::new(ctx_with(10), GasConfig::default());
    let action = pipeline.step(Event::Invoke {
        recipients: vec![
            "bob".to_string(),
            "carol".to_string(),
            "dick".to_string(),
            "eve".to_string(),
        ],
    });
    let transfers = match action {
        Action::IssueTransfers { transfers } => transfers,
        _ => panic!("a valid request dispatches the fan-out"),
    };
    assert_eq!(transfers.len(), 4);
    // each recipient's share is floor(10 / 4)
    assert!(transfers.iter().all(|t| t.amount == 2));

    let (refund, paid) = settle(&mut pipeline, vec![true, true, true, true, true]);
    assert!(refund.is_none());
    assert_eq!(paid, 2);
}

// End-to-end: partial failure is compensated, not surfaced as an error.
#[test]
fn partial_failure_is_refunded() {
    let mut pipeline = Pipeline::new(ctx_with(to_yocto("300")), GasConfig::default());
    pipeline.step(Event::Invoke {
        recipients: vec!["bob".to_string(), "carol".to_string(), "dick".to_string()],
    });

    // two of the three transfers fail
    let (refund, paid) = settle(&mut pipeline, vec![true, false, true, false]);
    let (target, amount) = refund.expect("a refund was due");
    assert_eq!(target, "robert.testnet");
    assert_eq!(amount, 2 * to_yocto("100"));
    // the reported amount is still the slice
    assert_eq!(paid, to_yocto("100"));
}

// End-to-end: the directory path proceeds exactly as a direct payout of the
// returned list with the same attached amount.
#[test]
fn directory_payout_matches_direct() {
    let minters = vec!["alice.foo".to_string(), "bob.foo".to_string()];
    let deposit = to_yocto("10");

    let mut by_lookup = Pipeline::new(ctx_with(deposit), GasConfig::default());
    let action = by_lookup.step(Event::InvokeDirectory {
        directory: "mb.testnet".to_string(),
    });
    let plan = match action {
        Action::CallDirectory { plan } => plan,
        _ => panic!("a valid identifier plans the lookup"),
    };
    assert_eq!(plan.directory, "mb.testnet");
    assert_eq!(by_lookup.phase, Phase::LookingUp);

    let response = near_sdk::serde_json::to_vec(&minters).unwrap();
    let looked_up = match by_lookup.step(Event::LookupSettled { response: Some(response) }) {
        Action::IssueTransfers { transfers } => transfers,
        _ => panic!("a non-empty list dispatches the fan-out"),
    };

    let mut direct = Pipeline::new(ctx_with(deposit), GasConfig::default());
    let direct_transfers = match direct.step(Event::Invoke { recipients: minters }) {
        Action::IssueTransfers { transfers } => transfers,
        _ => panic!("a valid request dispatches the fan-out"),
    };

    assert_eq!(looked_up.len(), direct_transfers.len());
    for (a, b) in looked_up.iter().zip(direct_transfers.iter()) {
        assert_eq!(a.recipient, b.recipient);
        assert_eq!(a.amount, b.amount);
    }

    let (refund, paid) = settle(&mut by_lookup, vec![true, true, true]);
    assert!(refund.is_none());
    assert_eq!(paid, to_yocto("5"));
}

// The lookup path aborts before dispatch on a failed or empty lookup.
#[test]
fn lookup_failures_abort_before_dispatch() {
    let mut pipeline = Pipeline::new(ctx_with(to_yocto("10")), GasConfig::default());
    pipeline.step(Event::InvokeDirectory { directory: "mb.testnet".to_string() });
    match pipeline.step(Event::LookupSettled { response: None }) {
        Action::Abort { reason } => assert_eq!(reason, PayError::DirectoryLookupFailed),
        _ => panic!("a failed remote call must abort"),
    }

    let mut pipeline = Pipeline::new(ctx_with(to_yocto("10")), GasConfig::default());
    pipeline.step(Event::InvokeDirectory { directory: "mb.testnet".to_string() });
    let empty = near_sdk::serde_json::to_vec::<Vec<String>>(&Vec::new()).unwrap();
    match pipeline.step(Event::LookupSettled { response: Some(empty) }) {
        Action::Abort { reason } => assert_eq!(reason, PayError::NoRecipientsFound),
        _ => panic!("an empty minter list must abort"),
    }
}

// pay_minters should fail fast if the directory identifier is invalid.
#[test]
fn pay_minters_invalid_id_aborts() {
    let mut pipeline = Pipeline::new(ctx_with(to_yocto("10")), GasConfig::default());
    // invalid; minimum length is 2
    let action = pipeline.step(Event::InvokeDirectory { directory: "i".to_string() });
    match action {
        Action::Abort { reason } => {
            assert_eq!(reason, PayError::InvalidDirectoryIdentifier);
            assert_eq!(reason.reason(), "Invalid contract ID");
        }
        _ => panic!("an invalid identifier must abort before any remote call"),
    }
}

// An overcommitted budget aborts the lookup path before the remote call.
#[test]
fn budget_exhaustion_aborts() {
    let mut ctx = ctx_with(to_yocto("10"));
    ctx.prepaid_gas = 20 * TGAS;
    let mut pipeline = Pipeline::new(ctx, GasConfig::default());
    match pipeline.step(Event::InvokeDirectory { directory: "mb.testnet".to_string() }) {
        Action::Abort { reason } => assert_eq!(reason, PayError::BudgetExhausted),
        _ => panic!("an overcommitted budget must abort"),
    }
}

// Duplicate recipients receive one share each, not one per occurrence.
#[test]
fn duplicates_get_one_share() {
    let mut pipeline = Pipeline::new(ctx_with(10), GasConfig::default());
    let action = pipeline.step(Event::Invoke {
        recipients: vec!["bob".to_string(), "bob".to_string(), "carol".to_string()],
    });
    let transfers = match action {
        Action::IssueTransfers { transfers } => transfers,
        _ => panic!("a valid request dispatches the fan-out"),
    };
    let recipients: Vec<&str> = transfers.iter().map(|t| t.recipient.as_str()).collect();
    assert_eq!(recipients, ["bob", "carol"]);
    assert!(transfers.iter().all(|t| t.amount == 5));
}
