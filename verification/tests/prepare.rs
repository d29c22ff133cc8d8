use wallet_session::error::{ErrorKind, WalletFailure, DEPLOY_FIRST, INVALID_NUMBER, NOT_EXISTS};
use wallet_session::json::{parse_text_list, render_text_list};
use wallet_session::keys::parse_public_key;
use wallet_session::model::{
    ContractState, Expiration, TonWalletDetails, WalletType,
};
use wallet_session::numbers::parse_u64;
use wallet_session::prepare::{
    custodians_from_json, internal_ton_wallet_prepare_confirm_transaction,
    internal_ton_wallet_prepare_deploy, internal_ton_wallet_prepare_deploy_with_multiple_owners,
    internal_ton_wallet_prepare_transfer, payload_kind, BuildOrder, PayloadKind, Preparation,
    RawContractState, TransferAction,
};
use wallet_session::wallet::{Listener, Subscribed, Wallet};

const KEY_A: &str = "d75a980182b10ab7d54bfed3c964073a0ee172f3daa62325af021a68f707511a";
const KEY_B: &str = "3d4017c3e843895a92b70aa74d1b7ebc9c982ccf2ec4968cc0cd55f12af4660c";

type Run = Preparation<String, u32, String>;

fn plain_wallet() -> Wallet {
    Wallet::subscribe(
        Subscribed {
            workchain: 0,
            address: "0:feed".to_string(),
            public_key: parse_public_key(KEY_A).unwrap(),
            wallet_type: WalletType::WalletV3,
            details: TonWalletDetails {
                requires_separate_deploy: false,
                min_amount: 0,
                supports_payload: true,
                supports_multiple_owners: false,
                expiration_time: 60,
            },
            contract_state: ContractState { balance: 5, is_deployed: true, last_transaction_id: None },
            custodians: None,
            unconfirmed_transactions: Vec::new(),
        },
        Listener { port: None },
    )
    .unwrap()
}

fn transfer(
    public_key: &str,
    destination: Result<String, String>,
    body: Option<Result<String, String>>,
    expiration: Result<Expiration, String>,
) -> Run {
    internal_ton_wallet_prepare_transfer(
        &plain_wallet(),
        public_key,
        destination,
        1_000,
        body,
        expiration,
    )
}

fn rejection(run: Run) -> (ErrorKind, String) {
    match run {
        Preparation::Rejected(e) => (e.kind, e.info),
        other => panic!("not rejected: {:?}", other),
    }
}

fn good_transfer() -> Run {
    transfer(KEY_A, Ok("0:beef".to_string()), None, Ok(Expiration::Timeout(60)))
}

#[test]
fn transfer_waits_for_a_snapshot_of_the_wallets_own_account() {
    match transfer(
        KEY_A,
        Ok("0:beef".to_string()),
        Some(Ok("payload".to_string())),
        Ok(Expiration::Timestamp(77)),
    ) {
        Preparation::FetchSnapshot {
            address,
            order: BuildOrder::Transfer { public_key, destination, amount, body, expiration },
        } => {
            assert_eq!(address, "0:feed");
            assert_eq!(public_key.to_hex_string(), KEY_A);
            assert_eq!(destination, "0:beef");
            assert_eq!(amount, 1_000);
            assert_eq!(body, Some("payload".to_string()));
            assert_eq!(expiration, Expiration::Timestamp(77));
        }
        other => panic!("unexpected: {:?}", other),
    }
}

#[test]
fn transfer_checks_the_public_key_first() {
    let (kind, _) = rejection(transfer(
        "nope",
        Err("bad address".to_string()),
        Some(Err("bad body".to_string())),
        Err("bad expiration".to_string()),
    ));
    assert_eq!(kind, ErrorKind::ConversionError);
}

#[test]
fn transfer_checks_the_destination_second() {
    let run = transfer(
        KEY_A,
        Err("bad address".to_string()),
        Some(Err("bad body".to_string())),
        Err("bad expiration".to_string()),
    );
    assert_eq!(rejection(run), (ErrorKind::ConversionError, "bad address".to_string()));
}

#[test]
fn transfer_checks_the_body_third() {
    let run = transfer(
        KEY_A,
        Ok("0:beef".to_string()),
        Some(Err("bad body".to_string())),
        Err("bad expiration".to_string()),
    );
    assert_eq!(rejection(run), (ErrorKind::EncodingError, "bad body".to_string()));
}

#[test]
fn transfer_checks_the_expiration_last() {
    let run = transfer(KEY_A, Ok("0:beef".to_string()), None, Err("bad expiration".to_string()));
    assert_eq!(rejection(run), (ErrorKind::ConversionError, "bad expiration".to_string()));
}

#[test]
fn transfer_for_an_absent_account_is_not_deployed() {
    let run = good_transfer().on_snapshot(Ok(RawContractState::NotExists));
    assert_eq!(
        rejection(run),
        (ErrorKind::WalletProtocolError(WalletFailure::NotDeployed), NOT_EXISTS.to_string())
    );
    assert_eq!(NOT_EXISTS, "Not exists");
}

#[test]
fn transfer_whose_builder_asks_for_deployment_is_deploy_first() {
    let run = good_transfer()
        .on_snapshot(Ok(RawContractState::Exists(42)))
        .on_built(Ok(TransferAction::DeployFirst));
    assert_eq!(
        rejection(run),
        (ErrorKind::WalletProtocolError(WalletFailure::DeployFirst), DEPLOY_FIRST.to_string())
    );
    assert_eq!(DEPLOY_FIRST, "Deploy first");
}

#[test]
fn transfer_hands_the_fetched_account_to_the_builder() {
    match good_transfer().on_snapshot(Ok(RawContractState::Exists(42))) {
        Preparation::BuildMessage { account, order: BuildOrder::Transfer { amount, .. } } => {
            assert_eq!(account, Some(42));
            assert_eq!(amount, 1_000);
        }
        other => panic!("unexpected: {:?}", other),
    }
}

#[test]
fn transfer_is_done_with_the_builders_message() {
    let run = good_transfer()
        .on_snapshot(Ok(RawContractState::Exists(42)))
        .on_built(Ok(TransferAction::Sign("message".to_string())));
    assert!(run.finished());
    assert!(matches!(run, Preparation::Done(m) if m == "message"));
}

#[test]
fn a_failed_fetch_is_a_transport_error() {
    let run = good_transfer().on_snapshot(Err("timeout".to_string()));
    assert_eq!(rejection(run), (ErrorKind::TransportError, "timeout".to_string()));
}

#[test]
fn a_failed_builder_is_a_wallet_error() {
    let run = good_transfer()
        .on_snapshot(Ok(RawContractState::Exists(1)))
        .on_built(Err("no funds".to_string()));
    assert_eq!(
        rejection(run),
        (ErrorKind::WalletProtocolError(WalletFailure::Plain), "no funds".to_string())
    );
}

#[test]
fn answers_at_the_wrong_step_change_nothing() {
    // The builder's answer does not move a run that waits for its snapshot.
    let run = good_transfer().on_built(Ok(TransferAction::Sign("early".to_string())));
    assert!(!run.finished());
    assert!(matches!(run, Preparation::FetchSnapshot { .. }));
    // A finished run stays finished.
    let done: Run = Preparation::Done("m".to_string());
    let done = done.on_snapshot(Ok(RawContractState::NotExists));
    let done = done.on_built(Err("late".to_string()));
    assert!(matches!(done, Preparation::Done(m) if m == "m"));
    let rejected = good_transfer().on_snapshot(Ok(RawContractState::NotExists));
    let rejected = rejected.on_built(Ok(TransferAction::Sign("late".to_string())));
    assert!(matches!(rejected, Preparation::Rejected(_)));
}

#[test]
fn deploy_needs_no_snapshot() {
    let run: Run = internal_ton_wallet_prepare_deploy(Ok(Expiration::Never));
    assert!(matches!(
        run,
        Preparation::BuildMessage {
            account: None,
            order: BuildOrder::Deploy { expiration: Expiration::Never }
        }
    ));
    let run: Run = internal_ton_wallet_prepare_deploy(Err("bad".to_string()));
    assert_eq!(rejection(run), (ErrorKind::ConversionError, "bad".to_string()));
}

#[test]
fn deploy_with_multiple_owners_keeps_order_and_duplicates() {
    let json = format!("[\"{}\",\"{}\",\"{}\"]", KEY_B, KEY_A, KEY_B);
    let run: Run = internal_ton_wallet_prepare_deploy_with_multiple_owners(
        Ok(Expiration::Timeout(30)),
        &json,
        2,
    );
    match run {
        Preparation::BuildMessage {
            account: None,
            order: BuildOrder::DeployMultisig { expiration, custodians, req_confirms },
        } => {
            assert_eq!(expiration, Expiration::Timeout(30));
            assert_eq!(req_confirms, 2);
            let texts: Vec<String> = custodians.iter().map(|k| k.to_hex_string()).collect();
            assert_eq!(texts, vec![KEY_B.to_string(), KEY_A.to_string(), KEY_B.to_string()]);
        }
        other => panic!("unexpected: {:?}", other),
    }
}

#[test]
fn deploy_with_multiple_owners_checks_the_expiration_first() {
    let run: Run =
        internal_ton_wallet_prepare_deploy_with_multiple_owners(Err("bad".to_string()), "x", 1);
    assert_eq!(rejection(run), (ErrorKind::ConversionError, "bad".to_string()));
}

#[test]
fn deploy_with_multiple_owners_refuses_bad_custodians() {
    let run: Run =
        internal_ton_wallet_prepare_deploy_with_multiple_owners(Ok(Expiration::Never), "{}", 1);
    assert_eq!(rejection(run).0, ErrorKind::ConversionError);
    let run: Run = internal_ton_wallet_prepare_deploy_with_multiple_owners(
        Ok(Expiration::Never),
        "[\"abc\"]",
        1,
    );
    assert_eq!(rejection(run).0, ErrorKind::ConversionError);
}

#[test]
fn a_refused_number_of_confirmations_is_a_wallet_error() {
    let json = format!("[\"{}\"]", KEY_A);
    let run: Run =
        internal_ton_wallet_prepare_deploy_with_multiple_owners(Ok(Expiration::Never), &json, 0);
    let run = run.on_built(Err("required confirms out of range".to_string()));
    assert_eq!(rejection(run).0, ErrorKind::WalletProtocolError(WalletFailure::Plain));
}

#[test]
fn confirm_reads_the_number_of_the_proposal() {
    let run: Run = internal_ton_wallet_prepare_confirm_transaction(
        &plain_wallet(),
        KEY_B,
        "18446744073709551615",
        Ok(Expiration::Never),
    );
    match run {
        Preparation::FetchSnapshot {
            address,
            order: BuildOrder::Confirm { public_key, transaction_id, expiration },
        } => {
            assert_eq!(address, "0:feed");
            assert_eq!(public_key.to_hex_string(), KEY_B);
            assert_eq!(transaction_id, u64::MAX);
            assert_eq!(expiration, Expiration::Never);
        }
        other => panic!("unexpected: {:?}", other),
    }
}

#[test]
fn confirm_refuses_a_number_that_is_none() {
    for text in ["", "abc", "18446744073709551616", "-1", " 1", "1.0"] {
        let run: Run = internal_ton_wallet_prepare_confirm_transaction(
            &plain_wallet(),
            KEY_B,
            text,
            Ok(Expiration::Never),
        );
        assert_eq!(rejection(run), (ErrorKind::ConversionError, INVALID_NUMBER.to_string()));
    }
}

#[test]
fn confirm_checks_key_then_number_then_expiration() {
    let run: Run = internal_ton_wallet_prepare_confirm_transaction(
        &plain_wallet(),
        "zz",
        "abc",
        Err("bad".to_string()),
    );
    assert_ne!(rejection(run).1, INVALID_NUMBER);
    let run: Run = internal_ton_wallet_prepare_confirm_transaction(
        &plain_wallet(),
        KEY_A,
        "abc",
        Err("bad".to_string()),
    );
    assert_eq!(rejection(run).1, INVALID_NUMBER);
    let run: Run = internal_ton_wallet_prepare_confirm_transaction(
        &plain_wallet(),
        KEY_A,
        "12",
        Err("bad".to_string()),
    );
    assert_eq!(rejection(run).1, "bad");
}

#[test]
fn confirm_for_an_absent_account_is_not_deployed() {
    let run: Run = internal_ton_wallet_prepare_confirm_transaction(
        &plain_wallet(),
        KEY_A,
        "12",
        Ok(Expiration::Never),
    );
    let run = run.on_snapshot(Ok(RawContractState::NotExists));
    assert_eq!(rejection(run).0, ErrorKind::WalletProtocolError(WalletFailure::NotDeployed));
}

#[test]
fn parse_u64_agrees_with_the_standard_reader() {
    for text in [
        "0", "7", "007", "+5", "+", "", "12a", "a12", "1 2", "18446744073709551615",
        "18446744073709551616", "99999999999999999999999", "-0", "++1", "1+", "٣",
    ] {
        let ours = parse_u64(text).ok();
        let theirs = text.parse::<u64>().ok();
        assert_eq!(ours, theirs, "text {:?}", text);
    }
    assert_eq!(parse_u64("1234567890").unwrap(), 1_234_567_890);
    assert_eq!(parse_u64("x").unwrap_err().kind, ErrorKind::ConversionError);
}

#[test]
fn payload_kind_follows_the_flag() {
    assert_eq!(payload_kind(false, true), None);
    assert_eq!(payload_kind(false, false), None);
    assert_eq!(payload_kind(true, true), Some(PayloadKind::Comment));
    assert_eq!(payload_kind(true, false), Some(PayloadKind::Blob));
}

#[test]
fn text_lists_are_read_and_written_as_json() {
    assert_eq!(
        parse_text_list("[\"a\", \"b\\n\"]").unwrap(),
        vec!["a".to_string(), "b\n".to_string()]
    );
    assert!(parse_text_list("[]").unwrap().is_empty());
    assert_eq!(parse_text_list("[1]").unwrap_err().kind, ErrorKind::ConversionError);
    assert_eq!(parse_text_list("not json").unwrap_err().kind, ErrorKind::ConversionError);
    assert_eq!(render_text_list(&None).unwrap(), "null");
    assert_eq!(
        render_text_list(&Some(vec!["a".to_string(), "b".to_string()])).unwrap(),
        "[\"a\",\"b\"]"
    );
}

#[test]
fn custodians_from_json_reads_the_keys() {
    let json = format!("[\"{}\"]", KEY_A);
    let keys = custodians_from_json(&json).unwrap();
    assert_eq!(keys.len(), 1);
    assert_eq!(keys[0].to_hex_string(), KEY_A);
    assert!(custodians_from_json("[\"00\"]").is_err());
    assert!(custodians_from_json("null").is_err());
}
