use wallet_session::error::{ErrorKind, SigningFailure, WalletFailure, UNKNOWN_SIGNER};
use wallet_session::keys::parse_public_key;
use wallet_session::model::{
    ContractState, PendingTransaction, TonWalletDetails, UInt256, WalletType,
};
use wallet_session::submit::{
    internal_ton_wallet_estimate_fees, internal_ton_wallet_send, placeholder_signature,
    select_signer, Estimation, SignInput, Submission, SIGNATURE_LENGTH,
};
use wallet_session::wallet::{Listener, Notification, Subscribed, Wallet};

const KEY_A: &str = "d75a980182b10ab7d54bfed3c964073a0ee172f3daa62325af021a68f707511a";

type Send = Submission<String, String, u8, u16>;
type Fees = Estimation<String, String>;

fn wallet(port: Option<i64>) -> Wallet {
    Wallet::subscribe(
        Subscribed {
            workchain: 0,
            address: "0:feed".to_string(),
            public_key: parse_public_key(KEY_A).unwrap(),
            wallet_type: WalletType::WalletV3,
            details: TonWalletDetails {
                requires_separate_deploy: false,
                min_amount: 0,
                supports_payload: true,
                supports_multiple_owners: false,
                expiration_time: 60,
            },
            contract_state: ContractState { balance: 5, is_deployed: true, last_transaction_id: None },
            custodians: None,
            unconfirmed_transactions: Vec::new(),
        },
        Listener { port },
    )
    .unwrap()
}

fn in_flight(n: u8) -> PendingTransaction {
    PendingTransaction { message_hash: UInt256 { bytes: [n; 32] }, expire_at: 100 }
}

#[test]
fn placeholder_signature_is_sixty_four_zeros() {
    let s = placeholder_signature();
    assert_eq!(s.len(), SIGNATURE_LENGTH);
    assert_eq!(SIGNATURE_LENGTH, 64);
    assert!(s.iter().all(|b| *b == 0));
}

#[test]
fn select_signer_prefers_the_encrypted_key() {
    assert!(matches!(select_signer(Some(1u8), Some(2u16)), Ok(SignInput::EncryptedKey(1))));
    assert!(matches!(select_signer(Some(1u8), None::<u16>), Ok(SignInput::EncryptedKey(1))));
    assert!(matches!(select_signer(None::<u8>, Some(2u16)), Ok(SignInput::DerivedKey(2))));
}

#[test]
fn select_signer_without_a_scheme_is_unknown_signer() {
    let err = select_signer(None::<u8>, None::<u16>).unwrap_err();
    assert_eq!(err.kind, ErrorKind::SigningError(SigningFailure::UnknownSigner));
    assert_eq!(err.info, UNKNOWN_SIGNER);
    assert_eq!(err.to_string(), "Unknown signer");
}

#[test]
fn estimate_fees_works_on_a_copy_with_the_placeholder() {
    let message = "unsigned".to_string();
    let run: Fees = internal_ton_wallet_estimate_fees(&message);
    match &run {
        Estimation::Finalize { message: copy, signature } => {
            assert_eq!(copy, "unsigned");
            assert_eq!(signature, &[0u8; 64]);
        }
        other => panic!("unexpected: {:?}", other),
    }
    assert_eq!(message, "unsigned");
    let run = run.on_finalized(Ok("signed".to_string()));
    assert!(matches!(&run, Estimation::Estimate { signed } if signed == "signed"));
    let run = run.on_estimated(Ok(12_345));
    assert!(matches!(run.outcome(), Some(Ok(12_345))));
}

#[test]
fn estimate_fees_twice_gives_the_same_and_touches_nothing() {
    let message = "unsigned".to_string();
    let mut fees = Vec::new();
    for _ in 0..2 {
        let run: Fees = internal_ton_wallet_estimate_fees(&message);
        let run = run.on_finalized(Ok("signed".to_string())).on_estimated(Ok(77));
        fees.push(run.outcome().unwrap().unwrap());
    }
    assert_eq!(fees, vec![77, 77]);
    assert_eq!(message, "unsigned");
}

#[test]
fn estimate_fees_failures_are_wallet_errors() {
    let message = "unsigned".to_string();
    let run: Fees = internal_ton_wallet_estimate_fees(&message);
    let err = run.on_finalized(Err("cannot sign".to_string())).outcome().unwrap().unwrap_err();
    assert_eq!(err.kind, ErrorKind::WalletProtocolError(WalletFailure::Plain));
    assert_eq!(err.info, "cannot sign");

    let run: Fees = internal_ton_wallet_estimate_fees(&message);
    let run = run.on_finalized(Ok("signed".to_string())).on_estimated(Err("no route".to_string()));
    let err = run.outcome().unwrap().unwrap_err();
    assert_eq!(err.kind, ErrorKind::WalletProtocolError(WalletFailure::Plain));
    assert_eq!(err.info, "no route");
}

#[test]
fn an_estimation_that_has_not_ended_has_no_outcome() {
    let message = "unsigned".to_string();
    let run: Fees = internal_ton_wallet_estimate_fees(&message);
    // The fee comes too early: the run does not move.
    let run = run.on_estimated(Ok(1));
    assert!(matches!(run, Estimation::Finalize { .. }));
    assert!(run.outcome().is_none());
}

#[test]
fn send_with_unknown_parameters_is_unknown_signer_and_touches_nothing() {
    let mut w = wallet(Some(1));
    let message = "unsigned".to_string();
    let run: Send = internal_ton_wallet_send(&message, None, None);
    match &run {
        Submission::Rejected(e) => {
            assert_eq!(e.kind, ErrorKind::SigningError(SigningFailure::UnknownSigner));
            assert_eq!(e.info, UNKNOWN_SIGNER);
        }
        other => panic!("unexpected: {:?}", other),
    }
    // Whatever comes in afterwards, the run stays rejected and the wallet as it was.
    let run = run.begin_signing().0.on_signed(Ok([1u8; 64])).on_finalized(Ok("signed".to_string()));
    let (run, told) = run.on_sent(&mut w, Ok(in_flight(1)));
    assert!(told.is_empty());
    assert!(w.pending_transactions().is_empty());
    let err = run.outcome().unwrap().unwrap_err();
    assert_eq!(err.kind, ErrorKind::SigningError(SigningFailure::UnknownSigner));
    assert_eq!(message, "unsigned");
}

#[test]
fn send_puts_exactly_one_message_in_flight() {
    let mut w = wallet(Some(6));
    let message = "unsigned".to_string();
    let run: Send = internal_ton_wallet_send(&message, None, Some(9));
    match &run {
        Submission::Sign { message: copy, input } => {
            assert_eq!(copy, "unsigned");
            assert!(matches!(input, SignInput::DerivedKey(9)));
        }
        other => panic!("unexpected: {:?}", other),
    }
    let (run, input) = run.begin_signing();
    assert!(matches!(input, Some(SignInput::DerivedKey(9))));
    assert!(matches!(&run, Submission::Signing { message } if message == "unsigned"));
    // The parameters are handed out once.
    let (run, again) = run.begin_signing();
    assert!(again.is_none());
    let run = run.on_signed(Ok([3u8; 64]));
    match &run {
        Submission::Finalize { message: copy, signature } => {
            assert_eq!(copy, "unsigned");
            assert_eq!(signature, &[3u8; 64]);
        }
        other => panic!("unexpected: {:?}", other),
    }
    let run = run.on_finalized(Ok("signed".to_string()));
    assert!(matches!(&run, Submission::Send { signed } if signed == "signed"));
    assert!(w.pending_transactions().is_empty());
    let (run, told) = run.on_sent(&mut w, Ok(in_flight(4)));
    assert_eq!(w.pending_transactions(), &vec![in_flight(4)]);
    assert_eq!(told.len(), 1);
    assert_eq!(told[0].port, 6);
    assert!(matches!(told[0].notification, Notification::StateChanged(_)));
    assert_eq!(run.outcome().unwrap().unwrap(), in_flight(4));
    assert_eq!(message, "unsigned");
}

#[test]
fn send_failures_leave_the_wallet_alone() {
    let message = "unsigned".to_string();

    let mut w = wallet(Some(6));
    let run: Send = internal_ton_wallet_send(&message, Some(1), None);
    let run = run.begin_signing().0.on_signed(Err("wrong password".to_string()));
    let (run, told) = run.on_sent(&mut w, Ok(in_flight(1)));
    let err = run.outcome().unwrap().unwrap_err();
    assert_eq!(err.kind, ErrorKind::SigningError(SigningFailure::Crypto));
    assert_eq!(err.info, "wrong password");
    assert!(told.is_empty());
    assert!(w.pending_transactions().is_empty());

    let run: Send = internal_ton_wallet_send(&message, Some(1), None);
    let run = run.begin_signing().0.on_signed(Ok([0u8; 64])).on_finalized(Err("bad signature".to_string()));
    let err = run.outcome().unwrap().unwrap_err();
    assert_eq!(err.kind, ErrorKind::SigningError(SigningFailure::Crypto));
    assert_eq!(err.info, "bad signature");

    let run: Send = internal_ton_wallet_send(&message, Some(1), None);
    let run = run.begin_signing().0.on_signed(Ok([0u8; 64])).on_finalized(Ok("signed".to_string()));
    let (run, told) = run.on_sent(&mut w, Err("rejected by node".to_string()));
    let err = run.outcome().unwrap().unwrap_err();
    assert_eq!(err.kind, ErrorKind::WalletProtocolError(WalletFailure::Plain));
    assert_eq!(err.info, "rejected by node");
    assert!(told.is_empty());
    assert!(w.pending_transactions().is_empty());
}

#[test]
fn a_submission_that_has_not_ended_has_no_outcome() {
    let mut w = wallet(None);
    let message = "unsigned".to_string();
    let run: Send = internal_ton_wallet_send(&message, Some(1), None);
    // The wallet's answer comes too early: nothing moves, nothing is recorded.
    let (run, told) = run.on_sent(&mut w, Ok(in_flight(1)));
    assert!(told.is_empty());
    assert!(w.pending_transactions().is_empty());
    assert!(matches!(run, Submission::Sign { .. }));
    assert!(run.outcome().is_none());
}
