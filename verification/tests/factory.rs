use lite_rpc_tests::client::{
    confirm_outcome, confirm_request, CONFIRM_METHOD, LOCAL_LIGHT_RPC_ADDR,
};
use lite_rpc_tests::error::BenchError;
use lite_rpc_tests::factory::{
    create_transaction, generate_txs, signature_of, signature_outcome, signing_outcome,
    transfer_to, TRANSFER_LAMPORTS,
};
use solana_sdk::pubkey::Pubkey;
use solana_sdk::message::Message;
use solana_sdk::signature::{Keypair, Signer};
use solana_sdk::signer::SignerError;
use solana_sdk::system_instruction;
use solana_sdk::system_program;
use solana_sdk::transaction::Transaction;

#[test]
fn transaction_is_a_signed_transfer_from_the_payer() {
    let payer = Keypair::new();
    let blockhash = [7u8; 32];
    let tx = create_transaction(&payer, &blockhash).unwrap();

    assert!(tx.is_signed());
    assert!(tx.verify().is_ok());
    assert_eq!(tx.signatures.len(), 1);
    assert_eq!(tx.message.recent_blockhash, solana_sdk::hash::Hash::new_from_array(blockhash));
    assert_eq!(tx.message.account_keys.len(), 3);
    assert_eq!(tx.message.account_keys[0], payer.pubkey());
    assert_eq!(tx.message.account_keys[2], system_program::id());
    assert_eq!(tx.message.header.num_required_signatures, 1);
    assert_eq!(tx.message.instructions.len(), 1);

    let to = tx.message.account_keys[1];
    let expected = system_instruction::transfer(&payer.pubkey(), &to, 1_000_000);
    assert_eq!(tx.message.instructions[0].data, expected.data);
    assert_eq!(TRANSFER_LAMPORTS, 1_000_000);
    let other = system_instruction::transfer(&payer.pubkey(), &to, 1_000_001);
    assert_ne!(tx.message.instructions[0].data, other.data);
}

#[test]
fn transactions_are_distinct() {
    let payer = Keypair::new();
    let blockhash = [1u8; 32];
    let first = create_transaction(&payer, &blockhash).unwrap();
    let second = create_transaction(&payer, &blockhash).unwrap();
    assert_ne!(first.message.account_keys[1], second.message.account_keys[1]);
    assert_ne!(first.signatures[0], second.signatures[0]);
    assert_ne!(signature_of(&first), signature_of(&second));
}

#[test]
fn generated_transactions_share_the_blockhash() {
    let payer = Keypair::new();
    let blockhash = [9u8; 32];
    let txs = generate_txs(5, &payer, &blockhash).unwrap();
    assert_eq!(txs.len(), 5);
    for tx in &txs {
        assert!(tx.verify().is_ok());
        assert_eq!(tx.message.recent_blockhash, solana_sdk::hash::Hash::new_from_array(blockhash));
        assert_eq!(tx.message.account_keys[0], payer.pubkey());
    }
    for i in 0..txs.len() {
        for j in 0..i {
            assert_ne!(txs[i].signatures[0], txs[j].signatures[0]);
        }
    }
    assert_eq!(generate_txs(0, &payer, &blockhash).unwrap().len(), 0);
}

#[test]
fn signature_text_is_base58_of_the_first_signature() {
    let payer = Keypair::new();
    let tx = create_transaction(&payer, &[2u8; 32]).unwrap();
    assert_eq!(signature_of(&tx), Ok(tx.signatures[0].to_string()));

    let unsigned = Transaction::new_unsigned(Message::new(&[], None));
    assert!(unsigned.signatures.is_empty());
    assert_eq!(signature_of(&unsigned), Err(BenchError::Signing));
    assert_eq!(signature_outcome(&Vec::new()), Err(BenchError::Signing));
    assert_eq!(
        signature_outcome(&vec!["s".to_string(), "t".to_string()]),
        Ok("s".to_string())
    );
}

#[test]
fn signature_of_takes_the_first_of_several() {
    let payer = Keypair::new();
    let mut tx = create_transaction(&payer, &[2u8; 32]).unwrap();
    let own = tx.signatures[0];
    tx.signatures.push(solana_sdk::signature::Signature::default());
    assert_eq!(signature_of(&tx), Ok(own.to_string()));
    tx.signatures.swap(0, 1);
    assert_eq!(
        signature_of(&tx),
        Ok(solana_sdk::signature::Signature::default().to_string())
    );
}

#[test]
fn transfer_goes_to_the_account_named() {
    let payer = Keypair::new();
    let to = Pubkey::new_from_array([5u8; 32]);
    let blockhash = [4u8; 32];
    let tx = transfer_to(&payer, &to, &blockhash).unwrap();
    assert!(tx.verify().is_ok());
    assert_eq!(tx.message.account_keys[0], payer.pubkey());
    assert_eq!(tx.message.account_keys[1], to);
    assert_eq!(tx.message.recent_blockhash, solana_sdk::hash::Hash::new_from_array(blockhash));
    let expected = system_instruction::transfer(&payer.pubkey(), &to, 1_000_000);
    let message = Message::new(&[expected], Some(&payer.pubkey()));
    let by_hand = Transaction::new(&[&payer], message, tx.message.recent_blockhash);
    assert_eq!(tx, by_hand);
    assert_eq!(transfer_to(&payer, &to, &blockhash), Ok(by_hand));
    assert!(signature_of(&tx).is_ok());
}

#[test]
fn failed_signing_fails_the_run() {
    let payer = Keypair::new();
    let tx = create_transaction(&payer, &[2u8; 32]).unwrap();
    assert_eq!(signing_outcome(tx.clone(), Ok(())), Ok(tx.clone()));
    assert_eq!(
        signing_outcome(tx, Err(SignerError::KeypairPubkeyMismatch)),
        Err(BenchError::Signing)
    );
}

#[test]
fn confirm_request_names_the_method_and_the_signature() {
    let sig = "5VERv8NMvzbJMEkV8xnrLkEaWRtSz9CosKDYjCJjBRnbJLgp".to_string();
    let request = confirm_request(&sig);
    assert_eq!(request.method, "confirmTransaction");
    assert_eq!(request.params, "[\"5VERv8NMvzbJMEkV8xnrLkEaWRtSz9CosKDYjCJjBRnbJLgp\"]");
    let parsed: serde_json::Value = serde_json::from_str(&request.params).unwrap();
    assert_eq!(parsed, serde_json::Value::Array(vec![serde_json::Value::String(sig)]));
    assert_eq!(confirm_request(&"a\"b".to_string()).params, "[\"a\\\"b\"]");
    assert_eq!(confirm_request(&String::new()).params, "[\"\"]");
    assert_eq!(CONFIRM_METHOD, "confirmTransaction");
    assert_eq!(LOCAL_LIGHT_RPC_ADDR, "http://127.0.0.1:8890");
}

#[test]
fn failed_poll_counts_as_not_confirmed() {
    assert!(confirm_outcome(Some(true)));
    assert!(!confirm_outcome(Some(false)));
    assert!(!confirm_outcome(None));
}
