use alloy_rlp::Encodable;
use kona_node::driver::DriverError;
use kona_node::txs::decode_transactions;
use op_alloy_consensus::{OpTxEnvelope, TxDeposit};

fn encoded_deposit() -> Vec<u8> {
    let envelope = OpTxEnvelope::from(TxDeposit::default());
    let mut buf = Vec::new();
    envelope.encode(&mut buf);
    buf
}

#[test]
fn encoded_deposits_decode() {
    let txs = Some(vec![encoded_deposit(), encoded_deposit()]);
    let decoded = decode_transactions(&txs).unwrap();
    assert_eq!(decoded.len(), 2);
    assert!(decoded[0].is_deposit());
}

#[test]
fn garbage_fails_with_rlp_error() {
    let txs = Some(vec![encoded_deposit(), vec![0x01]]);
    assert!(matches!(decode_transactions(&txs), Err(DriverError::Rlp)));
    let empty = Some(vec![vec![]]);
    assert!(matches!(decode_transactions(&empty), Err(DriverError::Rlp)));
}

#[test]
fn no_transactions_decode_to_none() {
    assert_eq!(decode_transactions(&None).unwrap().len(), 0);
    assert_eq!(decode_transactions(&Some(vec![])).unwrap().len(), 0);
}
