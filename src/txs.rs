//! Decoding the encoded transactions of a derived block.

use vstd::prelude::*;

use op_alloy_consensus::OpTxEnvelope;

use crate::driver::DriverError;

verus! {

/// An OP Stack transaction, decoded.
#[verifier::external_type_specification]
#[verifier::external_body]
pub struct ExOpTxEnvelope(OpTxEnvelope);

/// A decoding failure.
#[verifier::external_type_specification]
#[verifier::external_body]
pub struct ExRlpError(alloy_rlp::Error);

/// Whether `b` decodes as an OP Stack transaction.
pub uninterp spec fn op_tx_decodes(b: Seq<u8>) -> bool;

/// Relies on `<OpTxEnvelope as alloy_rlp::Decodable>::decode`: whether it succeeds depends on
/// the bytes alone, and empty input is too short for the header it reads first.
#[verifier::external_body]
fn decode_op_tx(bytes: &Vec<u8>) -> (r: Result<OpTxEnvelope, alloy_rlp::Error>)
    ensures
        r is Ok <==> op_tx_decodes(bytes@),
        bytes@.len() == 0 ==> r is Err,
{
    let mut buf: &[u8] = bytes.as_slice();
    <OpTxEnvelope as alloy_rlp::Decodable>::decode(&mut buf)
}

/// Every transaction of `txs` decodes.
pub open spec fn all_decode(txs: Seq<Vec<u8>>) -> bool {
    forall|i: int| 0 <= i < txs.len() ==> op_tx_decodes(#[trigger] txs[i]@)
}

fn decode_all(t: &Vec<Vec<u8>>) -> (r: Result<Vec<OpTxEnvelope>, DriverError>)
    ensures
        r is Ok <==> all_decode(t@),
        r matches Ok(d) ==> d@.len() == t@.len(),
        r is Err ==> r == Err::<Vec<OpTxEnvelope>, DriverError>(DriverError::Rlp),
{
    let mut out: Vec<OpTxEnvelope> = Vec::new();
    let mut i: usize = 0;
    while i < t.len()
        invariant
            i <= t@.len(),
            out@.len() == i,
            forall|j: int| 0 <= j < i ==> op_tx_decodes(#[trigger] t@[j]@),
        decreases t@.len() - i,
    {
        match decode_op_tx(&t[i]) {
            Ok(tx) => out.push(tx),
            Err(_) => {
                assert(!op_tx_decodes(t@[i as int]@));
                return Err(DriverError::Rlp);
            },
        }
        i = i + 1;
    }
    Ok(out)
}

/// Decodes the transactions the attributes carried, none standing for an empty list. Fails
/// with [`DriverError::Rlp`] exactly when one of them does not decode.
pub fn decode_transactions(txs: &Option<Vec<Vec<u8>>>) -> (r: Result<Vec<OpTxEnvelope>, DriverError>)
    ensures
        txs matches Some(t) ==> (r is Ok <==> all_decode(t@)),
        txs matches Some(t) ==> (r matches Ok(d) ==> d@.len() == t@.len()),
        txs is None ==> (r matches Ok(d) && d@.len() == 0),
        r is Err ==> r == Err::<Vec<OpTxEnvelope>, DriverError>(DriverError::Rlp),
{
    match txs {
        None => Ok(Vec::new()),
        Some(t) => decode_all(t),
    }
}

} // verus!
