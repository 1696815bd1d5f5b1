//! Record identifiers, fetched records, and the payment a chain root carries.
use vstd::prelude::*;
use crate::block_payload::{BlockData, DataV, PaymentInfo, PaymentInfoV, TextV};
use crate::codec::{decode, tagged_of_body};
use crate::error::Error;

verus! {

/// The length of a record identifier, in characters.
pub const BLOCK_ID_LEN: usize = 66;

/// A record identifier: `0x` followed by 64 further characters.
pub open spec fn is_block_id(s: TextV) -> bool {
    &&& s.len() == BLOCK_ID_LEN
    &&& s[0] == '0'
    &&& s[1] == 'x'
}

/// Checks the shape of a record identifier.
pub fn validate_block_id(s: &str) -> (r: Result<(), Error>)
    ensures
        r is Ok <==> is_block_id(s@),
        r is Err ==> r == Err::<(), Error>(Error::InvalidBlockIdFormat),
{
    let n = s.unicode_len();
    if n != BLOCK_ID_LEN {
        return Err(Error::InvalidBlockIdFormat);
    }
    if s.get_char(0) != '0' || s.get_char(1) != 'x' {
        return Err(Error::InvalidBlockIdFormat);
    }
    Ok(())
}

/// The body of a fetched record, by transport kind.
#[derive(Debug, Clone, PartialEq, Eq)]
pub enum RecordPayload {
    /// Tagged data: a tag and a body, each as bytes.
    TaggedData { tag: Vec<u8>, data: Vec<u8> },
    /// Any other kind of transport payload.
    Other,
}

/// A record as fetched from the ledger.
#[derive(Debug, Clone, PartialEq, Eq)]
pub struct LedgerRecord {
    pub payload: Option<RecordPayload>,
}

/// The payment a payload carries: only the producer, supplier, manufacturer,
/// distributor and retailer variants carry one.
pub open spec fn payment_of(d: DataV) -> Option<PaymentInfoV> {
    match d {
        DataV::RawMaterialsProducer(_, _, _, _, p) => Some(p),
        DataV::Supplier(_, _, _, p) => Some(p),
        DataV::Manufacturer(_, _, _, p) => Some(p),
        DataV::Distributor(_, _, _, p) => Some(p),
        DataV::Retailer(_, _, p, _) => Some(p),
        _ => None,
    }
}

/// Takes the payment out of a payload.
pub fn payment_info_of(data: BlockData) -> (r: Result<PaymentInfo, Error>)
    ensures
        r matches Ok(p) ==> payment_of(data@) == Some(p@),
        r is Err ==> r == Err::<PaymentInfo, Error>(Error::UnsupportedPayloadForPaymentExtraction)
            && payment_of(data@) is None,
{
    match data {
        BlockData::RawMaterialsProducerBlockData(d) => Ok(d.payment_info),
        BlockData::SupplierBlockData(d) => Ok(d.payment_info),
        BlockData::ManufacturerBlockData(d) => Ok(d.payment_info),
        BlockData::DistributorBlockData(d) => Ok(d.payment_info),
        BlockData::RetailerBlockData(d) => Ok(d.payment_info),
        _ => Err(Error::UnsupportedPayloadForPaymentExtraction),
    }
}

/// What extracting the payment from a record gives.
pub open spec fn payment_outcome(rec: LedgerRecord) -> Result<PaymentInfoV, Error> {
    match rec.payload {
        None => Err(Error::MissingPayload),
        Some(RecordPayload::Other) => Err(Error::UnexpectedTransportType),
        Some(RecordPayload::TaggedData { data, .. }) => match tagged_of_body(data@) {
            None => Err(Error::MalformedPayload),
            Some((_, d)) => match payment_of(d) {
                Some(p) => Ok(p),
                None => Err(Error::UnsupportedPayloadForPaymentExtraction),
            },
        },
    }
}

/// Decodes a fetched record and takes the payment out of its payload.
pub fn extract_payment_info(record: &LedgerRecord) -> (r: Result<PaymentInfo, Error>)
    ensures
        r matches Ok(p) ==> payment_outcome(*record) == Ok::<PaymentInfoV, Error>(p@),
        r matches Err(e) ==> payment_outcome(*record) == Err::<PaymentInfoV, Error>(e),
{
    match &record.payload {
        None => Err(Error::MissingPayload),
        Some(RecordPayload::Other) => Err(Error::UnexpectedTransportType),
        Some(RecordPayload::TaggedData { data, .. }) => {
            let payload = decode(data.as_slice())?;
            payment_info_of(payload.data)
        },
    }
}

} // verus!
