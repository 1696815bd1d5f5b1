use transport_chain::block_payload::{
    BlockData, ConsumerBlockData, DistributorBlockData, ManufacturerBlockData, MetricData,
    PaymentInfo, ProductInfo, RawMaterialsProducerBlockData, ExportLocation, Resource, Resources,
    RetailerBlockData, StartTransportationData, SupplierBlockData,
};
use transport_chain::chain::{
    extract_payment_info, payment_info_of, validate_block_id, LedgerRecord, RecordPayload,
};
use transport_chain::error::Error;

fn s(x: &str) -> String {
    x.to_string()
}

fn pay(w: &str) -> PaymentInfo {
    PaymentInfo { wallet_address: s(w), smr_cost: s("1.5") }
}

fn res() -> Resource {
    Resource { previous_block: s("p"), transaction_receipt: s("r") }
}

fn ress() -> Resources {
    Resources { previous_blocks: vec![s("p")], transaction_receipts: vec![s("r")] }
}

fn info() -> ProductInfo {
    ProductInfo::new(s("i"), None)
}

fn record(body: &str) -> LedgerRecord {
    LedgerRecord {
        payload: Some(RecordPayload::TaggedData { tag: b"t".to_vec(), data: body.as_bytes().to_vec() }),
    }
}

#[test]
fn block_id_of_66_characters_is_accepted() {
    let id = format!("0x{}", "a".repeat(64));
    assert_eq!(validate_block_id(&id), Ok(()));
}

#[test]
fn block_id_of_65_characters_is_rejected() {
    let id = format!("0x{}", "a".repeat(63));
    assert_eq!(validate_block_id(&id), Err(Error::InvalidBlockIdFormat));
}

#[test]
fn block_id_without_prefix_is_rejected() {
    let id = "a".repeat(66);
    assert_eq!(validate_block_id(&id), Err(Error::InvalidBlockIdFormat));
    let id = format!("1x{}", "a".repeat(64));
    assert_eq!(validate_block_id(&id), Err(Error::InvalidBlockIdFormat));
}

#[test]
fn payment_comes_from_the_five_paying_variants() {
    let cases = vec![
        (BlockData::RawMaterialsProducerBlockData(RawMaterialsProducerBlockData {
            provider_info: s("x"),
            material_info: info(),
            export_timestamp: s("t"),
            export_location: ExportLocation { longitude: s("1"), latitude: s("2") },
            payment_info: pay("raw"),
        }), "raw"),
        (BlockData::SupplierBlockData(SupplierBlockData { supplier_info: s("x"), processed_material_info: info(), resources: ress(), payment_info: pay("sup") }), "sup"),
        (BlockData::ManufacturerBlockData(ManufacturerBlockData { manufacturer_info: s("x"), product_info: info(), resources: ress(), payment_info: pay("man") }), "man"),
        (BlockData::DistributorBlockData(DistributorBlockData { distributor_info: s("x"), product_distribution_info: info(), resource: res(), payment_info: pay("dis") }), "dis"),
        (BlockData::RetailerBlockData(RetailerBlockData { retailer_info: s("x"), product_retail_info: info(), payment_info: pay("ret"), resource: res() }), "ret"),
    ];
    for (d, w) in cases {
        assert_eq!(payment_info_of(d), Ok(pay(w)));
    }
}

#[test]
fn payment_is_refused_for_other_variants() {
    let cases = vec![
        BlockData::BasicBlockData(s("x")),
        BlockData::ConsumerBlockData(ConsumerBlockData { consumer_info: s("c"), resource: res() }),
        BlockData::StartTransportationData(StartTransportationData::new(s("c"), info(), s("t"), s("p"))),
        BlockData::MetricData(MetricData::new(s("Temperature"), s("1.00"), s("Celsius"), s("t"), s("p"))),
    ];
    for d in cases {
        assert_eq!(payment_info_of(d), Err(Error::UnsupportedPayloadForPaymentExtraction));
    }
}

#[test]
fn extract_from_a_producer_record() {
    let rec = record(r#"{"blockType":"t","data":{"providerInfo":"p","materialInfo":{"info":"i"},"exportTimestamp":"ts","exportLocation":{"longitude":1,"latitude":2},"paymentInfo":{"walletAddress":"abc","cost":12.5}}}"#);
    assert_eq!(
        extract_payment_info(&rec),
        Ok(PaymentInfo { wallet_address: s("abc"), smr_cost: s("12.5") })
    );
}

#[test]
fn extract_from_a_record_without_body() {
    assert_eq!(extract_payment_info(&LedgerRecord { payload: None }), Err(Error::MissingPayload));
}

#[test]
fn extract_from_another_transport_kind() {
    let rec = LedgerRecord { payload: Some(RecordPayload::Other) };
    assert_eq!(extract_payment_info(&rec), Err(Error::UnexpectedTransportType));
}

#[test]
fn extract_from_a_malformed_body() {
    assert_eq!(extract_payment_info(&record("{oops")), Err(Error::MalformedPayload));
}

#[test]
fn extract_from_a_metric_record() {
    let rec = record(r#"{"blockType":"t","data":{"metricType":"Humidity","metricValue":40,"measurementUnit":"%","timestamp":"t","previousBlock":"p"}}"#);
    assert_eq!(extract_payment_info(&rec), Err(Error::UnsupportedPayloadForPaymentExtraction));
}
