use transport_chain::block_payload::{
    BlockData, BlockPayload, ConsumerBlockData, DeliveredTransportationData, DistributorBlockData,
    ExportLocation, ManufacturerBlockData, MetricData, PaymentInfo, ProductInfo,
    RawMaterialsProducerBlockData, Resource, Resources, RetailerBlockData,
    StartTransportationData, SupplierBlockData,
};
use transport_chain::codec::{data_from_tree, data_to_tree, decode, encode};
use transport_chain::error::Error;
use transport_chain::json::JsonValue;

fn s(x: &str) -> String {
    x.to_string()
}

fn product(info: &str, cid: Option<&str>) -> ProductInfo {
    ProductInfo::new(s(info), cid.map(s))
}

fn payment(wallet: &str, cost: &str) -> PaymentInfo {
    PaymentInfo { wallet_address: s(wallet), smr_cost: s(cost) }
}

fn resource() -> Resource {
    Resource { previous_block: s("0xprev"), transaction_receipt: s("receipt") }
}

fn resources() -> Resources {
    Resources {
        previous_blocks: vec![s("0xa"), s("0xb")],
        transaction_receipts: vec![s("ra"), s("rb")],
    }
}

fn all_variants() -> Vec<BlockData> {
    vec![
        BlockData::BasicBlockData(s("plain text")),
        BlockData::RawMaterialsProducerBlockData(RawMaterialsProducerBlockData {
            provider_info: s("provider"),
            material_info: product("cotton", Some("cid1")),
            export_timestamp: s("2024-01-01"),
            export_location: ExportLocation { longitude: s("12.5"), latitude: s("-3.25") },
            payment_info: payment("abc", "12.5"),
        }),
        BlockData::SupplierBlockData(SupplierBlockData {
            supplier_info: s("supplier"),
            processed_material_info: product("thread", None),
            resources: resources(),
            payment_info: payment("w2", "3"),
        }),
        BlockData::ManufacturerBlockData(ManufacturerBlockData {
            manufacturer_info: s("maker"),
            product_info: product("shirt", None),
            resources: resources(),
            payment_info: payment("w3", "4.5"),
        }),
        BlockData::DistributorBlockData(DistributorBlockData {
            distributor_info: s("distributor"),
            product_distribution_info: product("boxes", Some("cid2")),
            resource: resource(),
            payment_info: payment("w4", "5"),
        }),
        BlockData::RetailerBlockData(RetailerBlockData {
            retailer_info: s("shop"),
            product_retail_info: product("shelf", None),
            payment_info: payment("w5", "6"),
            resource: resource(),
        }),
        BlockData::ConsumerBlockData(ConsumerBlockData { consumer_info: s("me"), resource: resource() }),
        BlockData::StartTransportationData(StartTransportationData::new(
            s("truck co"),
            product("load", None),
            s("t0"),
            s("0xroot"),
        )),
        BlockData::DeliveredTransportationData(DeliveredTransportationData::new(
            product("delivered", Some("cid3")),
            s("t1"),
            payment("w6", "7.25"),
            vec![s("0xt"), s("0xh")],
        )),
        BlockData::MetricData(MetricData::new(s("Temperature"), s("21.5"), s("Celsius"), s("t2"), s("0xp"))),
    ]
}

fn variant_name(d: &BlockData) -> &'static str {
    match d {
        BlockData::BasicBlockData(_) => "basic",
        BlockData::RawMaterialsProducerBlockData(_) => "raw",
        BlockData::SupplierBlockData(_) => "supplier",
        BlockData::ManufacturerBlockData(_) => "manufacturer",
        BlockData::DistributorBlockData(_) => "distributor",
        BlockData::RetailerBlockData(_) => "retailer",
        BlockData::ConsumerBlockData(_) => "consumer",
        BlockData::StartTransportationData(_) => "start",
        BlockData::DeliveredTransportationData(_) => "delivered",
        BlockData::MetricData(_) => "metric",
    }
}

fn tagged_body(tag: &str, data_json: &str) -> Vec<u8> {
    format!("{{\"blockType\":\"{}\",\"data\":{}}}", tag, data_json).into_bytes()
}

#[test]
fn tree_round_trip_every_variant() {
    for d in all_variants() {
        let t = data_to_tree(&d);
        assert_eq!(data_from_tree(&t), Some(d));
    }
}

#[test]
fn tree_variants_are_told_apart() {
    let names: Vec<&str> = all_variants().iter().map(variant_name).collect();
    for (i, d) in all_variants().into_iter().enumerate() {
        let back = data_from_tree(&data_to_tree(&d)).unwrap();
        assert_eq!(variant_name(&back), names[i]);
    }
}

#[test]
fn bytes_round_trip_every_variant() {
    for d in all_variants() {
        let p = BlockPayload { tag: s("Some Tag"), data: d.clone() };
        let (tag, body) = encode(&p).unwrap();
        assert_eq!(tag, b"Some Tag".to_vec());
        let decoded = decode(&body).unwrap();
        assert_eq!(decoded.block_type, "Some Tag");
        assert_eq!(decoded.data, d);
    }
}

#[test]
fn decode_prefers_block_type_over_tag() {
    let body = br#"{"blockType":"read","tag":"written","data":"x"}"#;
    assert_eq!(decode(body).unwrap().block_type, "read");
    let body = br#"{"tag":"written","data":"x"}"#;
    assert_eq!(decode(body).unwrap().block_type, "written");
}

#[test]
fn encode_writes_tag_then_data_only() {
    let p = BlockPayload { tag: s("T"), data: BlockData::BasicBlockData(s("hi")) };
    let (_, body) = encode(&p).unwrap();
    assert_eq!(String::from_utf8(body).unwrap(), r#"{"data":"hi","tag":"T"}"#);
}

#[test]
fn number_spelling_is_normalised() {
    let p = BlockPayload {
        tag: s("t"),
        data: BlockData::MetricData(MetricData::new(s("Temperature"), s("12.50"), s("Celsius"), s("t"), s("0xp"))),
    };
    let (_, body) = encode(&p).unwrap();
    match decode(&body).unwrap().data {
        BlockData::MetricData(m) => assert_eq!(m.metric_value, "12.5"),
        other => panic!("wrong variant {:?}", other),
    }
}

#[test]
fn encode_writes_camel_case_fields() {
    let p = BlockPayload {
        tag: s("Temperature Metric Tag"),
        data: BlockData::MetricData(MetricData::new(s("Temperature"), s("21.5"), s("Celsius"), s("t"), s("0xp"))),
    };
    let (_, body) = encode(&p).unwrap();
    let text = String::from_utf8(body).unwrap();
    assert!(text.contains("\"metricType\":\"Temperature\""));
    assert!(text.contains("\"metricValue\":21.5"));
    assert!(text.contains("\"previousBlock\":\"0xp\""));
}

#[test]
fn encode_rejects_a_bad_number_literal() {
    let p = BlockPayload {
        tag: s("t"),
        data: BlockData::MetricData(MetricData::new(s("Temperature"), s("warm"), s("Celsius"), s("t"), s("0xp"))),
    };
    assert_eq!(encode(&p), Err(Error::MalformedPayload));
}

#[test]
fn decode_reads_a_producer_record() {
    let body = tagged_body(
        "Raw",
        r#"{"providerInfo":"p","materialInfo":{"info":"i","fileReference":null},"exportTimestamp":"ts","exportLocation":{"longitude":1.5,"latitude":2},"paymentInfo":{"walletAddress":"abc","cost":12.5}}"#,
    );
    let r = decode(&body).unwrap();
    match r.data {
        BlockData::RawMaterialsProducerBlockData(d) => {
            assert_eq!(d.payment_info, payment("abc", "12.5"));
            assert_eq!(d.material_info, product("i", None));
            assert_eq!(d.export_location.latitude, "2");
        },
        other => panic!("wrong variant {:?}", other),
    }
}

#[test]
fn decode_plain_string_is_basic() {
    let r = decode(&tagged_body("b", "\"hello\"")).unwrap();
    assert_eq!(r.data, BlockData::BasicBlockData(s("hello")));
}

#[test]
fn decode_ignores_unknown_fields() {
    let r = decode(&tagged_body(
        "c",
        r#"{"consumerInfo":"me","extra":1,"resource":{"previousBlock":"p","transactionReceipt":"r"}}"#,
    ))
    .unwrap();
    assert_eq!(r.data, BlockData::ConsumerBlockData(ConsumerBlockData { consumer_info: s("me"), resource: Resource { previous_block: s("p"), transaction_receipt: s("r") } }));
}

#[test]
fn decode_rejects_invalid_utf8() {
    assert_eq!(decode(&[0xff, 0xfe, 0x00]), Err(Error::MalformedPayload));
}

#[test]
fn decode_rejects_non_json() {
    assert_eq!(decode(b"not json"), Err(Error::MalformedPayload));
}

#[test]
fn decode_rejects_unknown_shape() {
    assert_eq!(decode(&tagged_body("x", r#"{"nothing":"here"}"#)), Err(Error::MalformedPayload));
    assert_eq!(decode(&tagged_body("x", "12")), Err(Error::MalformedPayload));
}

#[test]
fn decode_rejects_missing_block_type() {
    assert_eq!(decode(br#"{"data":"x"}"#), Err(Error::MalformedPayload));
}

#[test]
fn decode_rejects_wrongly_typed_field() {
    let body = tagged_body(
        "m",
        r#"{"metricType":"Temperature","metricValue":"hot","measurementUnit":"C","timestamp":"t","previousBlock":"p"}"#,
    );
    assert_eq!(decode(&body), Err(Error::MalformedPayload));
}

#[test]
fn tree_of_metric_holds_number() {
    let d = BlockData::MetricData(MetricData::new(s("Humidity"), s("55.10"), s("%"), s("t"), s("0xp")));
    match data_to_tree(&d) {
        JsonValue::Object(o) => {
            let v = o.iter().find(|(k, _)| k == "metricValue").unwrap();
            assert!(matches!(&v.1, JsonValue::Number(n) if n == "55.10"));
        },
        _ => panic!("not an object"),
    }
}

#[test]
fn decode_rejects_unpaired_links() {
    let body = tagged_body(
        "s",
        r#"{"supplierInfo":"s","processedMaterialInfo":{"info":"i"},"resources":{"previousBlocks":["a","b"],"transactionReceipts":["r"]},"paymentInfo":{"walletAddress":"w","cost":1}}"#,
    );
    assert_eq!(decode(&body), Err(Error::MalformedPayload));
}

#[test]
fn links_paired_checks_lengths() {
    let mut d = SupplierBlockData {
        supplier_info: s("s"),
        processed_material_info: product("i", None),
        resources: resources(),
        payment_info: payment("w", "1"),
    };
    assert!(BlockData::SupplierBlockData(d.clone()).links_paired());
    d.resources.transaction_receipts.pop();
    assert!(!BlockData::SupplierBlockData(d).links_paired());
    assert!(BlockData::BasicBlockData(s("x")).links_paired());
}
