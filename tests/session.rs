use transport_chain::block_payload::{BlockData, PaymentInfo, ProductInfo};
use transport_chain::chain::{LedgerRecord, RecordPayload};
use transport_chain::codec::{decode, encode};
use transport_chain::error::Error;
use transport_chain::session::{MetricKind, Phase, Session};

fn s(x: &str) -> String {
    x.to_string()
}

fn root_id() -> String {
    format!("0x{}", "a".repeat(64))
}

fn producer_record() -> LedgerRecord {
    let body = r#"{"blockType":"Raw Materials","data":{"providerInfo":"farm","materialInfo":{"info":"cotton","fileReference":null},"exportTimestamp":"t","exportLocation":{"longitude":1.0,"latitude":2.0},"paymentInfo":{"walletAddress":"abc","cost":12.5}}}"#;
    LedgerRecord {
        payload: Some(RecordPayload::TaggedData { tag: b"Raw Materials".to_vec(), data: body.as_bytes().to_vec() }),
    }
}

fn sampling_session(start_id: &str) -> Session {
    let mut session = Session::new(root_id()).unwrap();
    session.accept_start_block(&producer_record()).unwrap();
    session.on_transportation_started(Ok(s(start_id)));
    session
}

#[test]
fn whole_session_with_no_sampling_time() {
    let mut session = Session::new(root_id()).unwrap();
    assert_eq!(session.phase, Phase::AwaitingStartBlock);

    session.accept_start_block(&producer_record()).unwrap();
    assert_eq!(session.phase, Phase::TransportationStarted);
    let paid = PaymentInfo { wallet_address: s("abc"), smr_cost: s("12.5") };
    assert_eq!(session.payment, Some(paid.clone()));

    let start = session.start_transportation_payload(None, s("now"));
    assert_eq!(start.tag, "Start Transportation Tag");
    match &start.data {
        BlockData::StartTransportationData(d) => {
            assert_eq!(d.previous_block, root_id());
            assert_eq!(d.transportation_info, ProductInfo::new(s("Transportation Information Data"), None));
        },
        other => panic!("wrong payload {:?}", other),
    }
    assert!(encode(&start).is_ok());

    session.on_transportation_started(Ok(s("0xstart")));
    assert_eq!(session.phase, Phase::Sampling);
    assert!(!Session::keep_sampling(0, 0));
    session.finish_sampling();
    assert_eq!(session.metrics, vec![s("0xstart"), s("0xstart")]);
    assert_eq!(session.temperature_linked + session.humidity_linked, 0);

    let deliver = session.delivery_payload(Some(s("cid")), s("later"));
    assert_eq!(deliver.tag, "Delivered Transportation Tag");
    match &deliver.data {
        BlockData::DeliveredTransportationData(d) => {
            assert_eq!(d.metrics, vec![s("0xstart"), s("0xstart")]);
            assert_eq!(d.payment_info, paid);
            assert_eq!(d.product_delivery_info, ProductInfo::new(s("Product Delivery Information"), Some(s("cid"))));
        },
        other => panic!("wrong payload {:?}", other),
    }
    session.on_delivered(Ok(s("0xdone")));
    assert_eq!(session.phase, Phase::Done);
}

#[test]
fn short_block_id_fails_before_any_fetch() {
    let id = format!("0x{}", "a".repeat(63));
    assert!(matches!(Session::new(id), Err(Error::InvalidBlockIdFormat)));
}

#[test]
fn block_id_without_prefix_fails() {
    assert!(matches!(Session::new("b".repeat(66)), Err(Error::InvalidBlockIdFormat)));
}

#[test]
fn failed_start_block_is_fatal() {
    let mut session = Session::new(root_id()).unwrap();
    let r = session.accept_start_block(&LedgerRecord { payload: None });
    assert_eq!(r, Err(Error::MissingPayload));
    assert_eq!(session.phase, Phase::Failed);
}

#[test]
fn failed_start_post_is_fatal() {
    let mut session = Session::new(root_id()).unwrap();
    session.accept_start_block(&producer_record()).unwrap();
    session.on_transportation_started(Err(Error::GatewayFailure));
    assert_eq!(session.phase, Phase::Failed);
}

#[test]
fn failed_metric_posts_leave_the_tip() {
    let mut session = sampling_session("0xstart");
    let outcomes = [Some("0x1"), None, Some("0x2"), None, None];
    for o in outcomes {
        session.record_metric_outcome(MetricKind::Temperature, o.map(s));
    }
    assert_eq!(session.temperature_tip, "0x2");
    assert_eq!(session.temperature_linked, 2);
    assert_eq!(session.humidity_tip, "0xstart");
    assert_eq!(session.humidity_linked, 0);
}

#[test]
fn all_metric_posts_failing_keeps_the_start() {
    let mut session = sampling_session("0xstart");
    for _ in 0..4 {
        session.record_metric_outcome(MetricKind::Humidity, None);
    }
    assert_eq!(session.humidity_tip, "0xstart");
    assert_eq!(session.humidity_linked, 0);
    assert_eq!(session.phase, Phase::Sampling);
}

#[test]
fn metric_records_link_to_their_own_chain() {
    let mut session = sampling_session("0xstart");
    session.record_metric_outcome(MetricKind::Temperature, Some(s("0xt1")));
    let t = session.metric_payload(MetricKind::Temperature, -325, s("ts"));
    assert_eq!(t.tag, "Temperature Metric Tag");
    match &t.data {
        BlockData::MetricData(d) => {
            assert_eq!(d.previous_block, "0xt1");
            assert_eq!(d.metric_value, "-3.25");
            assert_eq!(d.measurement_unit, "Celsius");
        },
        other => panic!("wrong payload {:?}", other),
    }
    let h = session.sample_metric_payload(MetricKind::Humidity);
    assert_eq!(h.tag, "Humidity Metric Tag");
    match &h.data {
        BlockData::MetricData(d) => {
            assert_eq!(d.previous_block, "0xstart");
            assert_eq!(d.measurement_unit, "%");
            let v: f64 = d.metric_value.parse().unwrap();
            assert!((0.0..=100.0).contains(&v));
        },
        other => panic!("wrong payload {:?}", other),
    }
}

#[test]
fn tips_become_the_delivery_metrics() {
    let mut session = sampling_session("0xstart");
    session.record_metric_outcome(MetricKind::Temperature, Some(s("0xt1")));
    session.record_metric_outcome(MetricKind::Humidity, None);
    session.record_metric_outcome(MetricKind::Temperature, None);
    session.record_metric_outcome(MetricKind::Humidity, Some(s("0xh1")));
    session.finish_sampling();
    assert_eq!(session.phase, Phase::Delivering);
    assert_eq!(session.metrics, vec![s("0xt1"), s("0xh1")]);
    let p = session.delivery_payload_now(None);
    let (_, body) = encode(&p).unwrap();
    let text = String::from_utf8(body).unwrap();
    assert!(text.contains("\"metrics\":[\"0xt1\",\"0xh1\"]"));
    assert!(text.contains("\"cost\":12.5"));
}

#[test]
fn failed_delivery_is_fatal() {
    let mut session = sampling_session("0xstart");
    session.finish_sampling();
    session.on_delivered(Err(Error::GatewayFailure));
    assert_eq!(session.phase, Phase::Failed);
}

#[test]
fn keep_sampling_under_budget() {
    assert!(Session::keep_sampling(0, 120_000));
    assert!(Session::keep_sampling(119_999, 120_000));
    assert!(!Session::keep_sampling(120_000, 120_000));
}

#[test]
fn posted_delivery_decodes_back() {
    let mut session = sampling_session("0xstart");
    session.finish_sampling();
    let p = session.delivery_payload(None, s("t"));
    let (_, body) = encode(&p).unwrap();
    let back = decode(&body).unwrap();
    assert_eq!(back.block_type, "Delivered Transportation Tag");
    assert_eq!(back.data, p.data);
}

#[test]
fn stamped_start_record_carries_a_time() {
    let mut session = Session::new(root_id()).unwrap();
    session.accept_start_block(&producer_record()).unwrap();
    let p = session.start_transportation_payload_now(Some(s("cid")));
    match &p.data {
        BlockData::StartTransportationData(d) => {
            assert!(!d.start_timestamp.is_empty());
            assert_eq!(d.previous_block, root_id());
            assert_eq!(d.transportation_info.file_cid, Some(s("cid")));
        },
        other => panic!("wrong payload {:?}", other),
    }
}

#[test]
fn a_run_of_outcomes_keeps_the_last_success() {
    let mut session = sampling_session("0xstart");
    let run = vec![None, Some(s("0xa")), None, Some(s("0xb")), None];
    session.record_metric_outcomes(MetricKind::Humidity, &run);
    assert_eq!(session.humidity_tip, "0xb");
    assert_eq!(session.humidity_linked, 2);
    assert_eq!(session.temperature_tip, "0xstart");
    session.record_metric_outcomes(MetricKind::Temperature, &vec![None, None, None]);
    assert_eq!(session.temperature_tip, "0xstart");
    assert_eq!(session.temperature_linked, 0);
}

#[test]
fn posted_start_record_decodes_back() {
    let mut session = Session::new(root_id()).unwrap();
    session.accept_start_block(&producer_record()).unwrap();
    let p = session.start_transportation_payload(None, s("t0"));
    let (tag, body) = encode(&p).unwrap();
    assert_eq!(tag, b"Start Transportation Tag".to_vec());
    let back = decode(&body).unwrap();
    assert_eq!(back.data, p.data);
}
