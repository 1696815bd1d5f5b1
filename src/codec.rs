//! The payload codec: payloads to JSON trees and back, and the envelope as
//! bytes.
//!
//! On the wire a payload names no variant: a string is the plain variant, and
//! an object is the first variant, in declaration order, whose fields it holds.
use vstd::prelude::*;
use crate::block_payload::{
    BlockData, BlockPayload, TaggedDataPayload, DataV, TextV, ProductInfoV, PaymentInfoV,
    ResourceV, ResourcesV, LocationV, ProductInfo, PaymentInfo, Resource, Resources,
    ExportLocation, RawMaterialsProducerBlockData, SupplierBlockData, ManufacturerBlockData,
    DistributorBlockData, RetailerBlockData, ConsumerBlockData, StartTransportationData,
    DeliveredTransportationData, MetricData, view_opt, opt_view, strings_view,
};
use crate::error::Error;
use vstd::utf8::encode_utf8;
use crate::json::{
    JsonValue, field_of, text_field, number_field, opt_text_field, text_list_field,
    object_field, get_text, get_number, get_opt_text, get_text_list, get_object,
    parse_json, write_json, parsed_json, written_json,
};

verus! {

pub type Fields = Vec<(String, JsonValue)>;

pub type FieldsV = Seq<(String, JsonValue)>;

pub open spec fn product_info_v(o: FieldsV) -> Option<ProductInfoV> {
    let info = text_field(o, "info"@);
    let cid = opt_text_field(o, "fileReference"@);
    if info is Some && cid is Some {
        Some((info->0, cid->0))
    } else {
        None
    }
}

pub open spec fn payment_info_v(o: FieldsV) -> Option<PaymentInfoV> {
    let wallet = text_field(o, "walletAddress"@);
    let cost = number_field(o, "cost"@);
    if wallet is Some && cost is Some {
        Some((wallet->0, cost->0))
    } else {
        None
    }
}

pub open spec fn resource_v(o: FieldsV) -> Option<ResourceV> {
    let prev = text_field(o, "previousBlock"@);
    let receipt = text_field(o, "transactionReceipt"@);
    if prev is Some && receipt is Some {
        Some((prev->0, receipt->0))
    } else {
        None
    }
}

pub open spec fn resources_v(o: FieldsV) -> Option<ResourcesV> {
    let prev = text_list_field(o, "previousBlocks"@);
    let receipts = text_list_field(o, "transactionReceipts"@);
    if prev is Some && receipts is Some && prev->0.len() == receipts->0.len() {
        Some((prev->0, receipts->0))
    } else {
        None
    }
}

pub open spec fn location_v(o: FieldsV) -> Option<LocationV> {
    let lon = number_field(o, "longitude"@);
    let lat = number_field(o, "latitude"@);
    if lon is Some && lat is Some {
        Some((lon->0, lat->0))
    } else {
        None
    }
}

pub open spec fn product_at(o: FieldsV, key: TextV) -> Option<ProductInfoV> {
    match object_field(o, key) {
        Some(p) => product_info_v(p),
        None => None,
    }
}

pub open spec fn payment_at(o: FieldsV, key: TextV) -> Option<PaymentInfoV> {
    match object_field(o, key) {
        Some(p) => payment_info_v(p),
        None => None,
    }
}

pub open spec fn resource_at(o: FieldsV, key: TextV) -> Option<ResourceV> {
    match object_field(o, key) {
        Some(p) => resource_v(p),
        None => None,
    }
}

pub open spec fn resources_at(o: FieldsV, key: TextV) -> Option<ResourcesV> {
    match object_field(o, key) {
        Some(p) => resources_v(p),
        None => None,
    }
}

pub open spec fn location_at(o: FieldsV, key: TextV) -> Option<LocationV> {
    match object_field(o, key) {
        Some(p) => location_v(p),
        None => None,
    }
}

pub open spec fn raw_materials_v(o: FieldsV) -> Option<DataV> {
    let a = text_field(o, "providerInfo"@);
    let b = product_at(o, "materialInfo"@);
    let c = text_field(o, "exportTimestamp"@);
    let d = location_at(o, "exportLocation"@);
    let e = payment_at(o, "paymentInfo"@);
    if a is Some && b is Some && c is Some && d is Some && e is Some {
        Some(DataV::RawMaterialsProducer(a->0, b->0, c->0, d->0, e->0))
    } else {
        None
    }
}

pub open spec fn supplier_v(o: FieldsV) -> Option<DataV> {
    let a = text_field(o, "supplierInfo"@);
    let b = product_at(o, "processedMaterialInfo"@);
    let c = resources_at(o, "resources"@);
    let d = payment_at(o, "paymentInfo"@);
    if a is Some && b is Some && c is Some && d is Some {
        Some(DataV::Supplier(a->0, b->0, c->0, d->0))
    } else {
        None
    }
}

pub open spec fn manufacturer_v(o: FieldsV) -> Option<DataV> {
    let a = text_field(o, "manufacturerInfo"@);
    let b = product_at(o, "productInfo"@);
    let c = resources_at(o, "resources"@);
    let d = payment_at(o, "paymentInfo"@);
    if a is Some && b is Some && c is Some && d is Some {
        Some(DataV::Manufacturer(a->0, b->0, c->0, d->0))
    } else {
        None
    }
}

pub open spec fn distributor_v(o: FieldsV) -> Option<DataV> {
    let a = text_field(o, "distributorInfo"@);
    let b = product_at(o, "productDistributionInfo"@);
    let c = resource_at(o, "resource"@);
    let d = payment_at(o, "paymentInfo"@);
    if a is Some && b is Some && c is Some && d is Some {
        Some(DataV::Distributor(a->0, b->0, c->0, d->0))
    } else {
        None
    }
}

pub open spec fn retailer_v(o: FieldsV) -> Option<DataV> {
    let a = text_field(o, "retailerInfo"@);
    let b = product_at(o, "productRetailInfo"@);
    let c = payment_at(o, "paymentInfo"@);
    let d = resource_at(o, "resource"@);
    if a is Some && b is Some && c is Some && d is Some {
        Some(DataV::Retailer(a->0, b->0, c->0, d->0))
    } else {
        None
    }
}

pub open spec fn consumer_v(o: FieldsV) -> Option<DataV> {
    let a = text_field(o, "consumerInfo"@);
    let b = resource_at(o, "resource"@);
    if a is Some && b is Some {
        Some(DataV::Consumer(a->0, b->0))
    } else {
        None
    }
}

pub open spec fn start_transportation_v(o: FieldsV) -> Option<DataV> {
    let a = text_field(o, "transportationCompanyInfo"@);
    let b = product_at(o, "transportationInfo"@);
    let c = text_field(o, "startTimestamp"@);
    let d = text_field(o, "previousBlock"@);
    if a is Some && b is Some && c is Some && d is Some {
        Some(DataV::StartTransportation(a->0, b->0, c->0, d->0))
    } else {
        None
    }
}

pub open spec fn delivered_transportation_v(o: FieldsV) -> Option<DataV> {
    let a = product_at(o, "productDeliveryInfo"@);
    let b = text_field(o, "deliveryTimestamp"@);
    let c = payment_at(o, "paymentInfo"@);
    let d = text_list_field(o, "metrics"@);
    if a is Some && b is Some && c is Some && d is Some {
        Some(DataV::DeliveredTransportation(a->0, b->0, c->0, d->0))
    } else {
        None
    }
}

pub open spec fn metric_v(o: FieldsV) -> Option<DataV> {
    let a = text_field(o, "metricType"@);
    let b = number_field(o, "metricValue"@);
    let c = text_field(o, "measurementUnit"@);
    let d = text_field(o, "timestamp"@);
    let e = text_field(o, "previousBlock"@);
    if a is Some && b is Some && c is Some && d is Some && e is Some {
        Some(DataV::Metric(a->0, b->0, c->0, d->0, e->0))
    } else {
        None
    }
}

/// The object variants in declaration order, numbered from 1 (0 is the plain
/// string variant).
pub open spec fn object_variant_v(k: int, o: FieldsV) -> Option<DataV> {
    if k == 1 {
        raw_materials_v(o)
    } else if k == 2 {
        supplier_v(o)
    } else if k == 3 {
        manufacturer_v(o)
    } else if k == 4 {
        distributor_v(o)
    } else if k == 5 {
        retailer_v(o)
    } else if k == 6 {
        consumer_v(o)
    } else if k == 7 {
        start_transportation_v(o)
    } else if k == 8 {
        delivered_transportation_v(o)
    } else if k == 9 {
        metric_v(o)
    } else {
        None
    }
}

/// The first object variant from `k` on whose fields the object holds.
pub open spec fn first_variant_from(k: int, o: FieldsV) -> Option<DataV>
    decreases 10 - k,
{
    if k >= 10 || k < 1 {
        None
    } else if object_variant_v(k, o) is Some {
        object_variant_v(k, o)
    } else {
        first_variant_from(k + 1, o)
    }
}

/// The payload a JSON value stands for, if any.
pub open spec fn data_of_tree(t: JsonValue) -> Option<DataV> {
    match t {
        JsonValue::Str(s) => Some(DataV::Basic(s@)),
        JsonValue::Object(o) => first_variant_from(1, o@),
        _ => None,
    }
}

/// The position of a payload's variant in declaration order.
pub open spec fn variant_index(d: DataV) -> int {
    match d {
        DataV::Basic(..) => 0,
        DataV::RawMaterialsProducer(..) => 1,
        DataV::Supplier(..) => 2,
        DataV::Manufacturer(..) => 3,
        DataV::Distributor(..) => 4,
        DataV::Retailer(..) => 5,
        DataV::Consumer(..) => 6,
        DataV::StartTransportation(..) => 7,
        DataV::DeliveredTransportation(..) => 8,
        DataV::Metric(..) => 9,
    }
}

/// `v` is the string `s`.
pub open spec fn text_is(v: JsonValue, s: TextV) -> bool {
    v matches JsonValue::Str(x) && x@ == s
}

/// `v` is the number with the literal `s`.
pub open spec fn number_is(v: JsonValue, s: TextV) -> bool {
    v matches JsonValue::Number(x) && x@ == s
}

/// `v` is the optional string `o`: null when absent.
pub open spec fn opt_text_is(v: JsonValue, o: Option<TextV>) -> bool {
    match o {
        Some(s) => text_is(v, s),
        None => v is Null,
    }
}

/// `v` is the array of the strings `l`.
pub open spec fn text_list_is(v: JsonValue, l: Seq<TextV>) -> bool {
    v matches JsonValue::Array(a) && all_text_list(a@, l)
}

/// `v` is exactly the object written for a product description.
pub open spec fn product_is(v: JsonValue, p: ProductInfoV) -> bool {
    v matches JsonValue::Object(o) && {
        &&& o@.len() == 2
        &&& o@[0].0@ == "info"@ && text_is(o@[0].1, p.0)
        &&& o@[1].0@ == "fileReference"@ && opt_text_is(o@[1].1, p.1)
    }
}

/// `v` is exactly the object written for a payment.
pub open spec fn payment_is(v: JsonValue, p: PaymentInfoV) -> bool {
    v matches JsonValue::Object(o) && {
        &&& o@.len() == 2
        &&& o@[0].0@ == "walletAddress"@ && text_is(o@[0].1, p.0)
        &&& o@[1].0@ == "cost"@ && number_is(o@[1].1, p.1)
    }
}

/// `v` is exactly the object written for a single link.
pub open spec fn resource_is(v: JsonValue, p: ResourceV) -> bool {
    v matches JsonValue::Object(o) && {
        &&& o@.len() == 2
        &&& o@[0].0@ == "previousBlock"@ && text_is(o@[0].1, p.0)
        &&& o@[1].0@ == "transactionReceipt"@ && text_is(o@[1].1, p.1)
    }
}

/// `v` is exactly the object written for paired link lists.
pub open spec fn resources_is(v: JsonValue, p: ResourcesV) -> bool {
    v matches JsonValue::Object(o) && {
        &&& o@.len() == 2
        &&& o@[0].0@ == "previousBlocks"@ && text_list_is(o@[0].1, p.0)
        &&& o@[1].0@ == "transactionReceipts"@ && text_list_is(o@[1].1, p.1)
    }
}

/// `v` is exactly the object written for coordinates.
pub open spec fn location_is(v: JsonValue, p: LocationV) -> bool {
    v matches JsonValue::Object(o) && {
        &&& o@.len() == 2
        &&& o@[0].0@ == "longitude"@ && number_is(o@[0].1, p.0)
        &&& o@[1].0@ == "latitude"@ && number_is(o@[1].1, p.1)
    }
}

/// `t` is exactly the JSON value written for the payload `d`: its fields, in
/// declaration order, and nothing else.
pub open spec fn is_data_tree(t: JsonValue, d: DataV) -> bool {
    match d {
        DataV::Basic(s) => text_is(t, s),
        DataV::RawMaterialsProducer(a, b, c, d, e) => t matches JsonValue::Object(o) && {
            &&& o@.len() == 5
            &&& o@[0].0@ == "providerInfo"@
            &&& text_is(o@[0].1, a)
            &&& o@[1].0@ == "materialInfo"@
            &&& product_is(o@[1].1, b)
            &&& o@[2].0@ == "exportTimestamp"@
            &&& text_is(o@[2].1, c)
            &&& o@[3].0@ == "exportLocation"@
            &&& location_is(o@[3].1, d)
            &&& o@[4].0@ == "paymentInfo"@
            &&& payment_is(o@[4].1, e)
        },
        DataV::Supplier(a, b, c, d) => t matches JsonValue::Object(o) && {
            &&& o@.len() == 4
            &&& o@[0].0@ == "supplierInfo"@
            &&& text_is(o@[0].1, a)
            &&& o@[1].0@ == "processedMaterialInfo"@
            &&& product_is(o@[1].1, b)
            &&& o@[2].0@ == "resources"@
            &&& resources_is(o@[2].1, c)
            &&& o@[3].0@ == "paymentInfo"@
            &&& payment_is(o@[3].1, d)
        },
        DataV::Manufacturer(a, b, c, d) => t matches JsonValue::Object(o) && {
            &&& o@.len() == 4
            &&& o@[0].0@ == "manufacturerInfo"@
            &&& text_is(o@[0].1, a)
            &&& o@[1].0@ == "productInfo"@
            &&& product_is(o@[1].1, b)
            &&& o@[2].0@ == "resources"@
            &&& resources_is(o@[2].1, c)
            &&& o@[3].0@ == "paymentInfo"@
            &&& payment_is(o@[3].1, d)
        },
        DataV::Distributor(a, b, c, d) => t matches JsonValue::Object(o) && {
            &&& o@.len() == 4
            &&& o@[0].0@ == "distributorInfo"@
            &&& text_is(o@[0].1, a)
            &&& o@[1].0@ == "productDistributionInfo"@
            &&& product_is(o@[1].1, b)
            &&& o@[2].0@ == "resource"@
            &&& resource_is(o@[2].1, c)
            &&& o@[3].0@ == "paymentInfo"@
            &&& payment_is(o@[3].1, d)
        },
        DataV::Retailer(a, b, c, d) => t matches JsonValue::Object(o) && {
            &&& o@.len() == 4
            &&& o@[0].0@ == "retailerInfo"@
            &&& text_is(o@[0].1, a)
            &&& o@[1].0@ == "productRetailInfo"@
            &&& product_is(o@[1].1, b)
            &&& o@[2].0@ == "paymentInfo"@
            &&& payment_is(o@[2].1, c)
            &&& o@[3].0@ == "resource"@
            &&& resource_is(o@[3].1, d)
        },
        DataV::Consumer(a, b) => t matches JsonValue::Object(o) && {
            &&& o@.len() == 2
            &&& o@[0].0@ == "consumerInfo"@
            &&& text_is(o@[0].1, a)
            &&& o@[1].0@ == "resource"@
            &&& resource_is(o@[1].1, b)
        },
        DataV::StartTransportation(a, b, c, d) => t matches JsonValue::Object(o) && {
            &&& o@.len() == 4
            &&& o@[0].0@ == "transportationCompanyInfo"@
            &&& text_is(o@[0].1, a)
            &&& o@[1].0@ == "transportationInfo"@
            &&& product_is(o@[1].1, b)
            &&& o@[2].0@ == "startTimestamp"@
            &&& text_is(o@[2].1, c)
            &&& o@[3].0@ == "previousBlock"@
            &&& text_is(o@[3].1, d)
        },
        DataV::DeliveredTransportation(a, b, c, d) => t matches JsonValue::Object(o) && {
            &&& o@.len() == 4
            &&& o@[0].0@ == "productDeliveryInfo"@
            &&& product_is(o@[0].1, a)
            &&& o@[1].0@ == "deliveryTimestamp"@
            &&& text_is(o@[1].1, b)
            &&& o@[2].0@ == "paymentInfo"@
            &&& payment_is(o@[2].1, c)
            &&& o@[3].0@ == "metrics"@
            &&& text_list_is(o@[3].1, d)
        },
        DataV::Metric(a, b, c, d, e) => t matches JsonValue::Object(o) && {
            &&& o@.len() == 5
            &&& o@[0].0@ == "metricType"@
            &&& text_is(o@[0].1, a)
            &&& o@[1].0@ == "metricValue"@
            &&& number_is(o@[1].1, b)
            &&& o@[2].0@ == "measurementUnit"@
            &&& text_is(o@[2].1, c)
            &&& o@[3].0@ == "timestamp"@
            &&& text_is(o@[3].1, d)
            &&& o@[4].0@ == "previousBlock"@
            &&& text_is(o@[4].1, e)
        },
    }
}

/// Appends a string field.
fn push_text(o: &mut Fields, key: &str, s: &String)
    ensures
        final(o)@ == old(o)@.push(final(o)@.last()),
        final(o)@.drop_last() == old(o)@,
        final(o)@.len() == old(o)@.len() + 1,
        final(o)@.last().0@ == key@,
        final(o)@.last().1 matches JsonValue::Str(t) && t@ == s@,
{
    o.push((String::from_str(key), JsonValue::Str(s.clone())));
    assert(o@.drop_last() =~= old(o)@);
}

fn read_product_info(o: &Fields) -> (r: Option<ProductInfo>)
    ensures
        view_opt(r) == product_info_v(o@),
{
    let info = get_text(o, "info");
    let cid = get_opt_text(o, "fileReference");
    match (info, cid) {
        (Some(info), Some(file_cid)) => Some(ProductInfo { info, file_cid }),
        _ => None,
    }
}

/// Appends a field.
fn push_value(o: &mut Fields, key: &str, v: JsonValue)
    ensures
        final(o)@ == old(o)@.push(final(o)@.last()),
        final(o)@.drop_last() == old(o)@,
        final(o)@.len() == old(o)@.len() + 1,
        final(o)@.last().0@ == key@,
        final(o)@.last().1 == v,
{
    o.push((String::from_str(key), v));
    assert(o@.drop_last() =~= old(o)@);
}

/// Appends a number field holding the literal `s`.
fn push_number(o: &mut Fields, key: &str, s: &String)
    ensures
        final(o)@ == old(o)@.push(final(o)@.last()),
        final(o)@.drop_last() == old(o)@,
        final(o)@.len() == old(o)@.len() + 1,
        final(o)@.last().0@ == key@,
        final(o)@.last().1 matches JsonValue::Number(t) && t@ == s@,
{
    o.push((String::from_str(key), JsonValue::Number(s.clone())));
    assert(o@.drop_last() =~= old(o)@);
}

/// The JSON array of the strings.
fn text_list_tree(v: &Vec<String>) -> (r: JsonValue)
    ensures
        r matches JsonValue::Array(a) && all_text_list(a@, strings_view(*v)),
        text_list_is(r, strings_view(*v)),
{
    let mut a: Vec<JsonValue> = Vec::new();
    let mut i: usize = 0;
    while i < v.len()
        invariant
            i <= v.len(),
            a.len() == i,
            forall|j: int| 0 <= j < i ==> ((#[trigger] a@[j]) matches JsonValue::Str(t) && t@ == v@[j]@),
        decreases v.len() - i,
    {
        a.push(JsonValue::Str(v[i].clone()));
        i = i + 1;
    }
    JsonValue::Array(a)
}

/// The items are the strings `texts`, in order.
pub open spec fn all_text_list(items: Seq<JsonValue>, texts: Seq<TextV>) -> bool {
    &&& items.len() == texts.len()
    &&& forall|j: int| 0 <= j < items.len() ==> ((#[trigger] items[j]) matches JsonValue::Str(t) && t@ == texts[j])
}

proof fn lemma_text_list(items: Seq<JsonValue>, texts: Seq<TextV>)
    requires
        all_text_list(items, texts),
    ensures
        crate::json::all_text(items),
        crate::json::texts_of(items) == texts,
{
    assert(crate::json::texts_of(items) =~= texts);
}

fn product_info_tree(p: &ProductInfo) -> (r: JsonValue)
    ensures
        r matches JsonValue::Object(o) && product_info_v(o@) == Some(p@),
        product_is(r, p@),
{
    let mut o: Fields = Vec::new();
    push_text(&mut o, "info", &p.info);
    let cid = match &p.file_cid {
        Some(c) => JsonValue::Str(c.clone()),
        None => JsonValue::Null,
    };
    push_value(&mut o, "fileReference", cid);
    proof {
        reveal_strlit("info");
        reveal_strlit("fileReference");
        reveal_with_fuel(field_of, 3);
        assert(o@.drop_last().drop_last() =~= Seq::<(String, JsonValue)>::empty());
        assert("fileReference"@ != "info"@) by {
            assert("fileReference"@.len() != "info"@.len());
        }
    }
    JsonValue::Object(o)
}

fn payment_info_tree(p: &PaymentInfo) -> (r: JsonValue)
    ensures
        r matches JsonValue::Object(o) && payment_info_v(o@) == Some(p@),
        payment_is(r, p@),
{
    let mut o: Fields = Vec::new();
    push_text(&mut o, "walletAddress", &p.wallet_address);
    push_number(&mut o, "cost", &p.smr_cost);
    proof {
        reveal_strlit("walletAddress");
        reveal_strlit("cost");
        reveal_with_fuel(field_of, 3);
        assert(o@.drop_last().drop_last() =~= Seq::<(String, JsonValue)>::empty());
        assert("walletAddress"@ != "cost"@) by {
            assert("walletAddress"@.len() != "cost"@.len());
        }
    }
    JsonValue::Object(o)
}

fn resource_tree(p: &Resource) -> (r: JsonValue)
    ensures
        r matches JsonValue::Object(o) && resource_v(o@) == Some(p@),
        resource_is(r, p@),
{
    let mut o: Fields = Vec::new();
    push_text(&mut o, "previousBlock", &p.previous_block);
    push_text(&mut o, "transactionReceipt", &p.transaction_receipt);
    proof {
        reveal_strlit("previousBlock");
        reveal_strlit("transactionReceipt");
        reveal_with_fuel(field_of, 3);
        assert(o@.drop_last().drop_last() =~= Seq::<(String, JsonValue)>::empty());
        assert("previousBlock"@ != "transactionReceipt"@) by {
            assert("previousBlock"@.len() != "transactionReceipt"@.len());
        }
    }
    JsonValue::Object(o)
}

fn resources_tree(p: &Resources) -> (r: JsonValue)
    requires
        p.wf(),
    ensures
        r matches JsonValue::Object(o) && resources_v(o@) == Some(p@),
        resources_is(r, p@),
{
    let mut o: Fields = Vec::new();
    let prev = text_list_tree(&p.previous_blocks);
    push_value(&mut o, "previousBlocks", prev);
    let receipts = text_list_tree(&p.transaction_receipts);
    push_value(&mut o, "transactionReceipts", receipts);
    proof {
        reveal_strlit("previousBlocks");
        reveal_strlit("transactionReceipts");
        reveal_with_fuel(field_of, 3);
        assert(o@.drop_last().drop_last() =~= Seq::<(String, JsonValue)>::empty());
        assert("previousBlocks"@ != "transactionReceipts"@) by {
            assert("previousBlocks"@.len() != "transactionReceipts"@.len());
        }
        lemma_text_list(prev->Array_0@, strings_view(p.previous_blocks));
        lemma_text_list(receipts->Array_0@, strings_view(p.transaction_receipts));
    }
    JsonValue::Object(o)
}

fn location_tree(p: &ExportLocation) -> (r: JsonValue)
    ensures
        r matches JsonValue::Object(o) && location_v(o@) == Some(p@),
        location_is(r, p@),
{
    let mut o: Fields = Vec::new();
    push_number(&mut o, "longitude", &p.longitude);
    push_number(&mut o, "latitude", &p.latitude);
    proof {
        reveal_strlit("longitude");
        reveal_strlit("latitude");
        reveal_with_fuel(field_of, 3);
        assert(o@.drop_last().drop_last() =~= Seq::<(String, JsonValue)>::empty());
        assert("longitude"@ != "latitude"@) by {
            assert("longitude"@.len() != "latitude"@.len());
        }
    }
    JsonValue::Object(o)
}

fn read_product_at(o: &Fields, key: &str) -> (r: Option<ProductInfo>)
    ensures
        view_opt(r) == product_at(o@, key@),
{
    match get_object(o, key) {
        Some(p) => read_product_info(p),
        None => None,
    }
}

fn read_payment_at(o: &Fields, key: &str) -> (r: Option<PaymentInfo>)
    ensures
        view_opt(r) == payment_at(o@, key@),
{
    match get_object(o, key) {
        Some(p) => match (get_text(p, "walletAddress"), get_number(p, "cost")) {
            (Some(wallet_address), Some(smr_cost)) => Some(PaymentInfo { wallet_address, smr_cost }),
            _ => None,
        },
        None => None,
    }
}

fn read_resource_at(o: &Fields, key: &str) -> (r: Option<Resource>)
    ensures
        view_opt(r) == resource_at(o@, key@),
{
    match get_object(o, key) {
        Some(p) => match (get_text(p, "previousBlock"), get_text(p, "transactionReceipt")) {
            (Some(previous_block), Some(transaction_receipt)) => Some(
                Resource { previous_block, transaction_receipt },
            ),
            _ => None,
        },
        None => None,
    }
}

fn read_resources_at(o: &Fields, key: &str) -> (r: Option<Resources>)
    ensures
        view_opt(r) == resources_at(o@, key@),
        r matches Some(x) ==> x.wf(),
{
    match get_object(o, key) {
        Some(p) => match (get_text_list(p, "previousBlocks"), get_text_list(p, "transactionReceipts")) {
            (Some(previous_blocks), Some(transaction_receipts)) => {
                if previous_blocks.len() == transaction_receipts.len() {
                    Some(Resources { previous_blocks, transaction_receipts })
                } else {
                    None
                }
            },
            _ => None,
        },
        None => None,
    }
}

fn read_location_at(o: &Fields, key: &str) -> (r: Option<ExportLocation>)
    ensures
        view_opt(r) == location_at(o@, key@),
{
    match get_object(o, key) {
        Some(p) => match (get_number(p, "longitude"), get_number(p, "latitude")) {
            (Some(longitude), Some(latitude)) => Some(ExportLocation { longitude, latitude }),
            _ => None,
        },
        None => None,
    }
}

fn read_raw_materials(o: &Fields) -> (r: Option<BlockData>)
    ensures
        view_opt(r) == raw_materials_v(o@),
        r matches Some(d) ==> d.wf(),
{
    let a = get_text(o, "providerInfo");
    let b = read_product_at(o, "materialInfo");
    let c = get_text(o, "exportTimestamp");
    let d = read_location_at(o, "exportLocation");
    let e = read_payment_at(o, "paymentInfo");
    match (a, b, c, d, e) {
        (
            Some(provider_info),
            Some(material_info),
            Some(export_timestamp),
            Some(export_location),
            Some(payment_info),
        ) => Some(BlockData::RawMaterialsProducerBlockData(RawMaterialsProducerBlockData {
                provider_info,
                material_info,
                export_timestamp,
                export_location,
                payment_info,
            })),
        _ => None,
    }
}

fn raw_materials_tree(d: &RawMaterialsProducerBlockData) -> (r: Fields)
    ensures
        forall|k: int| 1 <= k <= 9 ==> #[trigger] object_variant_v(k, r@) == if k == 1 {
            Some(BlockData::RawMaterialsProducerBlockData(*d)@)
        } else {
            None
        },
        is_data_tree(JsonValue::Object(r), BlockData::RawMaterialsProducerBlockData(*d)@),
{
    let mut o: Fields = Vec::new();
    push_text(&mut o, "providerInfo", &d.provider_info);
    let v_material_info = product_info_tree(&d.material_info);
    push_value(&mut o, "materialInfo", v_material_info);
    push_text(&mut o, "exportTimestamp", &d.export_timestamp);
    let v_export_location = location_tree(&d.export_location);
    push_value(&mut o, "exportLocation", v_export_location);
    let v_payment_info = payment_info_tree(&d.payment_info);
    push_value(&mut o, "paymentInfo", v_payment_info);
    proof {
        reveal_strlit("providerInfo");
        reveal_strlit("materialInfo");
        reveal_strlit("exportTimestamp");
        reveal_strlit("exportLocation");
        reveal_strlit("paymentInfo");
        reveal_strlit("supplierInfo");
        reveal_strlit("manufacturerInfo");
        reveal_strlit("distributorInfo");
        reveal_strlit("retailerInfo");
        reveal_strlit("consumerInfo");
        reveal_strlit("transportationCompanyInfo");
        reveal_strlit("productDeliveryInfo");
        reveal_strlit("metricType");
        reveal_with_fuel(field_of, 6);
        assert("providerInfo"@ != "materialInfo"@) by { assert("providerInfo"@[0] != "materialInfo"@[0]); }
        assert("providerInfo"@ != "exportTimestamp"@) by { assert("providerInfo"@.len() != "exportTimestamp"@.len()); }
        assert("providerInfo"@ != "exportLocation"@) by { assert("providerInfo"@.len() != "exportLocation"@.len()); }
        assert("providerInfo"@ != "paymentInfo"@) by { assert("providerInfo"@.len() != "paymentInfo"@.len()); }
        assert("providerInfo"@ != "supplierInfo"@) by { assert("providerInfo"@[0] != "supplierInfo"@[0]); }
        assert("providerInfo"@ != "manufacturerInfo"@) by { assert("providerInfo"@.len() != "manufacturerInfo"@.len()); }
        assert("providerInfo"@ != "distributorInfo"@) by { assert("providerInfo"@.len() != "distributorInfo"@.len()); }
        assert("providerInfo"@ != "retailerInfo"@) by { assert("providerInfo"@[0] != "retailerInfo"@[0]); }
        assert("providerInfo"@ != "consumerInfo"@) by { assert("providerInfo"@[0] != "consumerInfo"@[0]); }
        assert("providerInfo"@ != "transportationCompanyInfo"@) by { assert("providerInfo"@.len() != "transportationCompanyInfo"@.len()); }
        assert("providerInfo"@ != "productDeliveryInfo"@) by { assert("providerInfo"@.len() != "productDeliveryInfo"@.len()); }
        assert("providerInfo"@ != "metricType"@) by { assert("providerInfo"@.len() != "metricType"@.len()); }
        assert("materialInfo"@ != "exportTimestamp"@) by { assert("materialInfo"@.len() != "exportTimestamp"@.len()); }
        assert("materialInfo"@ != "exportLocation"@) by { assert("materialInfo"@.len() != "exportLocation"@.len()); }
        assert("materialInfo"@ != "paymentInfo"@) by { assert("materialInfo"@.len() != "paymentInfo"@.len()); }
        assert("materialInfo"@ != "supplierInfo"@) by { assert("materialInfo"@[0] != "supplierInfo"@[0]); }
        assert("materialInfo"@ != "manufacturerInfo"@) by { assert("materialInfo"@.len() != "manufacturerInfo"@.len()); }
        assert("materialInfo"@ != "distributorInfo"@) by { assert("materialInfo"@.len() != "distributorInfo"@.len()); }
        assert("materialInfo"@ != "retailerInfo"@) by { assert("materialInfo"@[0] != "retailerInfo"@[0]); }
        assert("materialInfo"@ != "consumerInfo"@) by { assert("materialInfo"@[0] != "consumerInfo"@[0]); }
        assert("materialInfo"@ != "transportationCompanyInfo"@) by { assert("materialInfo"@.len() != "transportationCompanyInfo"@.len()); }
        assert("materialInfo"@ != "productDeliveryInfo"@) by { assert("materialInfo"@.len() != "productDeliveryInfo"@.len()); }
        assert("materialInfo"@ != "metricType"@) by { assert("materialInfo"@.len() != "metricType"@.len()); }
        assert("exportTimestamp"@ != "exportLocation"@) by { assert("exportTimestamp"@.len() != "exportLocation"@.len()); }
        assert("exportTimestamp"@ != "paymentInfo"@) by { assert("exportTimestamp"@.len() != "paymentInfo"@.len()); }
        assert("exportTimestamp"@ != "supplierInfo"@) by { assert("exportTimestamp"@.len() != "supplierInfo"@.len()); }
        assert("exportTimestamp"@ != "manufacturerInfo"@) by { assert("exportTimestamp"@.len() != "manufacturerInfo"@.len()); }
        assert("exportTimestamp"@ != "distributorInfo"@) by { assert("exportTimestamp"@[0] != "distributorInfo"@[0]); }
        assert("exportTimestamp"@ != "retailerInfo"@) by { assert("exportTimestamp"@.len() != "retailerInfo"@.len()); }
        assert("exportTimestamp"@ != "consumerInfo"@) by { assert("exportTimestamp"@.len() != "consumerInfo"@.len()); }
        assert("exportTimestamp"@ != "transportationCompanyInfo"@) by { assert("exportTimestamp"@.len() != "transportationCompanyInfo"@.len()); }
        assert("exportTimestamp"@ != "productDeliveryInfo"@) by { assert("exportTimestamp"@.len() != "productDeliveryInfo"@.len()); }
        assert("exportTimestamp"@ != "metricType"@) by { assert("exportTimestamp"@.len() != "metricType"@.len()); }
        assert("exportLocation"@ != "paymentInfo"@) by { assert("exportLocation"@.len() != "paymentInfo"@.len()); }
        assert("exportLocation"@ != "supplierInfo"@) by { assert("exportLocation"@.len() != "supplierInfo"@.len()); }
        assert("exportLocation"@ != "manufacturerInfo"@) by { assert("exportLocation"@.len() != "manufacturerInfo"@.len()); }
        assert("exportLocation"@ != "distributorInfo"@) by { assert("exportLocation"@.len() != "distributorInfo"@.len()); }
        assert("exportLocation"@ != "retailerInfo"@) by { assert("exportLocation"@.len() != "retailerInfo"@.len()); }
        assert("exportLocation"@ != "consumerInfo"@) by { assert("exportLocation"@.len() != "consumerInfo"@.len()); }
        assert("exportLocation"@ != "transportationCompanyInfo"@) by { assert("exportLocation"@.len() != "transportationCompanyInfo"@.len()); }
        assert("exportLocation"@ != "productDeliveryInfo"@) by { assert("exportLocation"@.len() != "productDeliveryInfo"@.len()); }
        assert("exportLocation"@ != "metricType"@) by { assert("exportLocation"@.len() != "metricType"@.len()); }
        assert("paymentInfo"@ != "supplierInfo"@) by { assert("paymentInfo"@.len() != "supplierInfo"@.len()); }
        assert("paymentInfo"@ != "manufacturerInfo"@) by { assert("paymentInfo"@.len() != "manufacturerInfo"@.len()); }
        assert("paymentInfo"@ != "distributorInfo"@) by { assert("paymentInfo"@.len() != "distributorInfo"@.len()); }
        assert("paymentInfo"@ != "retailerInfo"@) by { assert("paymentInfo"@.len() != "retailerInfo"@.len()); }
        assert("paymentInfo"@ != "consumerInfo"@) by { assert("paymentInfo"@.len() != "consumerInfo"@.len()); }
        assert("paymentInfo"@ != "transportationCompanyInfo"@) by { assert("paymentInfo"@.len() != "transportationCompanyInfo"@.len()); }
        assert("paymentInfo"@ != "productDeliveryInfo"@) by { assert("paymentInfo"@.len() != "productDeliveryInfo"@.len()); }
        assert("paymentInfo"@ != "metricType"@) by { assert("paymentInfo"@.len() != "metricType"@.len()); }
        assert(text_field(o@, "providerInfo"@) == Some(d.provider_info@));
        assert(product_at(o@, "materialInfo"@) == Some(d.material_info@));
        assert(text_field(o@, "exportTimestamp"@) == Some(d.export_timestamp@));
        assert(location_at(o@, "exportLocation"@) == Some(d.export_location@));
        assert(payment_at(o@, "paymentInfo"@) == Some(d.payment_info@));
        assert(raw_materials_v(o@) == Some(BlockData::RawMaterialsProducerBlockData(*d)@));
        assert(text_field(o@, "supplierInfo"@) is None);
        assert(supplier_v(o@) is None);
        assert(text_field(o@, "manufacturerInfo"@) is None);
        assert(manufacturer_v(o@) is None);
        assert(text_field(o@, "distributorInfo"@) is None);
        assert(distributor_v(o@) is None);
        assert(text_field(o@, "retailerInfo"@) is None);
        assert(retailer_v(o@) is None);
        assert(text_field(o@, "consumerInfo"@) is None);
        assert(consumer_v(o@) is None);
        assert(text_field(o@, "transportationCompanyInfo"@) is None);
        assert(start_transportation_v(o@) is None);
        assert(product_at(o@, "productDeliveryInfo"@) is None);
        assert(delivered_transportation_v(o@) is None);
        assert(text_field(o@, "metricType"@) is None);
        assert(metric_v(o@) is None);
    }
    o
}

fn read_supplier(o: &Fields) -> (r: Option<BlockData>)
    ensures
        view_opt(r) == supplier_v(o@),
        r matches Some(d) ==> d.wf(),
{
    let a = get_text(o, "supplierInfo");
    let b = read_product_at(o, "processedMaterialInfo");
    let c = read_resources_at(o, "resources");
    let d = read_payment_at(o, "paymentInfo");
    match (a, b, c, d) {
        (
            Some(supplier_info),
            Some(processed_material_info),
            Some(resources),
            Some(payment_info),
        ) => Some(BlockData::SupplierBlockData(SupplierBlockData {
                supplier_info,
                processed_material_info,
                resources,
                payment_info,
            })),
        _ => None,
    }
}

fn supplier_tree(d: &SupplierBlockData) -> (r: Fields)
    requires
        d.resources.wf(),
    ensures
        forall|k: int| 1 <= k <= 9 ==> #[trigger] object_variant_v(k, r@) == if k == 2 {
            Some(BlockData::SupplierBlockData(*d)@)
        } else {
            None
        },
        is_data_tree(JsonValue::Object(r), BlockData::SupplierBlockData(*d)@),
{
    let mut o: Fields = Vec::new();
    push_text(&mut o, "supplierInfo", &d.supplier_info);
    let v_processed_material_info = product_info_tree(&d.processed_material_info);
    push_value(&mut o, "processedMaterialInfo", v_processed_material_info);
    let v_resources = resources_tree(&d.resources);
    push_value(&mut o, "resources", v_resources);
    let v_payment_info = payment_info_tree(&d.payment_info);
    push_value(&mut o, "paymentInfo", v_payment_info);
    proof {
        reveal_strlit("supplierInfo");
        reveal_strlit("processedMaterialInfo");
        reveal_strlit("resources");
        reveal_strlit("paymentInfo");
        reveal_strlit("providerInfo");
        reveal_strlit("manufacturerInfo");
        reveal_strlit("distributorInfo");
        reveal_strlit("retailerInfo");
        reveal_strlit("consumerInfo");
        reveal_strlit("transportationCompanyInfo");
        reveal_strlit("productDeliveryInfo");
        reveal_strlit("metricType");
        reveal_with_fuel(field_of, 5);
        assert("supplierInfo"@ != "processedMaterialInfo"@) by { assert("supplierInfo"@.len() != "processedMaterialInfo"@.len()); }
        assert("supplierInfo"@ != "resources"@) by { assert("supplierInfo"@.len() != "resources"@.len()); }
        assert("supplierInfo"@ != "paymentInfo"@) by { assert("supplierInfo"@.len() != "paymentInfo"@.len()); }
        assert("supplierInfo"@ != "providerInfo"@) by { assert("supplierInfo"@[0] != "providerInfo"@[0]); }
        assert("supplierInfo"@ != "manufacturerInfo"@) by { assert("supplierInfo"@.len() != "manufacturerInfo"@.len()); }
        assert("supplierInfo"@ != "distributorInfo"@) by { assert("supplierInfo"@.len() != "distributorInfo"@.len()); }
        assert("supplierInfo"@ != "retailerInfo"@) by { assert("supplierInfo"@[0] != "retailerInfo"@[0]); }
        assert("supplierInfo"@ != "consumerInfo"@) by { assert("supplierInfo"@[0] != "consumerInfo"@[0]); }
        assert("supplierInfo"@ != "transportationCompanyInfo"@) by { assert("supplierInfo"@.len() != "transportationCompanyInfo"@.len()); }
        assert("supplierInfo"@ != "productDeliveryInfo"@) by { assert("supplierInfo"@.len() != "productDeliveryInfo"@.len()); }
        assert("supplierInfo"@ != "metricType"@) by { assert("supplierInfo"@.len() != "metricType"@.len()); }
        assert("processedMaterialInfo"@ != "resources"@) by { assert("processedMaterialInfo"@.len() != "resources"@.len()); }
        assert("processedMaterialInfo"@ != "paymentInfo"@) by { assert("processedMaterialInfo"@.len() != "paymentInfo"@.len()); }
        assert("processedMaterialInfo"@ != "providerInfo"@) by { assert("processedMaterialInfo"@.len() != "providerInfo"@.len()); }
        assert("processedMaterialInfo"@ != "manufacturerInfo"@) by { assert("processedMaterialInfo"@.len() != "manufacturerInfo"@.len()); }
        assert("processedMaterialInfo"@ != "distributorInfo"@) by { assert("processedMaterialInfo"@.len() != "distributorInfo"@.len()); }
        assert("processedMaterialInfo"@ != "retailerInfo"@) by { assert("processedMaterialInfo"@.len() != "retailerInfo"@.len()); }
        assert("processedMaterialInfo"@ != "consumerInfo"@) by { assert("processedMaterialInfo"@.len() != "consumerInfo"@.len()); }
        assert("processedMaterialInfo"@ != "transportationCompanyInfo"@) by { assert("processedMaterialInfo"@.len() != "transportationCompanyInfo"@.len()); }
        assert("processedMaterialInfo"@ != "productDeliveryInfo"@) by { assert("processedMaterialInfo"@.len() != "productDeliveryInfo"@.len()); }
        assert("processedMaterialInfo"@ != "metricType"@) by { assert("processedMaterialInfo"@.len() != "metricType"@.len()); }
        assert("resources"@ != "paymentInfo"@) by { assert("resources"@.len() != "paymentInfo"@.len()); }
        assert("resources"@ != "providerInfo"@) by { assert("resources"@.len() != "providerInfo"@.len()); }
        assert("resources"@ != "manufacturerInfo"@) by { assert("resources"@.len() != "manufacturerInfo"@.len()); }
        assert("resources"@ != "distributorInfo"@) by { assert("resources"@.len() != "distributorInfo"@.len()); }
        assert("resources"@ != "retailerInfo"@) by { assert("resources"@.len() != "retailerInfo"@.len()); }
        assert("resources"@ != "consumerInfo"@) by { assert("resources"@.len() != "consumerInfo"@.len()); }
        assert("resources"@ != "transportationCompanyInfo"@) by { assert("resources"@.len() != "transportationCompanyInfo"@.len()); }
        assert("resources"@ != "productDeliveryInfo"@) by { assert("resources"@.len() != "productDeliveryInfo"@.len()); }
        assert("resources"@ != "metricType"@) by { assert("resources"@.len() != "metricType"@.len()); }
        assert("paymentInfo"@ != "providerInfo"@) by { assert("paymentInfo"@.len() != "providerInfo"@.len()); }
        assert("paymentInfo"@ != "manufacturerInfo"@) by { assert("paymentInfo"@.len() != "manufacturerInfo"@.len()); }
        assert("paymentInfo"@ != "distributorInfo"@) by { assert("paymentInfo"@.len() != "distributorInfo"@.len()); }
        assert("paymentInfo"@ != "retailerInfo"@) by { assert("paymentInfo"@.len() != "retailerInfo"@.len()); }
        assert("paymentInfo"@ != "consumerInfo"@) by { assert("paymentInfo"@.len() != "consumerInfo"@.len()); }
        assert("paymentInfo"@ != "transportationCompanyInfo"@) by { assert("paymentInfo"@.len() != "transportationCompanyInfo"@.len()); }
        assert("paymentInfo"@ != "productDeliveryInfo"@) by { assert("paymentInfo"@.len() != "productDeliveryInfo"@.len()); }
        assert("paymentInfo"@ != "metricType"@) by { assert("paymentInfo"@.len() != "metricType"@.len()); }
        assert(text_field(o@, "supplierInfo"@) == Some(d.supplier_info@));
        assert(product_at(o@, "processedMaterialInfo"@) == Some(d.processed_material_info@));
        assert(resources_at(o@, "resources"@) == Some(d.resources@));
        assert(payment_at(o@, "paymentInfo"@) == Some(d.payment_info@));
        assert(supplier_v(o@) == Some(BlockData::SupplierBlockData(*d)@));
        assert(text_field(o@, "providerInfo"@) is None);
        assert(raw_materials_v(o@) is None);
        assert(text_field(o@, "manufacturerInfo"@) is None);
        assert(manufacturer_v(o@) is None);
        assert(text_field(o@, "distributorInfo"@) is None);
        assert(distributor_v(o@) is None);
        assert(text_field(o@, "retailerInfo"@) is None);
        assert(retailer_v(o@) is None);
        assert(text_field(o@, "consumerInfo"@) is None);
        assert(consumer_v(o@) is None);
        assert(text_field(o@, "transportationCompanyInfo"@) is None);
        assert(start_transportation_v(o@) is None);
        assert(product_at(o@, "productDeliveryInfo"@) is None);
        assert(delivered_transportation_v(o@) is None);
        assert(text_field(o@, "metricType"@) is None);
        assert(metric_v(o@) is None);
    }
    o
}

fn read_manufacturer(o: &Fields) -> (r: Option<BlockData>)
    ensures
        view_opt(r) == manufacturer_v(o@),
        r matches Some(d) ==> d.wf(),
{
    let a = get_text(o, "manufacturerInfo");
    let b = read_product_at(o, "productInfo");
    let c = read_resources_at(o, "resources");
    let d = read_payment_at(o, "paymentInfo");
    match (a, b, c, d) {
        (
            Some(manufacturer_info),
            Some(product_info),
            Some(resources),
            Some(payment_info),
        ) => Some(BlockData::ManufacturerBlockData(ManufacturerBlockData {
                manufacturer_info,
                product_info,
                resources,
                payment_info,
            })),
        _ => None,
    }
}

fn manufacturer_tree(d: &ManufacturerBlockData) -> (r: Fields)
    requires
        d.resources.wf(),
    ensures
        forall|k: int| 1 <= k <= 9 ==> #[trigger] object_variant_v(k, r@) == if k == 3 {
            Some(BlockData::ManufacturerBlockData(*d)@)
        } else {
            None
        },
        is_data_tree(JsonValue::Object(r), BlockData::ManufacturerBlockData(*d)@),
{
    let mut o: Fields = Vec::new();
    push_text(&mut o, "manufacturerInfo", &d.manufacturer_info);
    let v_product_info = product_info_tree(&d.product_info);
    push_value(&mut o, "productInfo", v_product_info);
    let v_resources = resources_tree(&d.resources);
    push_value(&mut o, "resources", v_resources);
    let v_payment_info = payment_info_tree(&d.payment_info);
    push_value(&mut o, "paymentInfo", v_payment_info);
    proof {
        reveal_strlit("manufacturerInfo");
        reveal_strlit("productInfo");
        reveal_strlit("resources");
        reveal_strlit("paymentInfo");
        reveal_strlit("providerInfo");
        reveal_strlit("supplierInfo");
        reveal_strlit("distributorInfo");
        reveal_strlit("retailerInfo");
        reveal_strlit("consumerInfo");
        reveal_strlit("transportationCompanyInfo");
        reveal_strlit("productDeliveryInfo");
        reveal_strlit("metricType");
        reveal_with_fuel(field_of, 5);
        assert("manufacturerInfo"@ != "productInfo"@) by { assert("manufacturerInfo"@.len() != "productInfo"@.len()); }
        assert("manufacturerInfo"@ != "resources"@) by { assert("manufacturerInfo"@.len() != "resources"@.len()); }
        assert("manufacturerInfo"@ != "paymentInfo"@) by { assert("manufacturerInfo"@.len() != "paymentInfo"@.len()); }
        assert("manufacturerInfo"@ != "providerInfo"@) by { assert("manufacturerInfo"@.len() != "providerInfo"@.len()); }
        assert("manufacturerInfo"@ != "supplierInfo"@) by { assert("manufacturerInfo"@.len() != "supplierInfo"@.len()); }
        assert("manufacturerInfo"@ != "distributorInfo"@) by { assert("manufacturerInfo"@.len() != "distributorInfo"@.len()); }
        assert("manufacturerInfo"@ != "retailerInfo"@) by { assert("manufacturerInfo"@.len() != "retailerInfo"@.len()); }
        assert("manufacturerInfo"@ != "consumerInfo"@) by { assert("manufacturerInfo"@.len() != "consumerInfo"@.len()); }
        assert("manufacturerInfo"@ != "transportationCompanyInfo"@) by { assert("manufacturerInfo"@.len() != "transportationCompanyInfo"@.len()); }
        assert("manufacturerInfo"@ != "productDeliveryInfo"@) by { assert("manufacturerInfo"@.len() != "productDeliveryInfo"@.len()); }
        assert("manufacturerInfo"@ != "metricType"@) by { assert("manufacturerInfo"@.len() != "metricType"@.len()); }
        assert("productInfo"@ != "resources"@) by { assert("productInfo"@.len() != "resources"@.len()); }
        assert("productInfo"@ != "paymentInfo"@) by { assert("productInfo"@[1] != "paymentInfo"@[1]); }
        assert("productInfo"@ != "providerInfo"@) by { assert("productInfo"@.len() != "providerInfo"@.len()); }
        assert("productInfo"@ != "supplierInfo"@) by { assert("productInfo"@.len() != "supplierInfo"@.len()); }
        assert("productInfo"@ != "distributorInfo"@) by { assert("productInfo"@.len() != "distributorInfo"@.len()); }
        assert("productInfo"@ != "retailerInfo"@) by { assert("productInfo"@.len() != "retailerInfo"@.len()); }
        assert("productInfo"@ != "consumerInfo"@) by { assert("productInfo"@.len() != "consumerInfo"@.len()); }
        assert("productInfo"@ != "transportationCompanyInfo"@) by { assert("productInfo"@.len() != "transportationCompanyInfo"@.len()); }
        assert("productInfo"@ != "productDeliveryInfo"@) by { assert("productInfo"@.len() != "productDeliveryInfo"@.len()); }
        assert("productInfo"@ != "metricType"@) by { assert("productInfo"@.len() != "metricType"@.len()); }
        assert("resources"@ != "paymentInfo"@) by { assert("resources"@.len() != "paymentInfo"@.len()); }
        assert("resources"@ != "providerInfo"@) by { assert("resources"@.len() != "providerInfo"@.len()); }
        assert("resources"@ != "supplierInfo"@) by { assert("resources"@.len() != "supplierInfo"@.len()); }
        assert("resources"@ != "distributorInfo"@) by { assert("resources"@.len() != "distributorInfo"@.len()); }
        assert("resources"@ != "retailerInfo"@) by { assert("resources"@.len() != "retailerInfo"@.len()); }
        assert("resources"@ != "consumerInfo"@) by { assert("resources"@.len() != "consumerInfo"@.len()); }
        assert("resources"@ != "transportationCompanyInfo"@) by { assert("resources"@.len() != "transportationCompanyInfo"@.len()); }
        assert("resources"@ != "productDeliveryInfo"@) by { assert("resources"@.len() != "productDeliveryInfo"@.len()); }
        assert("resources"@ != "metricType"@) by { assert("resources"@.len() != "metricType"@.len()); }
        assert("paymentInfo"@ != "providerInfo"@) by { assert("paymentInfo"@.len() != "providerInfo"@.len()); }
        assert("paymentInfo"@ != "supplierInfo"@) by { assert("paymentInfo"@.len() != "supplierInfo"@.len()); }
        assert("paymentInfo"@ != "distributorInfo"@) by { assert("paymentInfo"@.len() != "distributorInfo"@.len()); }
        assert("paymentInfo"@ != "retailerInfo"@) by { assert("paymentInfo"@.len() != "retailerInfo"@.len()); }
        assert("paymentInfo"@ != "consumerInfo"@) by { assert("paymentInfo"@.len() != "consumerInfo"@.len()); }
        assert("paymentInfo"@ != "transportationCompanyInfo"@) by { assert("paymentInfo"@.len() != "transportationCompanyInfo"@.len()); }
        assert("paymentInfo"@ != "productDeliveryInfo"@) by { assert("paymentInfo"@.len() != "productDeliveryInfo"@.len()); }
        assert("paymentInfo"@ != "metricType"@) by { assert("paymentInfo"@.len() != "metricType"@.len()); }
        assert(text_field(o@, "manufacturerInfo"@) == Some(d.manufacturer_info@));
        assert(product_at(o@, "productInfo"@) == Some(d.product_info@));
        assert(resources_at(o@, "resources"@) == Some(d.resources@));
        assert(payment_at(o@, "paymentInfo"@) == Some(d.payment_info@));
        assert(manufacturer_v(o@) == Some(BlockData::ManufacturerBlockData(*d)@));
        assert(text_field(o@, "providerInfo"@) is None);
        assert(raw_materials_v(o@) is None);
        assert(text_field(o@, "supplierInfo"@) is None);
        assert(supplier_v(o@) is None);
        assert(text_field(o@, "distributorInfo"@) is None);
        assert(distributor_v(o@) is None);
        assert(text_field(o@, "retailerInfo"@) is None);
        assert(retailer_v(o@) is None);
        assert(text_field(o@, "consumerInfo"@) is None);
        assert(consumer_v(o@) is None);
        assert(text_field(o@, "transportationCompanyInfo"@) is None);
        assert(start_transportation_v(o@) is None);
        assert(product_at(o@, "productDeliveryInfo"@) is None);
        assert(delivered_transportation_v(o@) is None);
        assert(text_field(o@, "metricType"@) is None);
        assert(metric_v(o@) is None);
    }
    o
}

fn read_distributor(o: &Fields) -> (r: Option<BlockData>)
    ensures
        view_opt(r) == distributor_v(o@),
        r matches Some(d) ==> d.wf(),
{
    let a = get_text(o, "distributorInfo");
    let b = read_product_at(o, "productDistributionInfo");
    let c = read_resource_at(o, "resource");
    let d = read_payment_at(o, "paymentInfo");
    match (a, b, c, d) {
        (
            Some(distributor_info),
            Some(product_distribution_info),
            Some(resource),
            Some(payment_info),
        ) => Some(BlockData::DistributorBlockData(DistributorBlockData {
                distributor_info,
                product_distribution_info,
                resource,
                payment_info,
            })),
        _ => None,
    }
}

fn distributor_tree(d: &DistributorBlockData) -> (r: Fields)
    ensures
        forall|k: int| 1 <= k <= 9 ==> #[trigger] object_variant_v(k, r@) == if k == 4 {
            Some(BlockData::DistributorBlockData(*d)@)
        } else {
            None
        },
        is_data_tree(JsonValue::Object(r), BlockData::DistributorBlockData(*d)@),
{
    let mut o: Fields = Vec::new();
    push_text(&mut o, "distributorInfo", &d.distributor_info);
    let v_product_distribution_info = product_info_tree(&d.product_distribution_info);
    push_value(&mut o, "productDistributionInfo", v_product_distribution_info);
    let v_resource = resource_tree(&d.resource);
    push_value(&mut o, "resource", v_resource);
    let v_payment_info = payment_info_tree(&d.payment_info);
    push_value(&mut o, "paymentInfo", v_payment_info);
    proof {
        reveal_strlit("distributorInfo");
        reveal_strlit("productDistributionInfo");
        reveal_strlit("resource");
        reveal_strlit("paymentInfo");
        reveal_strlit("providerInfo");
        reveal_strlit("supplierInfo");
        reveal_strlit("manufacturerInfo");
        reveal_strlit("retailerInfo");
        reveal_strlit("consumerInfo");
        reveal_strlit("transportationCompanyInfo");
        reveal_strlit("productDeliveryInfo");
        reveal_strlit("metricType");
        reveal_with_fuel(field_of, 5);
        assert("distributorInfo"@ != "productDistributionInfo"@) by { assert("distributorInfo"@.len() != "productDistributionInfo"@.len()); }
        assert("distributorInfo"@ != "resource"@) by { assert("distributorInfo"@.len() != "resource"@.len()); }
        assert("distributorInfo"@ != "paymentInfo"@) by { assert("distributorInfo"@.len() != "paymentInfo"@.len()); }
        assert("distributorInfo"@ != "providerInfo"@) by { assert("distributorInfo"@.len() != "providerInfo"@.len()); }
        assert("distributorInfo"@ != "supplierInfo"@) by { assert("distributorInfo"@.len() != "supplierInfo"@.len()); }
        assert("distributorInfo"@ != "manufacturerInfo"@) by { assert("distributorInfo"@.len() != "manufacturerInfo"@.len()); }
        assert("distributorInfo"@ != "retailerInfo"@) by { assert("distributorInfo"@.len() != "retailerInfo"@.len()); }
        assert("distributorInfo"@ != "consumerInfo"@) by { assert("distributorInfo"@.len() != "consumerInfo"@.len()); }
        assert("distributorInfo"@ != "transportationCompanyInfo"@) by { assert("distributorInfo"@.len() != "transportationCompanyInfo"@.len()); }
        assert("distributorInfo"@ != "productDeliveryInfo"@) by { assert("distributorInfo"@.len() != "productDeliveryInfo"@.len()); }
        assert("distributorInfo"@ != "metricType"@) by { assert("distributorInfo"@.len() != "metricType"@.len()); }
        assert("productDistributionInfo"@ != "resource"@) by { assert("productDistributionInfo"@.len() != "resource"@.len()); }
        assert("productDistributionInfo"@ != "paymentInfo"@) by { assert("productDistributionInfo"@.len() != "paymentInfo"@.len()); }
        assert("productDistributionInfo"@ != "providerInfo"@) by { assert("productDistributionInfo"@.len() != "providerInfo"@.len()); }
        assert("productDistributionInfo"@ != "supplierInfo"@) by { assert("productDistributionInfo"@.len() != "supplierInfo"@.len()); }
        assert("productDistributionInfo"@ != "manufacturerInfo"@) by { assert("productDistributionInfo"@.len() != "manufacturerInfo"@.len()); }
        assert("productDistributionInfo"@ != "retailerInfo"@) by { assert("productDistributionInfo"@.len() != "retailerInfo"@.len()); }
        assert("productDistributionInfo"@ != "consumerInfo"@) by { assert("productDistributionInfo"@.len() != "consumerInfo"@.len()); }
        assert("productDistributionInfo"@ != "transportationCompanyInfo"@) by { assert("productDistributionInfo"@.len() != "transportationCompanyInfo"@.len()); }
        assert("productDistributionInfo"@ != "productDeliveryInfo"@) by { assert("productDistributionInfo"@.len() != "productDeliveryInfo"@.len()); }
        assert("productDistributionInfo"@ != "metricType"@) by { assert("productDistributionInfo"@.len() != "metricType"@.len()); }
        assert("resource"@ != "paymentInfo"@) by { assert("resource"@.len() != "paymentInfo"@.len()); }
        assert("resource"@ != "providerInfo"@) by { assert("resource"@.len() != "providerInfo"@.len()); }
        assert("resource"@ != "supplierInfo"@) by { assert("resource"@.len() != "supplierInfo"@.len()); }
        assert("resource"@ != "manufacturerInfo"@) by { assert("resource"@.len() != "manufacturerInfo"@.len()); }
        assert("resource"@ != "retailerInfo"@) by { assert("resource"@.len() != "retailerInfo"@.len()); }
        assert("resource"@ != "consumerInfo"@) by { assert("resource"@.len() != "consumerInfo"@.len()); }
        assert("resource"@ != "transportationCompanyInfo"@) by { assert("resource"@.len() != "transportationCompanyInfo"@.len()); }
        assert("resource"@ != "productDeliveryInfo"@) by { assert("resource"@.len() != "productDeliveryInfo"@.len()); }
        assert("resource"@ != "metricType"@) by { assert("resource"@.len() != "metricType"@.len()); }
        assert("paymentInfo"@ != "providerInfo"@) by { assert("paymentInfo"@.len() != "providerInfo"@.len()); }
        assert("paymentInfo"@ != "supplierInfo"@) by { assert("paymentInfo"@.len() != "supplierInfo"@.len()); }
        assert("paymentInfo"@ != "manufacturerInfo"@) by { assert("paymentInfo"@.len() != "manufacturerInfo"@.len()); }
        assert("paymentInfo"@ != "retailerInfo"@) by { assert("paymentInfo"@.len() != "retailerInfo"@.len()); }
        assert("paymentInfo"@ != "consumerInfo"@) by { assert("paymentInfo"@.len() != "consumerInfo"@.len()); }
        assert("paymentInfo"@ != "transportationCompanyInfo"@) by { assert("paymentInfo"@.len() != "transportationCompanyInfo"@.len()); }
        assert("paymentInfo"@ != "productDeliveryInfo"@) by { assert("paymentInfo"@.len() != "productDeliveryInfo"@.len()); }
        assert("paymentInfo"@ != "metricType"@) by { assert("paymentInfo"@.len() != "metricType"@.len()); }
        assert(text_field(o@, "distributorInfo"@) == Some(d.distributor_info@));
        assert(product_at(o@, "productDistributionInfo"@) == Some(d.product_distribution_info@));
        assert(resource_at(o@, "resource"@) == Some(d.resource@));
        assert(payment_at(o@, "paymentInfo"@) == Some(d.payment_info@));
        assert(distributor_v(o@) == Some(BlockData::DistributorBlockData(*d)@));
        assert(text_field(o@, "providerInfo"@) is None);
        assert(raw_materials_v(o@) is None);
        assert(text_field(o@, "supplierInfo"@) is None);
        assert(supplier_v(o@) is None);
        assert(text_field(o@, "manufacturerInfo"@) is None);
        assert(manufacturer_v(o@) is None);
        assert(text_field(o@, "retailerInfo"@) is None);
        assert(retailer_v(o@) is None);
        assert(text_field(o@, "consumerInfo"@) is None);
        assert(consumer_v(o@) is None);
        assert(text_field(o@, "transportationCompanyInfo"@) is None);
        assert(start_transportation_v(o@) is None);
        assert(product_at(o@, "productDeliveryInfo"@) is None);
        assert(delivered_transportation_v(o@) is None);
        assert(text_field(o@, "metricType"@) is None);
        assert(metric_v(o@) is None);
    }
    o
}

fn read_retailer(o: &Fields) -> (r: Option<BlockData>)
    ensures
        view_opt(r) == retailer_v(o@),
        r matches Some(d) ==> d.wf(),
{
    let a = get_text(o, "retailerInfo");
    let b = read_product_at(o, "productRetailInfo");
    let c = read_payment_at(o, "paymentInfo");
    let d = read_resource_at(o, "resource");
    match (a, b, c, d) {
        (
            Some(retailer_info),
            Some(product_retail_info),
            Some(payment_info),
            Some(resource),
        ) => Some(BlockData::RetailerBlockData(RetailerBlockData {
                retailer_info,
                product_retail_info,
                payment_info,
                resource,
            })),
        _ => None,
    }
}

fn retailer_tree(d: &RetailerBlockData) -> (r: Fields)
    ensures
        forall|k: int| 1 <= k <= 9 ==> #[trigger] object_variant_v(k, r@) == if k == 5 {
            Some(BlockData::RetailerBlockData(*d)@)
        } else {
            None
        },
        is_data_tree(JsonValue::Object(r), BlockData::RetailerBlockData(*d)@),
{
    let mut o: Fields = Vec::new();
    push_text(&mut o, "retailerInfo", &d.retailer_info);
    let v_product_retail_info = product_info_tree(&d.product_retail_info);
    push_value(&mut o, "productRetailInfo", v_product_retail_info);
    let v_payment_info = payment_info_tree(&d.payment_info);
    push_value(&mut o, "paymentInfo", v_payment_info);
    let v_resource = resource_tree(&d.resource);
    push_value(&mut o, "resource", v_resource);
    proof {
        reveal_strlit("retailerInfo");
        reveal_strlit("productRetailInfo");
        reveal_strlit("paymentInfo");
        reveal_strlit("resource");
        reveal_strlit("providerInfo");
        reveal_strlit("supplierInfo");
        reveal_strlit("manufacturerInfo");
        reveal_strlit("distributorInfo");
        reveal_strlit("consumerInfo");
        reveal_strlit("transportationCompanyInfo");
        reveal_strlit("productDeliveryInfo");
        reveal_strlit("metricType");
        reveal_with_fuel(field_of, 5);
        assert("retailerInfo"@ != "productRetailInfo"@) by { assert("retailerInfo"@.len() != "productRetailInfo"@.len()); }
        assert("retailerInfo"@ != "paymentInfo"@) by { assert("retailerInfo"@.len() != "paymentInfo"@.len()); }
        assert("retailerInfo"@ != "resource"@) by { assert("retailerInfo"@.len() != "resource"@.len()); }
        assert("retailerInfo"@ != "providerInfo"@) by { assert("retailerInfo"@[0] != "providerInfo"@[0]); }
        assert("retailerInfo"@ != "supplierInfo"@) by { assert("retailerInfo"@[0] != "supplierInfo"@[0]); }
        assert("retailerInfo"@ != "manufacturerInfo"@) by { assert("retailerInfo"@.len() != "manufacturerInfo"@.len()); }
        assert("retailerInfo"@ != "distributorInfo"@) by { assert("retailerInfo"@.len() != "distributorInfo"@.len()); }
        assert("retailerInfo"@ != "consumerInfo"@) by { assert("retailerInfo"@[0] != "consumerInfo"@[0]); }
        assert("retailerInfo"@ != "transportationCompanyInfo"@) by { assert("retailerInfo"@.len() != "transportationCompanyInfo"@.len()); }
        assert("retailerInfo"@ != "productDeliveryInfo"@) by { assert("retailerInfo"@.len() != "productDeliveryInfo"@.len()); }
        assert("retailerInfo"@ != "metricType"@) by { assert("retailerInfo"@.len() != "metricType"@.len()); }
        assert("productRetailInfo"@ != "paymentInfo"@) by { assert("productRetailInfo"@.len() != "paymentInfo"@.len()); }
        assert("productRetailInfo"@ != "resource"@) by { assert("productRetailInfo"@.len() != "resource"@.len()); }
        assert("productRetailInfo"@ != "providerInfo"@) by { assert("productRetailInfo"@.len() != "providerInfo"@.len()); }
        assert("productRetailInfo"@ != "supplierInfo"@) by { assert("productRetailInfo"@.len() != "supplierInfo"@.len()); }
        assert("productRetailInfo"@ != "manufacturerInfo"@) by { assert("productRetailInfo"@.len() != "manufacturerInfo"@.len()); }
        assert("productRetailInfo"@ != "distributorInfo"@) by { assert("productRetailInfo"@.len() != "distributorInfo"@.len()); }
        assert("productRetailInfo"@ != "consumerInfo"@) by { assert("productRetailInfo"@.len() != "consumerInfo"@.len()); }
        assert("productRetailInfo"@ != "transportationCompanyInfo"@) by { assert("productRetailInfo"@.len() != "transportationCompanyInfo"@.len()); }
        assert("productRetailInfo"@ != "productDeliveryInfo"@) by { assert("productRetailInfo"@.len() != "productDeliveryInfo"@.len()); }
        assert("productRetailInfo"@ != "metricType"@) by { assert("productRetailInfo"@.len() != "metricType"@.len()); }
        assert("paymentInfo"@ != "resource"@) by { assert("paymentInfo"@.len() != "resource"@.len()); }
        assert("paymentInfo"@ != "providerInfo"@) by { assert("paymentInfo"@.len() != "providerInfo"@.len()); }
        assert("paymentInfo"@ != "supplierInfo"@) by { assert("paymentInfo"@.len() != "supplierInfo"@.len()); }
        assert("paymentInfo"@ != "manufacturerInfo"@) by { assert("paymentInfo"@.len() != "manufacturerInfo"@.len()); }
        assert("paymentInfo"@ != "distributorInfo"@) by { assert("paymentInfo"@.len() != "distributorInfo"@.len()); }
        assert("paymentInfo"@ != "consumerInfo"@) by { assert("paymentInfo"@.len() != "consumerInfo"@.len()); }
        assert("paymentInfo"@ != "transportationCompanyInfo"@) by { assert("paymentInfo"@.len() != "transportationCompanyInfo"@.len()); }
        assert("paymentInfo"@ != "productDeliveryInfo"@) by { assert("paymentInfo"@.len() != "productDeliveryInfo"@.len()); }
        assert("paymentInfo"@ != "metricType"@) by { assert("paymentInfo"@.len() != "metricType"@.len()); }
        assert("resource"@ != "providerInfo"@) by { assert("resource"@.len() != "providerInfo"@.len()); }
        assert("resource"@ != "supplierInfo"@) by { assert("resource"@.len() != "supplierInfo"@.len()); }
        assert("resource"@ != "manufacturerInfo"@) by { assert("resource"@.len() != "manufacturerInfo"@.len()); }
        assert("resource"@ != "distributorInfo"@) by { assert("resource"@.len() != "distributorInfo"@.len()); }
        assert("resource"@ != "consumerInfo"@) by { assert("resource"@.len() != "consumerInfo"@.len()); }
        assert("resource"@ != "transportationCompanyInfo"@) by { assert("resource"@.len() != "transportationCompanyInfo"@.len()); }
        assert("resource"@ != "productDeliveryInfo"@) by { assert("resource"@.len() != "productDeliveryInfo"@.len()); }
        assert("resource"@ != "metricType"@) by { assert("resource"@.len() != "metricType"@.len()); }
        assert(text_field(o@, "retailerInfo"@) == Some(d.retailer_info@));
        assert(product_at(o@, "productRetailInfo"@) == Some(d.product_retail_info@));
        assert(payment_at(o@, "paymentInfo"@) == Some(d.payment_info@));
        assert(resource_at(o@, "resource"@) == Some(d.resource@));
        assert(retailer_v(o@) == Some(BlockData::RetailerBlockData(*d)@));
        assert(text_field(o@, "providerInfo"@) is None);
        assert(raw_materials_v(o@) is None);
        assert(text_field(o@, "supplierInfo"@) is None);
        assert(supplier_v(o@) is None);
        assert(text_field(o@, "manufacturerInfo"@) is None);
        assert(manufacturer_v(o@) is None);
        assert(text_field(o@, "distributorInfo"@) is None);
        assert(distributor_v(o@) is None);
        assert(text_field(o@, "consumerInfo"@) is None);
        assert(consumer_v(o@) is None);
        assert(text_field(o@, "transportationCompanyInfo"@) is None);
        assert(start_transportation_v(o@) is None);
        assert(product_at(o@, "productDeliveryInfo"@) is None);
        assert(delivered_transportation_v(o@) is None);
        assert(text_field(o@, "metricType"@) is None);
        assert(metric_v(o@) is None);
    }
    o
}

fn read_consumer(o: &Fields) -> (r: Option<BlockData>)
    ensures
        view_opt(r) == consumer_v(o@),
        r matches Some(d) ==> d.wf(),
{
    let a = get_text(o, "consumerInfo");
    let b = read_resource_at(o, "resource");
    match (a, b) {
        (
            Some(consumer_info),
            Some(resource),
        ) => Some(BlockData::ConsumerBlockData(ConsumerBlockData {
                consumer_info,
                resource,
            })),
        _ => None,
    }
}

fn consumer_tree(d: &ConsumerBlockData) -> (r: Fields)
    ensures
        forall|k: int| 1 <= k <= 9 ==> #[trigger] object_variant_v(k, r@) == if k == 6 {
            Some(BlockData::ConsumerBlockData(*d)@)
        } else {
            None
        },
        is_data_tree(JsonValue::Object(r), BlockData::ConsumerBlockData(*d)@),
{
    let mut o: Fields = Vec::new();
    push_text(&mut o, "consumerInfo", &d.consumer_info);
    let v_resource = resource_tree(&d.resource);
    push_value(&mut o, "resource", v_resource);
    proof {
        reveal_strlit("consumerInfo");
        reveal_strlit("resource");
        reveal_strlit("providerInfo");
        reveal_strlit("supplierInfo");
        reveal_strlit("manufacturerInfo");
        reveal_strlit("distributorInfo");
        reveal_strlit("retailerInfo");
        reveal_strlit("transportationCompanyInfo");
        reveal_strlit("productDeliveryInfo");
        reveal_strlit("metricType");
        reveal_with_fuel(field_of, 3);
        assert("consumerInfo"@ != "resource"@) by { assert("consumerInfo"@.len() != "resource"@.len()); }
        assert("consumerInfo"@ != "providerInfo"@) by { assert("consumerInfo"@[0] != "providerInfo"@[0]); }
        assert("consumerInfo"@ != "supplierInfo"@) by { assert("consumerInfo"@[0] != "supplierInfo"@[0]); }
        assert("consumerInfo"@ != "manufacturerInfo"@) by { assert("consumerInfo"@.len() != "manufacturerInfo"@.len()); }
        assert("consumerInfo"@ != "distributorInfo"@) by { assert("consumerInfo"@.len() != "distributorInfo"@.len()); }
        assert("consumerInfo"@ != "retailerInfo"@) by { assert("consumerInfo"@[0] != "retailerInfo"@[0]); }
        assert("consumerInfo"@ != "transportationCompanyInfo"@) by { assert("consumerInfo"@.len() != "transportationCompanyInfo"@.len()); }
        assert("consumerInfo"@ != "productDeliveryInfo"@) by { assert("consumerInfo"@.len() != "productDeliveryInfo"@.len()); }
        assert("consumerInfo"@ != "metricType"@) by { assert("consumerInfo"@.len() != "metricType"@.len()); }
        assert("resource"@ != "providerInfo"@) by { assert("resource"@.len() != "providerInfo"@.len()); }
        assert("resource"@ != "supplierInfo"@) by { assert("resource"@.len() != "supplierInfo"@.len()); }
        assert("resource"@ != "manufacturerInfo"@) by { assert("resource"@.len() != "manufacturerInfo"@.len()); }
        assert("resource"@ != "distributorInfo"@) by { assert("resource"@.len() != "distributorInfo"@.len()); }
        assert("resource"@ != "retailerInfo"@) by { assert("resource"@.len() != "retailerInfo"@.len()); }
        assert("resource"@ != "transportationCompanyInfo"@) by { assert("resource"@.len() != "transportationCompanyInfo"@.len()); }
        assert("resource"@ != "productDeliveryInfo"@) by { assert("resource"@.len() != "productDeliveryInfo"@.len()); }
        assert("resource"@ != "metricType"@) by { assert("resource"@.len() != "metricType"@.len()); }
        assert(text_field(o@, "consumerInfo"@) == Some(d.consumer_info@));
        assert(resource_at(o@, "resource"@) == Some(d.resource@));
        assert(consumer_v(o@) == Some(BlockData::ConsumerBlockData(*d)@));
        assert(text_field(o@, "providerInfo"@) is None);
        assert(raw_materials_v(o@) is None);
        assert(text_field(o@, "supplierInfo"@) is None);
        assert(supplier_v(o@) is None);
        assert(text_field(o@, "manufacturerInfo"@) is None);
        assert(manufacturer_v(o@) is None);
        assert(text_field(o@, "distributorInfo"@) is None);
        assert(distributor_v(o@) is None);
        assert(text_field(o@, "retailerInfo"@) is None);
        assert(retailer_v(o@) is None);
        assert(text_field(o@, "transportationCompanyInfo"@) is None);
        assert(start_transportation_v(o@) is None);
        assert(product_at(o@, "productDeliveryInfo"@) is None);
        assert(delivered_transportation_v(o@) is None);
        assert(text_field(o@, "metricType"@) is None);
        assert(metric_v(o@) is None);
    }
    o
}

fn read_start_transportation(o: &Fields) -> (r: Option<BlockData>)
    ensures
        view_opt(r) == start_transportation_v(o@),
        r matches Some(d) ==> d.wf(),
{
    let a = get_text(o, "transportationCompanyInfo");
    let b = read_product_at(o, "transportationInfo");
    let c = get_text(o, "startTimestamp");
    let d = get_text(o, "previousBlock");
    match (a, b, c, d) {
        (
            Some(transportation_company_info),
            Some(transportation_info),
            Some(start_timestamp),
            Some(previous_block),
        ) => Some(BlockData::StartTransportationData(StartTransportationData {
                transportation_company_info,
                transportation_info,
                start_timestamp,
                previous_block,
            })),
        _ => None,
    }
}

fn start_transportation_tree(d: &StartTransportationData) -> (r: Fields)
    ensures
        forall|k: int| 1 <= k <= 9 ==> #[trigger] object_variant_v(k, r@) == if k == 7 {
            Some(BlockData::StartTransportationData(*d)@)
        } else {
            None
        },
        is_data_tree(JsonValue::Object(r), BlockData::StartTransportationData(*d)@),
{
    let mut o: Fields = Vec::new();
    push_text(&mut o, "transportationCompanyInfo", &d.transportation_company_info);
    let v_transportation_info = product_info_tree(&d.transportation_info);
    push_value(&mut o, "transportationInfo", v_transportation_info);
    push_text(&mut o, "startTimestamp", &d.start_timestamp);
    push_text(&mut o, "previousBlock", &d.previous_block);
    proof {
        reveal_strlit("transportationCompanyInfo");
        reveal_strlit("transportationInfo");
        reveal_strlit("startTimestamp");
        reveal_strlit("previousBlock");
        reveal_strlit("providerInfo");
        reveal_strlit("supplierInfo");
        reveal_strlit("manufacturerInfo");
        reveal_strlit("distributorInfo");
        reveal_strlit("retailerInfo");
        reveal_strlit("consumerInfo");
        reveal_strlit("productDeliveryInfo");
        reveal_strlit("metricType");
        reveal_with_fuel(field_of, 5);
        assert("transportationCompanyInfo"@ != "transportationInfo"@) by { assert("transportationCompanyInfo"@.len() != "transportationInfo"@.len()); }
        assert("transportationCompanyInfo"@ != "startTimestamp"@) by { assert("transportationCompanyInfo"@.len() != "startTimestamp"@.len()); }
        assert("transportationCompanyInfo"@ != "previousBlock"@) by { assert("transportationCompanyInfo"@.len() != "previousBlock"@.len()); }
        assert("transportationCompanyInfo"@ != "providerInfo"@) by { assert("transportationCompanyInfo"@.len() != "providerInfo"@.len()); }
        assert("transportationCompanyInfo"@ != "supplierInfo"@) by { assert("transportationCompanyInfo"@.len() != "supplierInfo"@.len()); }
        assert("transportationCompanyInfo"@ != "manufacturerInfo"@) by { assert("transportationCompanyInfo"@.len() != "manufacturerInfo"@.len()); }
        assert("transportationCompanyInfo"@ != "distributorInfo"@) by { assert("transportationCompanyInfo"@.len() != "distributorInfo"@.len()); }
        assert("transportationCompanyInfo"@ != "retailerInfo"@) by { assert("transportationCompanyInfo"@.len() != "retailerInfo"@.len()); }
        assert("transportationCompanyInfo"@ != "consumerInfo"@) by { assert("transportationCompanyInfo"@.len() != "consumerInfo"@.len()); }
        assert("transportationCompanyInfo"@ != "productDeliveryInfo"@) by { assert("transportationCompanyInfo"@.len() != "productDeliveryInfo"@.len()); }
        assert("transportationCompanyInfo"@ != "metricType"@) by { assert("transportationCompanyInfo"@.len() != "metricType"@.len()); }
        assert("transportationInfo"@ != "startTimestamp"@) by { assert("transportationInfo"@.len() != "startTimestamp"@.len()); }
        assert("transportationInfo"@ != "previousBlock"@) by { assert("transportationInfo"@.len() != "previousBlock"@.len()); }
        assert("transportationInfo"@ != "providerInfo"@) by { assert("transportationInfo"@.len() != "providerInfo"@.len()); }
        assert("transportationInfo"@ != "supplierInfo"@) by { assert("transportationInfo"@.len() != "supplierInfo"@.len()); }
        assert("transportationInfo"@ != "manufacturerInfo"@) by { assert("transportationInfo"@.len() != "manufacturerInfo"@.len()); }
        assert("transportationInfo"@ != "distributorInfo"@) by { assert("transportationInfo"@.len() != "distributorInfo"@.len()); }
        assert("transportationInfo"@ != "retailerInfo"@) by { assert("transportationInfo"@.len() != "retailerInfo"@.len()); }
        assert("transportationInfo"@ != "consumerInfo"@) by { assert("transportationInfo"@.len() != "consumerInfo"@.len()); }
        assert("transportationInfo"@ != "productDeliveryInfo"@) by { assert("transportationInfo"@.len() != "productDeliveryInfo"@.len()); }
        assert("transportationInfo"@ != "metricType"@) by { assert("transportationInfo"@.len() != "metricType"@.len()); }
        assert("startTimestamp"@ != "previousBlock"@) by { assert("startTimestamp"@.len() != "previousBlock"@.len()); }
        assert("startTimestamp"@ != "providerInfo"@) by { assert("startTimestamp"@.len() != "providerInfo"@.len()); }
        assert("startTimestamp"@ != "supplierInfo"@) by { assert("startTimestamp"@.len() != "supplierInfo"@.len()); }
        assert("startTimestamp"@ != "manufacturerInfo"@) by { assert("startTimestamp"@.len() != "manufacturerInfo"@.len()); }
        assert("startTimestamp"@ != "distributorInfo"@) by { assert("startTimestamp"@.len() != "distributorInfo"@.len()); }
        assert("startTimestamp"@ != "retailerInfo"@) by { assert("startTimestamp"@.len() != "retailerInfo"@.len()); }
        assert("startTimestamp"@ != "consumerInfo"@) by { assert("startTimestamp"@.len() != "consumerInfo"@.len()); }
        assert("startTimestamp"@ != "productDeliveryInfo"@) by { assert("startTimestamp"@.len() != "productDeliveryInfo"@.len()); }
        assert("startTimestamp"@ != "metricType"@) by { assert("startTimestamp"@.len() != "metricType"@.len()); }
        assert("previousBlock"@ != "providerInfo"@) by { assert("previousBlock"@.len() != "providerInfo"@.len()); }
        assert("previousBlock"@ != "supplierInfo"@) by { assert("previousBlock"@.len() != "supplierInfo"@.len()); }
        assert("previousBlock"@ != "manufacturerInfo"@) by { assert("previousBlock"@.len() != "manufacturerInfo"@.len()); }
        assert("previousBlock"@ != "distributorInfo"@) by { assert("previousBlock"@.len() != "distributorInfo"@.len()); }
        assert("previousBlock"@ != "retailerInfo"@) by { assert("previousBlock"@.len() != "retailerInfo"@.len()); }
        assert("previousBlock"@ != "consumerInfo"@) by { assert("previousBlock"@.len() != "consumerInfo"@.len()); }
        assert("previousBlock"@ != "productDeliveryInfo"@) by { assert("previousBlock"@.len() != "productDeliveryInfo"@.len()); }
        assert("previousBlock"@ != "metricType"@) by { assert("previousBlock"@.len() != "metricType"@.len()); }
        assert(text_field(o@, "transportationCompanyInfo"@) == Some(d.transportation_company_info@));
        assert(product_at(o@, "transportationInfo"@) == Some(d.transportation_info@));
        assert(text_field(o@, "startTimestamp"@) == Some(d.start_timestamp@));
        assert(text_field(o@, "previousBlock"@) == Some(d.previous_block@));
        assert(start_transportation_v(o@) == Some(BlockData::StartTransportationData(*d)@));
        assert(text_field(o@, "providerInfo"@) is None);
        assert(raw_materials_v(o@) is None);
        assert(text_field(o@, "supplierInfo"@) is None);
        assert(supplier_v(o@) is None);
        assert(text_field(o@, "manufacturerInfo"@) is None);
        assert(manufacturer_v(o@) is None);
        assert(text_field(o@, "distributorInfo"@) is None);
        assert(distributor_v(o@) is None);
        assert(text_field(o@, "retailerInfo"@) is None);
        assert(retailer_v(o@) is None);
        assert(text_field(o@, "consumerInfo"@) is None);
        assert(consumer_v(o@) is None);
        assert(product_at(o@, "productDeliveryInfo"@) is None);
        assert(delivered_transportation_v(o@) is None);
        assert(text_field(o@, "metricType"@) is None);
        assert(metric_v(o@) is None);
    }
    o
}

fn read_delivered_transportation(o: &Fields) -> (r: Option<BlockData>)
    ensures
        view_opt(r) == delivered_transportation_v(o@),
        r matches Some(d) ==> d.wf(),
{
    let a = read_product_at(o, "productDeliveryInfo");
    let b = get_text(o, "deliveryTimestamp");
    let c = read_payment_at(o, "paymentInfo");
    let d = get_text_list(o, "metrics");
    match (a, b, c, d) {
        (
            Some(product_delivery_info),
            Some(delivery_timestamp),
            Some(payment_info),
            Some(metrics),
        ) => Some(BlockData::DeliveredTransportationData(DeliveredTransportationData {
                product_delivery_info,
                delivery_timestamp,
                payment_info,
                metrics,
            })),
        _ => None,
    }
}

fn delivered_transportation_tree(d: &DeliveredTransportationData) -> (r: Fields)
    ensures
        forall|k: int| 1 <= k <= 9 ==> #[trigger] object_variant_v(k, r@) == if k == 8 {
            Some(BlockData::DeliveredTransportationData(*d)@)
        } else {
            None
        },
        is_data_tree(JsonValue::Object(r), BlockData::DeliveredTransportationData(*d)@),
{
    let mut o: Fields = Vec::new();
    let v_product_delivery_info = product_info_tree(&d.product_delivery_info);
    push_value(&mut o, "productDeliveryInfo", v_product_delivery_info);
    push_text(&mut o, "deliveryTimestamp", &d.delivery_timestamp);
    let v_payment_info = payment_info_tree(&d.payment_info);
    push_value(&mut o, "paymentInfo", v_payment_info);
    let v_metrics = text_list_tree(&d.metrics);
    push_value(&mut o, "metrics", v_metrics);
    proof {
        reveal_strlit("productDeliveryInfo");
        reveal_strlit("deliveryTimestamp");
        reveal_strlit("paymentInfo");
        reveal_strlit("metrics");
        reveal_strlit("providerInfo");
        reveal_strlit("supplierInfo");
        reveal_strlit("manufacturerInfo");
        reveal_strlit("distributorInfo");
        reveal_strlit("retailerInfo");
        reveal_strlit("consumerInfo");
        reveal_strlit("transportationCompanyInfo");
        reveal_strlit("metricType");
        reveal_with_fuel(field_of, 5);
        assert("productDeliveryInfo"@ != "deliveryTimestamp"@) by { assert("productDeliveryInfo"@.len() != "deliveryTimestamp"@.len()); }
        assert("productDeliveryInfo"@ != "paymentInfo"@) by { assert("productDeliveryInfo"@.len() != "paymentInfo"@.len()); }
        assert("productDeliveryInfo"@ != "metrics"@) by { assert("productDeliveryInfo"@.len() != "metrics"@.len()); }
        assert("productDeliveryInfo"@ != "providerInfo"@) by { assert("productDeliveryInfo"@.len() != "providerInfo"@.len()); }
        assert("productDeliveryInfo"@ != "supplierInfo"@) by { assert("productDeliveryInfo"@.len() != "supplierInfo"@.len()); }
        assert("productDeliveryInfo"@ != "manufacturerInfo"@) by { assert("productDeliveryInfo"@.len() != "manufacturerInfo"@.len()); }
        assert("productDeliveryInfo"@ != "distributorInfo"@) by { assert("productDeliveryInfo"@.len() != "distributorInfo"@.len()); }
        assert("productDeliveryInfo"@ != "retailerInfo"@) by { assert("productDeliveryInfo"@.len() != "retailerInfo"@.len()); }
        assert("productDeliveryInfo"@ != "consumerInfo"@) by { assert("productDeliveryInfo"@.len() != "consumerInfo"@.len()); }
        assert("productDeliveryInfo"@ != "transportationCompanyInfo"@) by { assert("productDeliveryInfo"@.len() != "transportationCompanyInfo"@.len()); }
        assert("productDeliveryInfo"@ != "metricType"@) by { assert("productDeliveryInfo"@.len() != "metricType"@.len()); }
        assert("deliveryTimestamp"@ != "paymentInfo"@) by { assert("deliveryTimestamp"@.len() != "paymentInfo"@.len()); }
        assert("deliveryTimestamp"@ != "metrics"@) by { assert("deliveryTimestamp"@.len() != "metrics"@.len()); }
        assert("deliveryTimestamp"@ != "providerInfo"@) by { assert("deliveryTimestamp"@.len() != "providerInfo"@.len()); }
        assert("deliveryTimestamp"@ != "supplierInfo"@) by { assert("deliveryTimestamp"@.len() != "supplierInfo"@.len()); }
        assert("deliveryTimestamp"@ != "manufacturerInfo"@) by { assert("deliveryTimestamp"@.len() != "manufacturerInfo"@.len()); }
        assert("deliveryTimestamp"@ != "distributorInfo"@) by { assert("deliveryTimestamp"@.len() != "distributorInfo"@.len()); }
        assert("deliveryTimestamp"@ != "retailerInfo"@) by { assert("deliveryTimestamp"@.len() != "retailerInfo"@.len()); }
        assert("deliveryTimestamp"@ != "consumerInfo"@) by { assert("deliveryTimestamp"@.len() != "consumerInfo"@.len()); }
        assert("deliveryTimestamp"@ != "transportationCompanyInfo"@) by { assert("deliveryTimestamp"@.len() != "transportationCompanyInfo"@.len()); }
        assert("deliveryTimestamp"@ != "metricType"@) by { assert("deliveryTimestamp"@.len() != "metricType"@.len()); }
        assert("paymentInfo"@ != "metrics"@) by { assert("paymentInfo"@.len() != "metrics"@.len()); }
        assert("paymentInfo"@ != "providerInfo"@) by { assert("paymentInfo"@.len() != "providerInfo"@.len()); }
        assert("paymentInfo"@ != "supplierInfo"@) by { assert("paymentInfo"@.len() != "supplierInfo"@.len()); }
        assert("paymentInfo"@ != "manufacturerInfo"@) by { assert("paymentInfo"@.len() != "manufacturerInfo"@.len()); }
        assert("paymentInfo"@ != "distributorInfo"@) by { assert("paymentInfo"@.len() != "distributorInfo"@.len()); }
        assert("paymentInfo"@ != "retailerInfo"@) by { assert("paymentInfo"@.len() != "retailerInfo"@.len()); }
        assert("paymentInfo"@ != "consumerInfo"@) by { assert("paymentInfo"@.len() != "consumerInfo"@.len()); }
        assert("paymentInfo"@ != "transportationCompanyInfo"@) by { assert("paymentInfo"@.len() != "transportationCompanyInfo"@.len()); }
        assert("paymentInfo"@ != "metricType"@) by { assert("paymentInfo"@.len() != "metricType"@.len()); }
        assert("metrics"@ != "providerInfo"@) by { assert("metrics"@.len() != "providerInfo"@.len()); }
        assert("metrics"@ != "supplierInfo"@) by { assert("metrics"@.len() != "supplierInfo"@.len()); }
        assert("metrics"@ != "manufacturerInfo"@) by { assert("metrics"@.len() != "manufacturerInfo"@.len()); }
        assert("metrics"@ != "distributorInfo"@) by { assert("metrics"@.len() != "distributorInfo"@.len()); }
        assert("metrics"@ != "retailerInfo"@) by { assert("metrics"@.len() != "retailerInfo"@.len()); }
        assert("metrics"@ != "consumerInfo"@) by { assert("metrics"@.len() != "consumerInfo"@.len()); }
        assert("metrics"@ != "transportationCompanyInfo"@) by { assert("metrics"@.len() != "transportationCompanyInfo"@.len()); }
        assert("metrics"@ != "metricType"@) by { assert("metrics"@.len() != "metricType"@.len()); }
        assert(product_at(o@, "productDeliveryInfo"@) == Some(d.product_delivery_info@));
        assert(text_field(o@, "deliveryTimestamp"@) == Some(d.delivery_timestamp@));
        assert(payment_at(o@, "paymentInfo"@) == Some(d.payment_info@));
        assert(text_list_field(o@, "metrics"@) == Some(strings_view(d.metrics)));
        assert(delivered_transportation_v(o@) == Some(BlockData::DeliveredTransportationData(*d)@));
        assert(text_field(o@, "providerInfo"@) is None);
        assert(raw_materials_v(o@) is None);
        assert(text_field(o@, "supplierInfo"@) is None);
        assert(supplier_v(o@) is None);
        assert(text_field(o@, "manufacturerInfo"@) is None);
        assert(manufacturer_v(o@) is None);
        assert(text_field(o@, "distributorInfo"@) is None);
        assert(distributor_v(o@) is None);
        assert(text_field(o@, "retailerInfo"@) is None);
        assert(retailer_v(o@) is None);
        assert(text_field(o@, "consumerInfo"@) is None);
        assert(consumer_v(o@) is None);
        assert(text_field(o@, "transportationCompanyInfo"@) is None);
        assert(start_transportation_v(o@) is None);
        assert(text_field(o@, "metricType"@) is None);
        assert(metric_v(o@) is None);
        lemma_text_list(v_metrics->Array_0@, strings_view(d.metrics));
    }
    o
}

fn read_metric(o: &Fields) -> (r: Option<BlockData>)
    ensures
        view_opt(r) == metric_v(o@),
        r matches Some(d) ==> d.wf(),
{
    let a = get_text(o, "metricType");
    let b = get_number(o, "metricValue");
    let c = get_text(o, "measurementUnit");
    let d = get_text(o, "timestamp");
    let e = get_text(o, "previousBlock");
    match (a, b, c, d, e) {
        (
            Some(metric_type),
            Some(metric_value),
            Some(measurement_unit),
            Some(timestamp),
            Some(previous_block),
        ) => Some(BlockData::MetricData(MetricData {
                metric_type,
                metric_value,
                measurement_unit,
                timestamp,
                previous_block,
            })),
        _ => None,
    }
}

fn metric_tree(d: &MetricData) -> (r: Fields)
    ensures
        forall|k: int| 1 <= k <= 9 ==> #[trigger] object_variant_v(k, r@) == if k == 9 {
            Some(BlockData::MetricData(*d)@)
        } else {
            None
        },
        is_data_tree(JsonValue::Object(r), BlockData::MetricData(*d)@),
{
    let mut o: Fields = Vec::new();
    push_text(&mut o, "metricType", &d.metric_type);
    push_number(&mut o, "metricValue", &d.metric_value);
    push_text(&mut o, "measurementUnit", &d.measurement_unit);
    push_text(&mut o, "timestamp", &d.timestamp);
    push_text(&mut o, "previousBlock", &d.previous_block);
    proof {
        reveal_strlit("metricType");
        reveal_strlit("metricValue");
        reveal_strlit("measurementUnit");
        reveal_strlit("timestamp");
        reveal_strlit("previousBlock");
        reveal_strlit("providerInfo");
        reveal_strlit("supplierInfo");
        reveal_strlit("manufacturerInfo");
        reveal_strlit("distributorInfo");
        reveal_strlit("retailerInfo");
        reveal_strlit("consumerInfo");
        reveal_strlit("transportationCompanyInfo");
        reveal_strlit("productDeliveryInfo");
        reveal_with_fuel(field_of, 6);
        assert("metricType"@ != "metricValue"@) by { assert("metricType"@.len() != "metricValue"@.len()); }
        assert("metricType"@ != "measurementUnit"@) by { assert("metricType"@.len() != "measurementUnit"@.len()); }
        assert("metricType"@ != "timestamp"@) by { assert("metricType"@.len() != "timestamp"@.len()); }
        assert("metricType"@ != "previousBlock"@) by { assert("metricType"@.len() != "previousBlock"@.len()); }
        assert("metricType"@ != "providerInfo"@) by { assert("metricType"@.len() != "providerInfo"@.len()); }
        assert("metricType"@ != "supplierInfo"@) by { assert("metricType"@.len() != "supplierInfo"@.len()); }
        assert("metricType"@ != "manufacturerInfo"@) by { assert("metricType"@.len() != "manufacturerInfo"@.len()); }
        assert("metricType"@ != "distributorInfo"@) by { assert("metricType"@.len() != "distributorInfo"@.len()); }
        assert("metricType"@ != "retailerInfo"@) by { assert("metricType"@.len() != "retailerInfo"@.len()); }
        assert("metricType"@ != "consumerInfo"@) by { assert("metricType"@.len() != "consumerInfo"@.len()); }
        assert("metricType"@ != "transportationCompanyInfo"@) by { assert("metricType"@.len() != "transportationCompanyInfo"@.len()); }
        assert("metricType"@ != "productDeliveryInfo"@) by { assert("metricType"@.len() != "productDeliveryInfo"@.len()); }
        assert("metricValue"@ != "measurementUnit"@) by { assert("metricValue"@.len() != "measurementUnit"@.len()); }
        assert("metricValue"@ != "timestamp"@) by { assert("metricValue"@.len() != "timestamp"@.len()); }
        assert("metricValue"@ != "previousBlock"@) by { assert("metricValue"@.len() != "previousBlock"@.len()); }
        assert("metricValue"@ != "providerInfo"@) by { assert("metricValue"@.len() != "providerInfo"@.len()); }
        assert("metricValue"@ != "supplierInfo"@) by { assert("metricValue"@.len() != "supplierInfo"@.len()); }
        assert("metricValue"@ != "manufacturerInfo"@) by { assert("metricValue"@.len() != "manufacturerInfo"@.len()); }
        assert("metricValue"@ != "distributorInfo"@) by { assert("metricValue"@.len() != "distributorInfo"@.len()); }
        assert("metricValue"@ != "retailerInfo"@) by { assert("metricValue"@.len() != "retailerInfo"@.len()); }
        assert("metricValue"@ != "consumerInfo"@) by { assert("metricValue"@.len() != "consumerInfo"@.len()); }
        assert("metricValue"@ != "transportationCompanyInfo"@) by { assert("metricValue"@.len() != "transportationCompanyInfo"@.len()); }
        assert("metricValue"@ != "productDeliveryInfo"@) by { assert("metricValue"@.len() != "productDeliveryInfo"@.len()); }
        assert("measurementUnit"@ != "timestamp"@) by { assert("measurementUnit"@.len() != "timestamp"@.len()); }
        assert("measurementUnit"@ != "previousBlock"@) by { assert("measurementUnit"@.len() != "previousBlock"@.len()); }
        assert("measurementUnit"@ != "providerInfo"@) by { assert("measurementUnit"@.len() != "providerInfo"@.len()); }
        assert("measurementUnit"@ != "supplierInfo"@) by { assert("measurementUnit"@.len() != "supplierInfo"@.len()); }
        assert("measurementUnit"@ != "manufacturerInfo"@) by { assert("measurementUnit"@.len() != "manufacturerInfo"@.len()); }
        assert("measurementUnit"@ != "distributorInfo"@) by { assert("measurementUnit"@[0] != "distributorInfo"@[0]); }
        assert("measurementUnit"@ != "retailerInfo"@) by { assert("measurementUnit"@.len() != "retailerInfo"@.len()); }
        assert("measurementUnit"@ != "consumerInfo"@) by { assert("measurementUnit"@.len() != "consumerInfo"@.len()); }
        assert("measurementUnit"@ != "transportationCompanyInfo"@) by { assert("measurementUnit"@.len() != "transportationCompanyInfo"@.len()); }
        assert("measurementUnit"@ != "productDeliveryInfo"@) by { assert("measurementUnit"@.len() != "productDeliveryInfo"@.len()); }
        assert("timestamp"@ != "previousBlock"@) by { assert("timestamp"@.len() != "previousBlock"@.len()); }
        assert("timestamp"@ != "providerInfo"@) by { assert("timestamp"@.len() != "providerInfo"@.len()); }
        assert("timestamp"@ != "supplierInfo"@) by { assert("timestamp"@.len() != "supplierInfo"@.len()); }
        assert("timestamp"@ != "manufacturerInfo"@) by { assert("timestamp"@.len() != "manufacturerInfo"@.len()); }
        assert("timestamp"@ != "distributorInfo"@) by { assert("timestamp"@.len() != "distributorInfo"@.len()); }
        assert("timestamp"@ != "retailerInfo"@) by { assert("timestamp"@.len() != "retailerInfo"@.len()); }
        assert("timestamp"@ != "consumerInfo"@) by { assert("timestamp"@.len() != "consumerInfo"@.len()); }
        assert("timestamp"@ != "transportationCompanyInfo"@) by { assert("timestamp"@.len() != "transportationCompanyInfo"@.len()); }
        assert("timestamp"@ != "productDeliveryInfo"@) by { assert("timestamp"@.len() != "productDeliveryInfo"@.len()); }
        assert("previousBlock"@ != "providerInfo"@) by { assert("previousBlock"@.len() != "providerInfo"@.len()); }
        assert("previousBlock"@ != "supplierInfo"@) by { assert("previousBlock"@.len() != "supplierInfo"@.len()); }
        assert("previousBlock"@ != "manufacturerInfo"@) by { assert("previousBlock"@.len() != "manufacturerInfo"@.len()); }
        assert("previousBlock"@ != "distributorInfo"@) by { assert("previousBlock"@.len() != "distributorInfo"@.len()); }
        assert("previousBlock"@ != "retailerInfo"@) by { assert("previousBlock"@.len() != "retailerInfo"@.len()); }
        assert("previousBlock"@ != "consumerInfo"@) by { assert("previousBlock"@.len() != "consumerInfo"@.len()); }
        assert("previousBlock"@ != "transportationCompanyInfo"@) by { assert("previousBlock"@.len() != "transportationCompanyInfo"@.len()); }
        assert("previousBlock"@ != "productDeliveryInfo"@) by { assert("previousBlock"@.len() != "productDeliveryInfo"@.len()); }
        assert(text_field(o@, "metricType"@) == Some(d.metric_type@));
        assert(number_field(o@, "metricValue"@) == Some(d.metric_value@));
        assert(text_field(o@, "measurementUnit"@) == Some(d.measurement_unit@));
        assert(text_field(o@, "timestamp"@) == Some(d.timestamp@));
        assert(text_field(o@, "previousBlock"@) == Some(d.previous_block@));
        assert(metric_v(o@) == Some(BlockData::MetricData(*d)@));
        assert(text_field(o@, "providerInfo"@) is None);
        assert(raw_materials_v(o@) is None);
        assert(text_field(o@, "supplierInfo"@) is None);
        assert(supplier_v(o@) is None);
        assert(text_field(o@, "manufacturerInfo"@) is None);
        assert(manufacturer_v(o@) is None);
        assert(text_field(o@, "distributorInfo"@) is None);
        assert(distributor_v(o@) is None);
        assert(text_field(o@, "retailerInfo"@) is None);
        assert(retailer_v(o@) is None);
        assert(text_field(o@, "consumerInfo"@) is None);
        assert(consumer_v(o@) is None);
        assert(text_field(o@, "transportationCompanyInfo"@) is None);
        assert(start_transportation_v(o@) is None);
        assert(product_at(o@, "productDeliveryInfo"@) is None);
        assert(delivered_transportation_v(o@) is None);
    }
    o
}

fn read_object_variant(o: &Fields) -> (r: Option<BlockData>)
    ensures
        view_opt(r) == first_variant_from(1, o@),
        r matches Some(d) ==> d.wf(),
{
    proof {
        reveal_with_fuel(first_variant_from, 10);
    }
    let r1 = read_raw_materials(o);
    if r1.is_some() {
        return r1;
    }
    let r2 = read_supplier(o);
    if r2.is_some() {
        return r2;
    }
    let r3 = read_manufacturer(o);
    if r3.is_some() {
        return r3;
    }
    let r4 = read_distributor(o);
    if r4.is_some() {
        return r4;
    }
    let r5 = read_retailer(o);
    if r5.is_some() {
        return r5;
    }
    let r6 = read_consumer(o);
    if r6.is_some() {
        return r6;
    }
    let r7 = read_start_transportation(o);
    if r7.is_some() {
        return r7;
    }
    let r8 = read_delivered_transportation(o);
    if r8.is_some() {
        return r8;
    }
    let r9 = read_metric(o);
    if r9.is_some() {
        return r9;
    }
    None
}

/// Reads the payload that a JSON value stands for: a string is the plain
/// variant, an object the first variant whose fields it holds.
pub fn data_from_tree(t: &JsonValue) -> (r: Option<BlockData>)
    ensures
        view_opt(r) == data_of_tree(*t),
        r matches Some(d) ==> d.wf(),
{
    match t {
        JsonValue::Str(s) => Some(BlockData::BasicBlockData(s.clone())),
        JsonValue::Object(o) => read_object_variant(o),
        _ => None,
    }
}

/// Writes a payload as a JSON value. Reading the value back gives the same
/// payload, and an object written for one variant holds the fields of no
/// other.
pub fn data_to_tree(d: &BlockData) -> (r: JsonValue)
    requires
        d.wf(),
    ensures
        is_data_tree(r, d@),
        data_of_tree(r) == Some(d@),
        r is Str <==> d is BasicBlockData,
        r is Str || r is Object,
        r matches JsonValue::Object(o) ==> forall|k: int|
            1 <= k <= 9 ==> (#[trigger] object_variant_v(k, o@) is Some <==> k == variant_index(d@)),
{
    let r = match d {
        BlockData::BasicBlockData(s) => JsonValue::Str(s.clone()),
        BlockData::RawMaterialsProducerBlockData(x) => JsonValue::Object(raw_materials_tree(x)),
        BlockData::SupplierBlockData(x) => JsonValue::Object(supplier_tree(x)),
        BlockData::ManufacturerBlockData(x) => JsonValue::Object(manufacturer_tree(x)),
        BlockData::DistributorBlockData(x) => JsonValue::Object(distributor_tree(x)),
        BlockData::RetailerBlockData(x) => JsonValue::Object(retailer_tree(x)),
        BlockData::ConsumerBlockData(x) => JsonValue::Object(consumer_tree(x)),
        BlockData::StartTransportationData(x) => JsonValue::Object(start_transportation_tree(x)),
        BlockData::DeliveredTransportationData(x) => JsonValue::Object(delivered_transportation_tree(x)),
        BlockData::MetricData(x) => JsonValue::Object(metric_tree(x)),
    };
    proof {
        reveal_with_fuel(first_variant_from, 10);
        if r is Object {
            let o = r->Object_0;
            assert(object_variant_v(1, o@) is Some <==> 1 == variant_index(d@));
            assert(object_variant_v(2, o@) is Some <==> 2 == variant_index(d@));
            assert(object_variant_v(3, o@) is Some <==> 3 == variant_index(d@));
            assert(object_variant_v(4, o@) is Some <==> 4 == variant_index(d@));
            assert(object_variant_v(5, o@) is Some <==> 5 == variant_index(d@));
            assert(object_variant_v(6, o@) is Some <==> 6 == variant_index(d@));
            assert(object_variant_v(7, o@) is Some <==> 7 == variant_index(d@));
            assert(object_variant_v(8, o@) is Some <==> 8 == variant_index(d@));
            assert(object_variant_v(9, o@) is Some <==> 9 == variant_index(d@));
        }
    }
    r
}

/// The tag of an envelope: its `blockType` string, or failing that its `tag`
/// string.
pub open spec fn envelope_tag(o: FieldsV) -> Option<TextV> {
    if text_field(o, "blockType"@) is Some {
        text_field(o, "blockType"@)
    } else {
        text_field(o, "tag"@)
    }
}

/// The tag and payload that a JSON value stands for as an envelope.
pub open spec fn tagged_of_tree(t: JsonValue) -> Option<(TextV, DataV)> {
    match t {
        JsonValue::Object(o) => {
            let tag = envelope_tag(o@);
            let data = field_of(o@, "data"@);
            if tag is Some && data is Some && data_of_tree(data->0) is Some {
                Some((tag->0, data_of_tree(data->0)->0))
            } else {
                None
            }
        },
        _ => None,
    }
}

/// The tag and payload that a body holds as a read envelope.
pub open spec fn tagged_of_body(b: Seq<u8>) -> Option<(TextV, DataV)> {
    match parsed_json(b) {
        Some(t) => tagged_of_tree(t),
        None => None,
    }
}

/// `t` is exactly the JSON value written for the envelope `p`: its tag, then
/// its payload, and nothing else.
pub open spec fn is_envelope_tree(t: JsonValue, p: BlockPayload) -> bool {
    t matches JsonValue::Object(o) && {
        &&& o@.len() == 2
        &&& o@[0].0@ == "tag"@ && text_is(o@[0].1, p.tag@)
        &&& o@[1].0@ == "data"@ && is_data_tree(o@[1].1, p.data@)
    }
}

/// Reads the envelope of a record's tree.
pub fn tagged_from_tree(t: &JsonValue) -> (r: Result<TaggedDataPayload, Error>)
    ensures
        r matches Ok(p) ==> tagged_of_tree(*t) == Some((p.block_type@, p.data@)),
        r is Err ==> r == Err::<TaggedDataPayload, Error>(Error::MalformedPayload) && tagged_of_tree(*t) is None,
{
    match t {
        JsonValue::Object(o) => {
            let tag = match get_text(o, "blockType") {
                Some(t) => Some(t),
                None => get_text(o, "tag"),
            };
            let data = match crate::json::find_field(o, "data") {
                Some(v) => data_from_tree(v),
                None => None,
            };
            match (tag, data) {
                (Some(block_type), Some(data)) => Ok(TaggedDataPayload { block_type, data }),
                _ => Err(Error::MalformedPayload),
            }
        },
        _ => Err(Error::MalformedPayload),
    }
}

/// Decodes a record body: UTF-8 JSON text of an object with a `blockType`
/// string and a `data` payload.
pub fn decode(body: &[u8]) -> (r: Result<TaggedDataPayload, Error>)
    ensures
        r matches Ok(p) ==> tagged_of_body(body@) == Some((p.block_type@, p.data@)),
        r is Err ==> r == Err::<TaggedDataPayload, Error>(Error::MalformedPayload) && tagged_of_body(body@) is None,
{
    match parse_json(body) {
        Some(t) => tagged_from_tree(&t),
        None => Err(Error::MalformedPayload),
    }
}

/// The UTF-8 bytes of a text.
pub fn text_bytes(s: &String) -> (r: Vec<u8>)
    ensures
        r@ == encode_utf8(s@),
{
    let b = s.as_str().as_bytes();
    let mut out: Vec<u8> = Vec::new();
    let mut i: usize = 0;
    while i < b.len()
        invariant
            i <= b@.len(),
            out@ == b@.subrange(0, i as int),
        decreases b@.len() - i,
    {
        out.push(b[i]);
        i = i + 1;
        assert(out@ =~= b@.subrange(0, i as int));
    }
    assert(out@ =~= b@);
    out
}

/// Builds the JSON value of an envelope. Reading it back as an envelope gives
/// the same tag and payload.
pub fn envelope_tree(p: &BlockPayload) -> (r: JsonValue)
    requires
        p.data.wf(),
    ensures
        is_envelope_tree(r, *p),
        tagged_of_tree(r) == Some((p.tag@, p.data@)),
{
    let mut o: Fields = Vec::new();
    push_text(&mut o, "tag", &p.tag);
    let data = data_to_tree(&p.data);
    push_value(&mut o, "data", data);
    proof {
        reveal_strlit("tag");
        reveal_strlit("data");
        reveal_strlit("blockType");
        reveal_with_fuel(field_of, 3);
        assert("data"@ != "tag"@) by {
            assert("data"@.len() != "tag"@.len());
        }
        assert("blockType"@ != "tag"@) by {
            assert("blockType"@.len() != "tag"@.len());
        }
        assert("blockType"@ != "data"@) by {
            assert("blockType"@.len() != "data"@.len());
        }
    }
    JsonValue::Object(o)
}

/// Encodes an envelope for posting: the tag's bytes, and the JSON text that
/// serde_json writes for the envelope's tree. It fails only where a number
/// literal in the payload is not a JSON number.
///
/// A number keeps its value but not always its spelling: serde_json writes
/// `12.50` as `12.5`.
pub fn encode(p: &BlockPayload) -> (r: Result<(Vec<u8>, Vec<u8>), Error>)
    requires
        p.data.wf(),
    ensures
        exists|t: JsonValue|
            #![trigger is_envelope_tree(t, *p)]
            is_envelope_tree(t, *p) && tagged_of_tree(t) == Some((p.tag@, p.data@)) && match r {
                Ok((tag, body)) => tag@ == encode_utf8(p.tag@) && written_json(t) == Some(body@),
                Err(e) => e == Error::MalformedPayload && written_json(t) is None,
            },
{
    let t = envelope_tree(p);
    match write_json(&t) {
        Some(body) => Ok((text_bytes(&p.tag), body)),
        None => Err(Error::MalformedPayload),
    }
}

} // verus!
