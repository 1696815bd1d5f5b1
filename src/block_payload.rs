//! The payload carried by each record, and its mathematical view.
//!
//! Numbers on the wire (costs, coordinates, metric values) are held as their
//! decimal literal text, so that a record is carried through unchanged.
use vstd::prelude::*;

verus! {

pub open spec fn opt_view(o: Option<String>) -> Option<Seq<char>> {
    match o {
        Some(s) => Some(s@),
        None => None,
    }
}

pub open spec fn view_opt<T: View>(o: Option<T>) -> Option<T::V> {
    match o {
        Some(x) => Some(x@),
        None => None,
    }
}

pub open spec fn strings_view(v: Vec<String>) -> Seq<Seq<char>> {
    v@.map_values(|s: String| s@)
}

/// A record wrapper as it is posted: a tag and the payload.
#[derive(Debug, Clone, PartialEq, Eq)]
pub struct BlockPayload {
    pub tag: String,
    pub data: BlockData,
}

/// A record wrapper as it is read back from the ledger.
#[derive(Debug, Clone, PartialEq, Eq)]
pub struct TaggedDataPayload {
    pub block_type: String,
    pub data: BlockData,
}

/// The closed set of payloads; on the wire the variant is told by its fields.
#[derive(Debug, Clone, PartialEq, Eq)]
pub enum BlockData {
    BasicBlockData(String),
    RawMaterialsProducerBlockData(RawMaterialsProducerBlockData),
    SupplierBlockData(SupplierBlockData),
    ManufacturerBlockData(ManufacturerBlockData),
    DistributorBlockData(DistributorBlockData),
    RetailerBlockData(RetailerBlockData),
    ConsumerBlockData(ConsumerBlockData),
    StartTransportationData(StartTransportationData),
    DeliveredTransportationData(DeliveredTransportationData),
    MetricData(MetricData),
}

/// Where a payment goes and how much; `smr_cost` is a decimal literal.
#[derive(Debug, Clone, PartialEq, Eq)]
pub struct PaymentInfo {
    pub wallet_address: String,
    pub smr_cost: String,
}

/// A link to exactly one predecessor, with its receipt.
#[derive(Debug, Clone, PartialEq, Eq)]
pub struct Resource {
    pub previous_block: String,
    pub transaction_receipt: String,
}

/// Links to several predecessors; entry `i` of both lists belong together.
#[derive(Debug, Clone, PartialEq, Eq)]
pub struct Resources {
    pub previous_blocks: Vec<String>,
    pub transaction_receipts: Vec<String>,
}

#[derive(Debug, Clone, PartialEq, Eq)]
pub struct RawMaterialsProducerBlockData {
    pub provider_info: String,
    pub material_info: ProductInfo,
    pub export_timestamp: String,
    pub export_location: ExportLocation,
    pub payment_info: PaymentInfo,
}

/// A description, with an optional reference to externally stored content.
#[derive(Debug, Clone, PartialEq, Eq)]
pub struct ProductInfo {
    pub info: String,
    pub file_cid: Option<String>,
}

/// Coordinates, each a decimal literal.
#[derive(Debug, Clone, PartialEq, Eq)]
pub struct ExportLocation {
    pub longitude: String,
    pub latitude: String,
}

#[derive(Debug, Clone, PartialEq, Eq)]
pub struct SupplierBlockData {
    pub supplier_info: String,
    pub processed_material_info: ProductInfo,
    pub resources: Resources,
    pub payment_info: PaymentInfo,
}

#[derive(Debug, Clone, PartialEq, Eq)]
pub struct ManufacturerBlockData {
    pub manufacturer_info: String,
    pub product_info: ProductInfo,
    pub resources: Resources,
    pub payment_info: PaymentInfo,
}

#[derive(Debug, Clone, PartialEq, Eq)]
pub struct DistributorBlockData {
    pub distributor_info: String,
    pub product_distribution_info: ProductInfo,
    pub resource: Resource,
    pub payment_info: PaymentInfo,
}

#[derive(Debug, Clone, PartialEq, Eq)]
pub struct RetailerBlockData {
    pub retailer_info: String,
    pub product_retail_info: ProductInfo,
    pub payment_info: PaymentInfo,
    pub resource: Resource,
}

#[derive(Debug, Clone, PartialEq, Eq)]
pub struct ConsumerBlockData {
    pub consumer_info: String,
    pub resource: Resource,
}

#[derive(Debug, Clone, PartialEq, Eq)]
pub struct StartTransportationData {
    pub transportation_company_info: String,
    pub transportation_info: ProductInfo,
    pub start_timestamp: String,
    pub previous_block: String,
}

#[derive(Debug, Clone, PartialEq, Eq)]
pub struct DeliveredTransportationData {
    pub product_delivery_info: ProductInfo,
    pub delivery_timestamp: String,
    pub payment_info: PaymentInfo,
    pub metrics: Vec<String>,
}

/// One sensor reading; `metric_value` is a decimal literal.
#[derive(Debug, Clone, PartialEq, Eq)]
pub struct MetricData {
    pub metric_type: String,
    pub metric_value: String,
    pub measurement_unit: String,
    pub timestamp: String,
    pub previous_block: String,
}

pub type TextV = Seq<char>;

pub type ProductInfoV = (TextV, Option<TextV>);

pub type PaymentInfoV = (TextV, TextV);

pub type ResourceV = (TextV, TextV);

pub type ResourcesV = (Seq<TextV>, Seq<TextV>);

pub type LocationV = (TextV, TextV);

/// What a payload holds, as mathematical values.
pub enum DataV {
    Basic(TextV),
    RawMaterialsProducer(TextV, ProductInfoV, TextV, LocationV, PaymentInfoV),
    Supplier(TextV, ProductInfoV, ResourcesV, PaymentInfoV),
    Manufacturer(TextV, ProductInfoV, ResourcesV, PaymentInfoV),
    Distributor(TextV, ProductInfoV, ResourceV, PaymentInfoV),
    Retailer(TextV, ProductInfoV, PaymentInfoV, ResourceV),
    Consumer(TextV, ResourceV),
    StartTransportation(TextV, ProductInfoV, TextV, TextV),
    DeliveredTransportation(ProductInfoV, TextV, PaymentInfoV, Seq<TextV>),
    Metric(TextV, TextV, TextV, TextV, TextV),
}

impl View for ProductInfo {
    type V = ProductInfoV;

    open spec fn view(&self) -> ProductInfoV {
        (self.info@, opt_view(self.file_cid))
    }
}

impl View for PaymentInfo {
    type V = PaymentInfoV;

    open spec fn view(&self) -> PaymentInfoV {
        (self.wallet_address@, self.smr_cost@)
    }
}

impl View for Resource {
    type V = ResourceV;

    open spec fn view(&self) -> ResourceV {
        (self.previous_block@, self.transaction_receipt@)
    }
}

impl View for Resources {
    type V = ResourcesV;

    open spec fn view(&self) -> ResourcesV {
        (strings_view(self.previous_blocks), strings_view(self.transaction_receipts))
    }
}

impl View for ExportLocation {
    type V = LocationV;

    open spec fn view(&self) -> LocationV {
        (self.longitude@, self.latitude@)
    }
}

impl View for BlockData {
    type V = DataV;

    open spec fn view(&self) -> DataV {
        match self {
            BlockData::BasicBlockData(s) => DataV::Basic(s@),
            BlockData::RawMaterialsProducerBlockData(d) => DataV::RawMaterialsProducer(
                d.provider_info@,
                d.material_info@,
                d.export_timestamp@,
                d.export_location@,
                d.payment_info@,
            ),
            BlockData::SupplierBlockData(d) => DataV::Supplier(
                d.supplier_info@,
                d.processed_material_info@,
                d.resources@,
                d.payment_info@,
            ),
            BlockData::ManufacturerBlockData(d) => DataV::Manufacturer(
                d.manufacturer_info@,
                d.product_info@,
                d.resources@,
                d.payment_info@,
            ),
            BlockData::DistributorBlockData(d) => DataV::Distributor(
                d.distributor_info@,
                d.product_distribution_info@,
                d.resource@,
                d.payment_info@,
            ),
            BlockData::RetailerBlockData(d) => DataV::Retailer(
                d.retailer_info@,
                d.product_retail_info@,
                d.payment_info@,
                d.resource@,
            ),
            BlockData::ConsumerBlockData(d) => DataV::Consumer(d.consumer_info@, d.resource@),
            BlockData::StartTransportationData(d) => DataV::StartTransportation(
                d.transportation_company_info@,
                d.transportation_info@,
                d.start_timestamp@,
                d.previous_block@,
            ),
            BlockData::DeliveredTransportationData(d) => DataV::DeliveredTransportation(
                d.product_delivery_info@,
                d.delivery_timestamp@,
                d.payment_info@,
                strings_view(d.metrics),
            ),
            BlockData::MetricData(d) => DataV::Metric(
                d.metric_type@,
                d.metric_value@,
                d.measurement_unit@,
                d.timestamp@,
                d.previous_block@,
            ),
        }
    }
}

impl Resources {
    /// Each predecessor has its receipt.
    pub open spec fn wf(&self) -> bool {
        self.previous_blocks.len() == self.transaction_receipts.len()
    }
}

impl BlockData {
    /// The payload's link lists are paired.
    pub open spec fn wf(&self) -> bool {
        match self {
            BlockData::SupplierBlockData(d) => d.resources.wf(),
            BlockData::ManufacturerBlockData(d) => d.resources.wf(),
            _ => true,
        }
    }

    /// Whether the payload's link lists are paired.
    pub fn links_paired(&self) -> (r: bool)
        ensures
            r == self.wf(),
    {
        match self {
            BlockData::SupplierBlockData(d) => d.resources.previous_blocks.len() == d.resources.transaction_receipts.len(),
            BlockData::ManufacturerBlockData(d) => d.resources.previous_blocks.len() == d.resources.transaction_receipts.len(),
            _ => true,
        }
    }
}

impl ProductInfo {
    pub fn new(info: String, file_cid: Option<String>) -> (r: Self)
        ensures
            r.info == info,
            r.file_cid == file_cid,
    {
        Self { info, file_cid }
    }
}

impl StartTransportationData {
    pub fn new(
        transportation_company_info: String,
        transportation_info: ProductInfo,
        start_timestamp: String,
        previous_block: String,
    ) -> (r: Self)
        ensures
            r.transportation_company_info == transportation_company_info,
            r.transportation_info == transportation_info,
            r.start_timestamp == start_timestamp,
            r.previous_block == previous_block,
    {
        Self { transportation_company_info, transportation_info, start_timestamp, previous_block }
    }
}

impl DeliveredTransportationData {
    pub fn new(
        product_delivery_info: ProductInfo,
        delivery_timestamp: String,
        payment_info: PaymentInfo,
        metrics: Vec<String>,
    ) -> (r: Self)
        ensures
            r.product_delivery_info == product_delivery_info,
            r.delivery_timestamp == delivery_timestamp,
            r.payment_info == payment_info,
            r.metrics == metrics,
    {
        Self { product_delivery_info, delivery_timestamp, payment_info, metrics }
    }
}

impl MetricData {
    pub fn new(
        metric_type: String,
        metric_value: String,
        measurement_unit: String,
        timestamp: String,
        previous_block: String,
    ) -> (r: Self)
        ensures
            r.metric_type == metric_type,
            r.metric_value == metric_value,
            r.measurement_unit == measurement_unit,
            r.timestamp == timestamp,
            r.previous_block == previous_block,
    {
        Self { metric_type, metric_value, measurement_unit, timestamp, previous_block }
    }
}

} // verus!
