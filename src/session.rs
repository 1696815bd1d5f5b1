//! The transport session: a state machine from the chain root to delivery.
//!
//! The ledger, the clock and the prompt stay with the caller. The session says
//! what to post next and takes back what came of it: a failed metric post
//! leaves its chain's tip where it was, and sampling goes on.
use vstd::prelude::*;
use crate::block_payload::{
    BlockData, BlockPayload, DataV, DeliveredTransportationData, MetricData, PaymentInfo,
    PaymentInfoV, ProductInfo, StartTransportationData, TextV, opt_view, strings_view,
};
use crate::chain::{LedgerRecord, extract_payment_info, is_block_id, payment_outcome, validate_block_id};
use crate::error::Error;
use crate::sampler::{
    HUMIDITY_MAX_CENTI, HUMIDITY_MIN_CENTI, TEMPERATURE_MAX_CENTI, TEMPERATURE_MIN_CENTI,
    centi_literal, centi_text, sample,
};

verus! {

/// Where a session stands.
#[derive(Debug, Clone, Copy, PartialEq, Eq, Structural)]
pub enum Phase {
    AwaitingStartBlock,
    TransportationStarted,
    Sampling,
    Delivering,
    Done,
    Failed,
}

/// The two metric sub-chains.
#[derive(Debug, Clone, Copy, PartialEq, Eq, Structural)]
pub enum MetricKind {
    Temperature,
    Humidity,
}

/// The state of one transport session.
pub struct Session {
    pub phase: Phase,
    /// The identifier of the chain root.
    pub root_id: String,
    /// The payment taken from the chain root.
    pub payment: Option<PaymentInfo>,
    /// The last record linked into each metric sub-chain.
    pub temperature_tip: String,
    pub humidity_tip: String,
    /// How many records each metric sub-chain has linked.
    pub temperature_linked: u64,
    pub humidity_linked: u64,
    /// The sub-chain tips handed to the delivery record.
    pub metrics: Vec<String>,
}

/// The tip of a sub-chain after a post: the new record if it was posted, else
/// the old tip.
pub open spec fn next_tip(tip: TextV, posted: Option<TextV>) -> TextV {
    match posted {
        Some(id) => id,
        None => tip,
    }
}

/// The tip of a sub-chain after a run of posts that started at `start`.
pub open spec fn tip_after(start: TextV, posted: Seq<Option<TextV>>) -> TextV
    decreases posted.len(),
{
    if posted.len() == 0 {
        start
    } else {
        next_tip(tip_after(start, posted.drop_last()), posted.last())
    }
}

/// How many records a run of posts linked.
pub open spec fn linked_after(posted: Seq<Option<TextV>>) -> nat
    decreases posted.len(),
{
    if posted.len() == 0 {
        0
    } else {
        linked_after(posted.drop_last()) + if posted.last() is Some {
            1nat
        } else {
            0nat
        }
    }
}

/// The identifiers of the posts that succeeded, in order.
pub open spec fn successes(posted: Seq<Option<TextV>>) -> Seq<TextV>
    decreases posted.len(),
{
    if posted.len() == 0 {
        Seq::empty()
    } else {
        match posted.last() {
            Some(id) => successes(posted.drop_last()).push(id),
            None => successes(posted.drop_last()),
        }
    }
}

/// A sub-chain tolerates failed posts: after any run of posts its tip is the
/// identifier of the last post that succeeded (the start if none did), and it
/// has linked as many records as posts succeeded.
pub proof fn lemma_chain_tolerance(start: TextV, posted: Seq<Option<TextV>>)
    ensures
        tip_after(start, posted) == if successes(posted).len() == 0 {
            start
        } else {
            successes(posted).last()
        },
        linked_after(posted) == successes(posted).len(),
    decreases posted.len(),
{
    if posted.len() > 0 {
        lemma_chain_tolerance(start, posted.drop_last());
    }
}

/// The identifiers that a run of posts gave, as mathematical values.
pub open spec fn outcomes_view(posted: Seq<Option<String>>) -> Seq<Option<TextV>> {
    posted.map_values(|o: Option<String>| opt_view(o))
}

proof fn lemma_linked_bound(posted: Seq<Option<TextV>>)
    ensures
        linked_after(posted) <= posted.len(),
    decreases posted.len(),
{
    if posted.len() > 0 {
        lemma_linked_bound(posted.drop_last());
    }
}

/// The text of a metric kind, its unit, and its range in hundredths.
pub open spec fn metric_type_text(k: MetricKind) -> TextV {
    match k {
        MetricKind::Temperature => "Temperature"@,
        MetricKind::Humidity => "Humidity"@,
    }
}

pub open spec fn metric_unit_text(k: MetricKind) -> TextV {
    match k {
        MetricKind::Temperature => "Celsius"@,
        MetricKind::Humidity => "%"@,
    }
}

pub open spec fn metric_tag_text(k: MetricKind) -> TextV {
    match k {
        MetricKind::Temperature => "Temperature Metric Tag"@,
        MetricKind::Humidity => "Humidity Metric Tag"@,
    }
}

pub open spec fn metric_range(k: MetricKind) -> (int, int) {
    match k {
        MetricKind::Temperature => (TEMPERATURE_MIN_CENTI as int, TEMPERATURE_MAX_CENTI as int),
        MetricKind::Humidity => (HUMIDITY_MIN_CENTI as int, HUMIDITY_MAX_CENTI as int),
    }
}

/// Copies a list of strings.
fn copy_strings(v: &Vec<String>) -> (r: Vec<String>)
    ensures
        strings_view(r) == strings_view(*v),
{
    let mut out: Vec<String> = Vec::new();
    let mut i: usize = 0;
    while i < v.len()
        invariant
            i <= v.len(),
            out.len() == i,
            forall|j: int| 0 <= j < i ==> (#[trigger] out@[j])@ == v@[j]@,
        decreases v.len() - i,
    {
        out.push(v[i].clone());
        i = i + 1;
    }
    assert(strings_view(out) =~= strings_view(*v));
    out
}

/// Copies a payment.
fn copy_payment(p: &PaymentInfo) -> (r: PaymentInfo)
    ensures
        r@ == p@,
{
    PaymentInfo { wallet_address: p.wallet_address.clone(), smr_cost: p.smr_cost.clone() }
}

/// Relies on chrono::Local::now, written through its Display: the local time
/// now, as text. Nothing is promised of it.
#[verifier::external_body]
fn local_timestamp() -> String {
    chrono::Local::now().to_string()
}

impl Session {
    /// Opens a session on the chain root `root_id`, rejecting an identifier of
    /// the wrong shape before anything is fetched.
    pub fn new(root_id: String) -> (r: Result<Session, Error>)
        ensures
            r is Ok <==> is_block_id(root_id@),
            r is Err ==> r == Err::<Session, Error>(Error::InvalidBlockIdFormat),
            r matches Ok(s) ==> s.phase == Phase::AwaitingStartBlock && s.root_id@ == root_id@
                && s.payment is None && s.metrics@.len() == 0,
    {
        match validate_block_id(root_id.as_str()) {
            Ok(()) => Ok(Session {
                phase: Phase::AwaitingStartBlock,
                root_id,
                payment: None,
                temperature_tip: String::new(),
                humidity_tip: String::new(),
                temperature_linked: 0,
                humidity_linked: 0,
                metrics: Vec::new(),
            }),
            Err(e) => Err(e),
        }
    }

    /// Takes the payment from the fetched chain root; any failure is fatal.
    pub fn accept_start_block(&mut self, record: &LedgerRecord) -> (r: Result<(), Error>)
        requires
            old(self).phase == Phase::AwaitingStartBlock,
        ensures
            final(self).root_id == old(self).root_id,
            r is Ok <==> payment_outcome(*record) is Ok,
            r is Ok ==> final(self).phase == Phase::TransportationStarted,
            r is Ok ==> (final(self).payment matches Some(p) && payment_outcome(*record) == Ok::<PaymentInfoV, Error>(p@)),
            r matches Err(e) ==> final(self).phase == Phase::Failed
                && payment_outcome(*record) == Err::<PaymentInfoV, Error>(e),
            r is Err ==> final(self).payment == old(self).payment,
            final(self).temperature_tip == old(self).temperature_tip,
            final(self).humidity_tip == old(self).humidity_tip,
            final(self).temperature_linked == old(self).temperature_linked,
            final(self).humidity_linked == old(self).humidity_linked,
            final(self).metrics == old(self).metrics,
    {
        match extract_payment_info(record) {
            Ok(p) => {
                self.payment = Some(p);
                self.phase = Phase::TransportationStarted;
                Ok(())
            },
            Err(e) => {
                self.phase = Phase::Failed;
                Err(e)
            },
        }
    }

    /// The record that starts the transport, linked to the chain root.
    pub fn start_transportation_payload(&self, file_cid: Option<String>, timestamp: String) -> (r: BlockPayload)
        requires
            self.phase == Phase::TransportationStarted,
        ensures
            r.tag@ == "Start Transportation Tag"@,
            r.data@ == DataV::StartTransportation(
                "Transportation Company Information Data"@,
                ("Transportation Information Data"@, opt_view(file_cid)),
                timestamp@,
                self.root_id@,
            ),
    {
        let info = ProductInfo::new(String::from_str("Transportation Information Data"), file_cid);
        let data = StartTransportationData::new(
            String::from_str("Transportation Company Information Data"),
            info,
            timestamp,
            self.root_id.clone(),
        );
        BlockPayload {
            tag: String::from_str("Start Transportation Tag"),
            data: BlockData::StartTransportationData(data),
        }
    }

    /// The record that starts the transport, stamped with the local time.
    pub fn start_transportation_payload_now(&self, file_cid: Option<String>) -> (r: BlockPayload)
        requires
            self.phase == Phase::TransportationStarted,
        ensures
            r.tag@ == "Start Transportation Tag"@,
            r.data matches BlockData::StartTransportationData(d)
                && d.previous_block@ == self.root_id@
                && d.transportation_info@ == ("Transportation Information Data"@, opt_view(file_cid)),
    {
        self.start_transportation_payload(file_cid, local_timestamp())
    }

    /// Takes the outcome of posting the start record: its identifier becomes
    /// the tip of both metric sub-chains. A failure is fatal.
    pub fn on_transportation_started(&mut self, posted: Result<String, Error>)
        requires
            old(self).phase == Phase::TransportationStarted,
        ensures
            final(self).root_id == old(self).root_id,
            final(self).payment == old(self).payment,
            posted matches Ok(id) ==> final(self).phase == Phase::Sampling
                && final(self).temperature_tip@ == id@ && final(self).humidity_tip@ == id@
                && final(self).temperature_linked == 0 && final(self).humidity_linked == 0,
            posted is Err ==> final(self).phase == Phase::Failed,
    {
        match posted {
            Ok(id) => {
                self.temperature_tip = id.clone();
                self.humidity_tip = id;
                self.temperature_linked = 0;
                self.humidity_linked = 0;
                self.phase = Phase::Sampling;
            },
            Err(_) => {
                self.phase = Phase::Failed;
            },
        }
    }

    /// Whether another sampling round starts: only while the elapsed time is
    /// under the budget.
    pub fn keep_sampling(elapsed_ms: u64, budget_ms: u64) -> (r: bool)
        ensures
            r == (elapsed_ms < budget_ms),
    {
        elapsed_ms < budget_ms
    }

    /// The current tip of a sub-chain.
    pub open spec fn tip_of(&self, kind: MetricKind) -> TextV {
        match kind {
            MetricKind::Temperature => self.temperature_tip@,
            MetricKind::Humidity => self.humidity_tip@,
        }
    }

    /// The number of records a sub-chain has linked.
    pub open spec fn linked_of(&self, kind: MetricKind) -> nat {
        match kind {
            MetricKind::Temperature => self.temperature_linked as nat,
            MetricKind::Humidity => self.humidity_linked as nat,
        }
    }

    /// A metric record holding the reading `value_centi` (hundredths),
    /// linked to the tip of its sub-chain.
    pub fn metric_payload(&self, kind: MetricKind, value_centi: i64, timestamp: String) -> (r: BlockPayload)
        requires
            self.phase == Phase::Sampling,
        ensures
            r.tag@ == metric_tag_text(kind),
            r.data@ == DataV::Metric(
                metric_type_text(kind),
                centi_literal(value_centi as int),
                metric_unit_text(kind),
                timestamp@,
                self.tip_of(kind),
            ),
    {
        let (metric_type, unit, tag, prev) = match kind {
            MetricKind::Temperature => (
                String::from_str("Temperature"),
                String::from_str("Celsius"),
                String::from_str("Temperature Metric Tag"),
                self.temperature_tip.clone(),
            ),
            MetricKind::Humidity => (
                String::from_str("Humidity"),
                String::from_str("%"),
                String::from_str("Humidity Metric Tag"),
                self.humidity_tip.clone(),
            ),
        };
        let data = MetricData::new(metric_type, centi_text(value_centi), unit, timestamp, prev);
        BlockPayload { tag, data: BlockData::MetricData(data) }
    }

    /// Draws a reading in the range of its kind and builds its record,
    /// stamped with the local time.
    pub fn sample_metric_payload(&self, kind: MetricKind) -> (r: BlockPayload)
        requires
            self.phase == Phase::Sampling,
        ensures
            r.tag@ == metric_tag_text(kind),
            exists|v: int| #![trigger centi_literal(v)]
                metric_range(kind).0 <= v <= metric_range(kind).1
                && (r.data matches BlockData::MetricData(d)
                && d.metric_value@ == centi_literal(v)
                && d.metric_type@ == metric_type_text(kind)
                && d.measurement_unit@ == metric_unit_text(kind)
                && d.previous_block@ == self.tip_of(kind)),
    {
        let v = match kind {
            MetricKind::Temperature => sample(TEMPERATURE_MIN_CENTI, TEMPERATURE_MAX_CENTI),
            MetricKind::Humidity => sample(HUMIDITY_MIN_CENTI, HUMIDITY_MAX_CENTI),
        };
        let r = self.metric_payload(kind, v, local_timestamp());
        assert(centi_literal(v as int) == centi_literal(v as int));
        r
    }

    /// Takes the outcome of a metric post: on success the new record becomes
    /// the tip of its sub-chain; on failure nothing changes and sampling goes
    /// on.
    pub fn record_metric_outcome(&mut self, kind: MetricKind, posted: Option<String>)
        requires
            old(self).phase == Phase::Sampling,
            old(self).linked_of(kind) < u64::MAX,
        ensures
            final(self).phase == Phase::Sampling,
            final(self).root_id == old(self).root_id,
            final(self).payment == old(self).payment,
            final(self).tip_of(kind) == next_tip(old(self).tip_of(kind), opt_view(posted)),
            final(self).linked_of(kind) == old(self).linked_of(kind) + if posted is Some {
                1nat
            } else {
                0nat
            },
            forall|k: MetricKind| k != kind ==> final(self).tip_of(k) == old(self).tip_of(k)
                && final(self).linked_of(k) == old(self).linked_of(k),
    {
        match posted {
            Some(id) => match kind {
                MetricKind::Temperature => {
                    self.temperature_tip = id;
                    self.temperature_linked = self.temperature_linked + 1;
                },
                MetricKind::Humidity => {
                    self.humidity_tip = id;
                    self.humidity_linked = self.humidity_linked + 1;
                },
            },
            None => {},
        }
    }

    /// Takes the outcomes of a run of posts to one sub-chain, in order. The tip
    /// ends at the last record posted (where it was if none was), and the
    /// sub-chain has linked as many records as posts succeeded.
    pub fn record_metric_outcomes(&mut self, kind: MetricKind, posted: &Vec<Option<String>>)
        requires
            old(self).phase == Phase::Sampling,
            old(self).linked_of(kind) + posted.len() <= u64::MAX,
        ensures
            final(self).phase == Phase::Sampling,
            final(self).root_id == old(self).root_id,
            final(self).payment == old(self).payment,
            final(self).tip_of(kind) == tip_after(old(self).tip_of(kind), outcomes_view(posted@)),
            final(self).linked_of(kind) == old(self).linked_of(kind) + linked_after(outcomes_view(posted@)),
            final(self).tip_of(kind) == if successes(outcomes_view(posted@)).len() == 0 {
                old(self).tip_of(kind)
            } else {
                successes(outcomes_view(posted@)).last()
            },
            final(self).linked_of(kind) == old(self).linked_of(kind) + successes(outcomes_view(posted@)).len(),
            forall|k: MetricKind| k != kind ==> final(self).tip_of(k) == old(self).tip_of(k)
                && final(self).linked_of(k) == old(self).linked_of(k),
    {
        let ghost start = self.tip_of(kind);
        let ghost count = self.linked_of(kind);
        let ghost other_tips = |k: MetricKind| self.tip_of(k);
        let ghost other_linked = |k: MetricKind| self.linked_of(k);
        let ghost all = outcomes_view(posted@);
        let mut i: usize = 0;
        let n = posted.len();
        proof {
            assert(linked_after(all.subrange(0, 0)) == 0);
        }
        while i < n
            invariant
                n == all.len(),
                posted.len() == n,
                all == outcomes_view(posted@),
                self.phase == Phase::Sampling,
                self.root_id == old(self).root_id,
                self.payment == old(self).payment,
                self.tip_of(kind) == tip_after(start, all.subrange(0, i as int)),
                self.linked_of(kind) == count + linked_after(all.subrange(0, i as int)),
                count + n <= u64::MAX,
                i <= n,
                forall|k: MetricKind| k != kind ==> self.tip_of(k) == other_tips(k)
                    && self.linked_of(k) == other_linked(k),
            decreases n - i,
        {
            proof {
                lemma_linked_bound(all.subrange(0, i as int));
                assert(all.subrange(0, i + 1).drop_last() =~= all.subrange(0, i as int));
            }
            let o = match &posted[i] {
                Some(id) => Some(id.clone()),
                None => None,
            };
            self.record_metric_outcome(kind, o);
            i = i + 1;
        }
        proof {
            assert(all.subrange(0, n as int) =~= all);
            lemma_chain_tolerance(start, all);
        }
    }

    /// Ends sampling: the two sub-chain tips, temperature first, become the
    /// metrics of the delivery record.
    pub fn finish_sampling(&mut self)
        requires
            old(self).phase == Phase::Sampling,
        ensures
            final(self).phase == Phase::Delivering,
            final(self).payment == old(self).payment,
            strings_view(final(self).metrics) == seq![old(self).temperature_tip@, old(self).humidity_tip@],
    {
        let mut metrics: Vec<String> = Vec::new();
        metrics.push(self.temperature_tip.clone());
        metrics.push(self.humidity_tip.clone());
        self.metrics = metrics;
        self.phase = Phase::Delivering;
        assert(strings_view(self.metrics) =~= seq![self.temperature_tip@, self.humidity_tip@]);
    }

    /// The delivery record: the payment taken from the chain root, and the
    /// sub-chain tips.
    pub fn delivery_payload(&self, file_cid: Option<String>, timestamp: String) -> (r: BlockPayload)
        requires
            self.phase == Phase::Delivering,
            self.payment is Some,
        ensures
            r.tag@ == "Delivered Transportation Tag"@,
            r.data@ == DataV::DeliveredTransportation(
                ("Product Delivery Information"@, opt_view(file_cid)),
                timestamp@,
                self.payment->0@,
                strings_view(self.metrics),
            ),
    {
        let payment = match &self.payment {
            Some(p) => copy_payment(p),
            None => PaymentInfo { wallet_address: String::new(), smr_cost: String::new() },
        };
        let info = ProductInfo::new(String::from_str("Product Delivery Information"), file_cid);
        let data = DeliveredTransportationData::new(info, timestamp, payment, copy_strings(&self.metrics));
        BlockPayload {
            tag: String::from_str("Delivered Transportation Tag"),
            data: BlockData::DeliveredTransportationData(data),
        }
    }

    /// The delivery record, stamped with the local time.
    pub fn delivery_payload_now(&self, file_cid: Option<String>) -> (r: BlockPayload)
        requires
            self.phase == Phase::Delivering,
            self.payment is Some,
        ensures
            r.tag@ == "Delivered Transportation Tag"@,
            r.data matches BlockData::DeliveredTransportationData(d)
                && d.payment_info@ == self.payment->0@
                && strings_view(d.metrics) == strings_view(self.metrics)
                && d.product_delivery_info@ == ("Product Delivery Information"@, opt_view(file_cid)),
    {
        self.delivery_payload(file_cid, local_timestamp())
    }

    /// Takes the outcome of posting the delivery record; a failure is fatal.
    pub fn on_delivered(&mut self, posted: Result<String, Error>)
        requires
            old(self).phase == Phase::Delivering,
        ensures
            posted is Ok ==> final(self).phase == Phase::Done,
            posted is Err ==> final(self).phase == Phase::Failed,
            final(self).metrics == old(self).metrics,
            final(self).payment == old(self).payment,
            final(self).root_id == old(self).root_id,
            final(self).temperature_tip == old(self).temperature_tip,
            final(self).humidity_tip == old(self).humidity_tip,
            final(self).temperature_linked == old(self).temperature_linked,
            final(self).humidity_linked == old(self).humidity_linked,
    {
        match posted {
            Ok(_) => {
                self.phase = Phase::Done;
            },
            Err(_) => {
                self.phase = Phase::Failed;
            },
        }
    }
}

} // verus!
