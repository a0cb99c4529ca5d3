use vstd::prelude::*;
use crate::error::{EncodeError, SparkplugError};
use crate::record::{clone_opt_string, Metadata, Payload, PayloadMetric, PayloadPropertySet, PayloadPropertyValue};
use crate::types::{is_property_tag, MetricDataType};
use crate::value::{descriptor_ok, descriptor_outcome, encode_descriptor, DescriptorValue, WireField};

verus! {

/// A property value as a producer describes it: a type tag and its value.
#[derive(Clone, Debug, PartialEq, Eq)]
pub struct PropertyValue {
    pub is_null: Option<bool>,
    pub value: DescriptorValue,
    pub data_type: MetricDataType,
}

/// Property keys and their values, index for index.
#[derive(Clone, Debug, PartialEq, Eq)]
pub struct PropertySet {
    pub keys: Vec<String>,
    pub values: Vec<PropertyValue>,
}

/// A metric as a producer describes it; an absent value makes a null metric.
#[derive(Clone, Debug, PartialEq, Eq)]
pub struct Metric {
    pub name: Option<String>,
    pub value: Option<DescriptorValue>,
    pub data_type: MetricDataType,
    pub alias: Option<u64>,
    pub historical: Option<bool>,
    pub property_set: Option<PropertySet>,
    pub metadata: Option<Metadata>,
    pub is_transient: Option<bool>,
}

/// A payload as a producer describes it.
#[derive(Clone, Debug, PartialEq, Eq)]
pub struct SparkplugB {
    pub metrics: Vec<Metric>,
    pub timestamp: Option<u64>,
    pub seq: Option<u64>,
    pub uuid: Option<String>,
    pub body: Option<String>,
}

/// A failure that a batch skipped over, or a warning.
#[derive(Clone, Debug, PartialEq, Eq)]
pub enum Diagnostic {
    /// The entry at `index` of a property set was left out.
    PropertySkipped { index: usize, cause: EncodeError },
    /// The metric at `index` of a batch was left out.
    MetricSkipped { index: usize, cause: SparkplugError },
    /// A payload was assembled without a sequence number.
    MissingSeq,
}

/// The indices at which `oks` holds, in order.
pub open spec fn kept(oks: Seq<bool>) -> Seq<int>
    decreases oks.len(),
{
    if oks.len() == 0 {
        Seq::empty()
    } else if oks.last() {
        kept(oks.drop_last()).push(oks.len() - 1)
    } else {
        kept(oks.drop_last())
    }
}

/// The indices at which `oks` fails, in order.
pub open spec fn dropped(oks: Seq<bool>) -> Seq<int>
    decreases oks.len(),
{
    if oks.len() == 0 {
        Seq::empty()
    } else if !oks.last() {
        dropped(oks.drop_last()).push(oks.len() - 1)
    } else {
        dropped(oks.drop_last())
    }
}

proof fn lemma_kept_dropped_len(oks: Seq<bool>)
    ensures
        kept(oks).len() + dropped(oks).len() == oks.len(),
        forall|j: int| 0 <= j < kept(oks).len() ==> 0 <= #[trigger] kept(oks)[j] < oks.len() && oks[kept(oks)[j]],
        forall|j: int| 0 <= j < dropped(oks).len() ==> 0 <= #[trigger] dropped(oks)[j] < oks.len() && !oks[dropped(oks)[j]],
    decreases oks.len(),
{
    if oks.len() > 0 {
        lemma_kept_dropped_len(oks.drop_last());
    }
}

pub open spec fn prop_ok(v: PropertyValue) -> bool {
    is_property_tag(v.data_type) && descriptor_ok(v.data_type, v.value)
}

pub open spec fn prop_built(v: PropertyValue, p: PayloadPropertyValue) -> bool {
    p.datatype == v.data_type && p.is_null == v.is_null && p.value is Some
        && descriptor_outcome(v.data_type, v.value, Ok(p.value->Some_0))
}

pub open spec fn prop_oks(ps: PropertySet) -> Seq<bool> {
    Seq::new(ps.values.len() as nat, |i: int| prop_ok(ps.values[i]))
}

/// The wire set holds, in order, exactly the entries of `ps` that encode.
pub open spec fn props_built(ps: PropertySet, out: PayloadPropertySet) -> bool {
    let k = kept(prop_oks(ps));
    &&& out.keys.len() == k.len()
    &&& out.values.len() == k.len()
    &&& forall|j: int| 0 <= j < k.len() ==> out.keys[j] == ps.keys[#[trigger] k[j]] && prop_built(ps.values[k[j]], out.values[j])
}

/// Why the property value `v` could not be encoded.
pub open spec fn prop_error(v: PropertyValue, e: EncodeError) -> bool {
    if is_property_tag(v.data_type) {
        descriptor_outcome(v.data_type, v.value, Err(e))
    } else {
        e == EncodeError::UnsupportedTag { tag: v.data_type }
    }
}

/// `d` reports that the property value `v` at `index` was left out.
pub open spec fn prop_skipped(v: PropertyValue, index: int, d: Diagnostic) -> bool {
    match d {
        Diagnostic::PropertySkipped { index: k, cause } => k == index && prop_error(v, cause),
        _ => false,
    }
}

/// The diagnostics name, in order, exactly the entries of `ps` that were left out.
pub open spec fn props_reported(ps: PropertySet, ds: Seq<Diagnostic>) -> bool {
    let d = dropped(prop_oks(ps));
    &&& ds.len() == d.len()
    &&& forall|j: int| 0 <= j < d.len() ==> prop_skipped(ps.values[#[trigger] d[j]], d[j], ds[j])
}

impl PropertySet {
    pub open spec fn wf(&self) -> bool {
        self.keys.len() == self.values.len()
    }
}

impl PropertyValue {
    /// The wire form of the property value.
    pub fn form_proto(&self) -> (r: Result<PayloadPropertyValue, EncodeError>)
        ensures
            r is Ok <==> prop_ok(*self),
            r matches Ok(p) ==> prop_built(*self, p),
            r matches Err(e) ==> prop_error(*self, e),
    {
        if !self.data_type.is_property_type() {
            return Err(EncodeError::UnsupportedTag { tag: self.data_type });
        }
        match encode_descriptor(self.data_type, &self.value) {
            Ok(w) => Ok(PayloadPropertyValue { datatype: self.data_type, is_null: self.is_null, value: Some(w) }),
            Err(e) => Err(e),
        }
    }
}

impl PropertySet {
    /// The wire form of the property set: the entries that encode, in order,
    /// and a diagnostic for each entry left out.
    pub fn form_proto(&self) -> (r: (PayloadPropertySet, Vec<Diagnostic>))
        requires
            self.wf(),
        ensures
            props_built(*self, r.0),
            props_reported(*self, r.1@),
            r.0.keys.len() + r.1.len() == self.keys.len(),
    {
        let ghost oks = prop_oks(*self);
        let mut keys: Vec<String> = Vec::new();
        let mut values: Vec<PayloadPropertyValue> = Vec::new();
        let mut diags: Vec<Diagnostic> = Vec::new();
        let mut i: usize = 0;
        while i < self.values.len()
            invariant
                self.wf(),
                oks == prop_oks(*self),
                0 <= i <= self.values.len(),
                keys.len() == kept(oks.subrange(0, i as int)).len(),
                values.len() == keys.len(),
                forall|j: int| 0 <= j < keys.len() ==> keys[j] == self.keys[#[trigger] kept(oks.subrange(0, i as int))[j]]
                    && prop_built(self.values[kept(oks.subrange(0, i as int))[j]], values[j]),
                diags.len() == dropped(oks.subrange(0, i as int)).len(),
                forall|j: int| 0 <= j < diags.len() ==> prop_skipped(
                    self.values[#[trigger] dropped(oks.subrange(0, i as int))[j]],
                    dropped(oks.subrange(0, i as int))[j], diags[j]),
            decreases self.values.len() - i,
        {
            let ghost pre = oks.subrange(0, i as int);
            let ghost next = oks.subrange(0, i as int + 1);
            assert(next.drop_last() =~= pre);
            match self.values[i].form_proto() {
                Ok(p) => {
                    keys.push(self.keys[i].clone());
                    values.push(p);
                },
                Err(e) => {
                    diags.push(Diagnostic::PropertySkipped { index: i, cause: e });
                },
            }
            i = i + 1;
        }
        assert(oks.subrange(0, i as int) =~= oks);
        proof {
            lemma_kept_dropped_len(oks);
        }
        (PayloadPropertySet { keys, values }, diags)
    }
}

pub open spec fn metric_ok(d: Metric) -> bool {
    match d.value {
        Some(s) => descriptor_ok(d.data_type, s),
        None => true,
    }
}

/// `m` is the wire form of the descriptor `d`, stamped `timestamp`.
pub open spec fn metric_built(d: Metric, m: PayloadMetric, timestamp: u64) -> bool {
    &&& m.name == d.name
    &&& m.alias == d.alias
    &&& m.timestamp == timestamp
    &&& m.datatype == d.data_type
    &&& m.is_historical == d.historical
    &&& m.is_transient == d.is_transient
    &&& m.metadata == d.metadata
    &&& match d.value {
        Some(s) => !m.is_null && m.value is Some && descriptor_outcome(d.data_type, s, Ok(m.value->Some_0)),
        None => m.is_null && m.value is None,
    }
    &&& match d.property_set {
        Some(ps) => m.properties is Some && props_built(ps, m.properties->Some_0),
        None => m.properties is None,
    }
}

/// `ds` reports the property entries of `d` that were left out.
pub open spec fn props_diagnosed(d: Metric, ds: Seq<Diagnostic>) -> bool {
    match d.property_set {
        Some(ps) => props_reported(ps, ds),
        None => ds.len() == 0,
    }
}

/// Why the descriptor `d` could not be built.
pub open spec fn metric_error(d: Metric, e: SparkplugError) -> bool {
    match (d.value, e) {
        (Some(s), SparkplugError::MetricBuildError { name, cause }) => name == d.name
            && descriptor_outcome(d.data_type, s, Err(cause)),
        _ => false,
    }
}

/// `diag` reports that the descriptor `d` at `index` was left out.
pub open spec fn metric_skipped(d: Metric, index: int, diag: Diagnostic) -> bool {
    match diag {
        Diagnostic::MetricSkipped { index: k, cause } => k == index && metric_error(d, cause),
        _ => false,
    }
}

pub open spec fn metric_oks(ds: Seq<Metric>) -> Seq<bool> {
    Seq::new(ds.len(), |i: int| metric_ok(ds[i]))
}

/// `out` holds, in order, the wire form of exactly the descriptors that build.
pub open spec fn metrics_built(ds: Seq<Metric>, out: Seq<PayloadMetric>, timestamp: u64) -> bool {
    let k = kept(metric_oks(ds));
    &&& out.len() == k.len()
    &&& forall|j: int| 0 <= j < k.len() ==> metric_built(ds[#[trigger] k[j]], out[j], timestamp)
}

/// `diags` names, in order, exactly the descriptors that were left out.
pub open spec fn metrics_reported(ds: Seq<Metric>, diags: Seq<Diagnostic>) -> bool {
    let d = dropped(metric_oks(ds));
    &&& diags.len() == d.len()
    &&& forall|j: int| 0 <= j < d.len() ==> metric_skipped(ds[#[trigger] d[j]], d[j], diags[j])
}

impl Metric {
    pub open spec fn wf(&self) -> bool {
        self.property_set matches Some(ps) ==> ps.wf()
    }

    /// The wire form of the metric, stamped `timestamp`, with a diagnostic for
    /// each property entry that was left out of its property set.
    pub fn form_proto(&self, timestamp: u64) -> (r: Result<(PayloadMetric, Vec<Diagnostic>), SparkplugError>)
        requires
            self.wf(),
        ensures
            r is Ok <==> metric_ok(*self),
            r matches Ok((m, ds)) ==> metric_built(*self, m, timestamp) && props_diagnosed(*self, ds@),
            r matches Err(e) ==> metric_error(*self, e),
    {
        let (value, is_null) = match &self.value {
            Some(s) => match encode_descriptor(self.data_type, s) {
                Ok(w) => (Some(w), false),
                Err(e) => {
                    return Err(SparkplugError::MetricBuildError { name: clone_opt_string(&self.name), cause: e });
                },
            },
            None => (None, true),
        };
        let metadata = match &self.metadata {
            Some(md) => Some(md.form_proto()),
            None => None,
        };
        let (properties, skipped) = match &self.property_set {
            Some(ps) => {
                let (set, skipped) = ps.form_proto();
                (Some(set), skipped)
            },
            None => (None, Vec::new()),
        };
        let m = PayloadMetric {
            name: clone_opt_string(&self.name),
            alias: self.alias,
            timestamp,
            datatype: self.data_type,
            is_historical: self.historical,
            is_transient: self.is_transient,
            is_null,
            value,
            metadata,
            properties,
        };
        Ok((m, skipped))
    }
}

/// Builds each descriptor on its own, stamped `timestamp`: the ones that build
/// are kept in order, and each one left out is reported by a diagnostic. The
/// third part holds, for each metric kept, the reports of its property entries
/// that were left out.
pub fn map_metrics(descriptors: &Vec<Metric>, timestamp: u64) -> (r: (Vec<PayloadMetric>, Vec<Diagnostic>, Vec<Vec<Diagnostic>>))
    requires
        forall|i: int| 0 <= i < descriptors.len() ==> (#[trigger] descriptors[i]).wf(),
    ensures
        metrics_built(descriptors@, r.0@, timestamp),
        metrics_reported(descriptors@, r.1@),
        r.0.len() + r.1.len() == descriptors.len(),
        r.2.len() == r.0.len(),
        forall|j: int| 0 <= j < r.2.len() ==> props_diagnosed(
            descriptors@[#[trigger] kept(metric_oks(descriptors@))[j]], r.2[j]@),
{
    let ghost oks = metric_oks(descriptors@);
    let mut out: Vec<PayloadMetric> = Vec::new();
    let mut diags: Vec<Diagnostic> = Vec::new();
    let mut props: Vec<Vec<Diagnostic>> = Vec::new();
    let mut i: usize = 0;
    while i < descriptors.len()
        invariant
            forall|i: int| 0 <= i < descriptors.len() ==> (#[trigger] descriptors[i]).wf(),
            props.len() == out.len(),
            forall|j: int| 0 <= j < props.len() ==> props_diagnosed(
                descriptors[#[trigger] kept(oks.subrange(0, i as int))[j]], props[j]@),
            oks == metric_oks(descriptors@),
            0 <= i <= descriptors.len(),
            out.len() == kept(oks.subrange(0, i as int)).len(),
            forall|j: int| 0 <= j < out.len() ==> metric_built(
                descriptors[#[trigger] kept(oks.subrange(0, i as int))[j]], out[j], timestamp),
            diags.len() == dropped(oks.subrange(0, i as int)).len(),
            forall|j: int| 0 <= j < diags.len() ==> metric_skipped(
                descriptors[#[trigger] dropped(oks.subrange(0, i as int))[j]],
                dropped(oks.subrange(0, i as int))[j], diags[j]),
        decreases descriptors.len() - i,
    {
        let ghost pre = oks.subrange(0, i as int);
        let ghost next = oks.subrange(0, i as int + 1);
        assert(next.drop_last() =~= pre);
        match descriptors[i].form_proto(timestamp) {
            Ok((m, skipped)) => {
                out.push(m);
                props.push(skipped);
            },
            Err(e) => {
                diags.push(Diagnostic::MetricSkipped { index: i, cause: e });
            },
        }
        i = i + 1;
    }
    assert(oks.subrange(0, i as int) =~= oks);
    proof {
        lemma_kept_dropped_len(oks);
    }
    (out, diags, props)
}

/// Wraps built metrics into a payload. The timestamp falls back to `now`; a
/// missing sequence number is allowed and reported as a warning.
pub fn assemble_payload(
    uuid: Option<String>,
    timestamp: Option<u64>,
    seq: Option<u64>,
    metrics: Vec<PayloadMetric>,
    body: Option<String>,
    now: u64,
) -> (r: (Payload, Option<Diagnostic>))
    ensures
        r.0 == (Payload {
            uuid,
            timestamp: match timestamp { Some(t) => t, None => now },
            seq,
            metrics,
            body,
        }),
        r.1 == (if seq is None { Some(Diagnostic::MissingSeq) } else { None::<Diagnostic> }),
{
    let ts = match timestamp {
        Some(t) => t,
        None => now,
    };
    let warning = if seq.is_none() { Some(Diagnostic::MissingSeq) } else { None };
    (Payload { uuid, timestamp: ts, seq, metrics, body }, warning)
}

impl SparkplugB {
    pub open spec fn wf(&self) -> bool {
        forall|i: int| 0 <= i < self.metrics.len() ==> (#[trigger] self.metrics[i]).wf()
    }

    /// The payload that this description gives, its metrics stamped `now` and
    /// its timestamp `now` where none is set; with the diagnostics of the
    /// metrics left out, then a warning where no sequence number is set; and,
    /// for each metric of the payload, the reports of its property entries
    /// that were left out.
    pub fn form_proto(&self, now: u64) -> (r: (Payload, Vec<Diagnostic>, Vec<Vec<Diagnostic>>))
        requires
            self.wf(),
        ensures
            r.0.uuid == self.uuid,
            r.0.timestamp == (match self.timestamp { Some(t) => t, None => now }),
            r.0.seq == self.seq,
            r.0.body == self.body,
            metrics_built(self.metrics@, r.0.metrics@, now),
            ({
                let n = dropped(metric_oks(self.metrics@)).len();
                &&& r.1@.len() == n + (if self.seq is None { 1int } else { 0 })
                &&& metrics_reported(self.metrics@, r.1@.subrange(0, n as int))
                &&& self.seq is None ==> r.1@[n as int] == Diagnostic::MissingSeq
            }),
            r.2.len() == r.0.metrics.len(),
            forall|j: int| 0 <= j < r.2.len() ==> props_diagnosed(
                self.metrics@[#[trigger] kept(metric_oks(self.metrics@))[j]], r.2[j]@),
    {
        let (metrics, mut diags, props) = map_metrics(&self.metrics, now);
        let ghost reported = diags@;
        let (payload, warning) = assemble_payload(
            clone_opt_string(&self.uuid),
            self.timestamp,
            self.seq,
            metrics,
            clone_opt_string(&self.body),
            now,
        );
        match warning {
            Some(w) => diags.push(w),
            None => {},
        }
        assert(diags@.subrange(0, reported.len() as int) =~= reported);
        (payload, diags, props)
    }
}

/// Something that has a name.
pub trait Name {
    fn get_name(&self) -> String;
}

impl Name for SparkplugB {
    fn get_name(&self) -> String {
        self.name()
    }
}

impl SparkplugB {
    /// The payload's uuid, or the empty string where none is set.
    pub fn name(&self) -> (r: String)
        ensures
            match self.uuid {
                Some(u) => r == u,
                None => r@.len() == 0,
            },
    {
        match &self.uuid {
            Some(u) => u.clone(),
            None => String::new(),
        }
    }
}

} // verus!
