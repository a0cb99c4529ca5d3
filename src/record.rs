use vstd::prelude::*;
use crate::error::{EncodeError, SparkplugError};
use crate::types::{code_of, MetricDataType};
use crate::value::{
    encode, encode_from_text, encode_spec, text_ok, text_outcome, PayloadDataSet,
    PayloadTemplate, TaggedValue, WireField,
};

verus! {

/// Metadata of a metric; every field is optional.
#[derive(Clone, Debug, PartialEq, Eq)]
pub struct Metadata {
    pub is_multi_part: Option<bool>,
    pub content_type: Option<String>,
    pub size: Option<u64>,
    pub seq: Option<u64>,
    pub file_name: Option<String>,
    pub file_type: Option<String>,
    pub md5: Option<String>,
    pub description: Option<String>,
}

/// A typed property value of a wire property set.
#[derive(Clone, Debug, PartialEq, Eq)]
pub struct PayloadPropertyValue {
    pub datatype: MetricDataType,
    pub is_null: Option<bool>,
    pub value: Option<WireField>,
}

/// Keys and values of a wire property set, index for index.
#[derive(Clone, Debug, PartialEq, Eq)]
pub struct PayloadPropertySet {
    pub keys: Vec<String>,
    pub values: Vec<PayloadPropertyValue>,
}

/// A metric as it goes on the wire.
#[derive(Clone, Debug, PartialEq, Eq)]
pub struct PayloadMetric {
    pub name: Option<String>,
    pub alias: Option<u64>,
    pub timestamp: u64,
    pub datatype: MetricDataType,
    pub is_historical: Option<bool>,
    pub is_transient: Option<bool>,
    pub is_null: bool,
    pub value: Option<WireField>,
    pub metadata: Option<Metadata>,
    pub properties: Option<PayloadPropertySet>,
}

/// A complete payload.
#[derive(Clone, Debug, PartialEq, Eq)]
pub struct Payload {
    pub uuid: Option<String>,
    pub timestamp: u64,
    pub seq: Option<u64>,
    pub metrics: Vec<PayloadMetric>,
    pub body: Option<String>,
}

pub(crate) fn clone_opt_string(s: &Option<String>) -> (r: Option<String>)
    ensures
        r == *s,
{
    match s {
        Some(v) => Some(v.clone()),
        None => None,
    }
}

impl Metadata {
    /// The wire form of the metadata: the same fields.
    pub fn form_proto(&self) -> (r: Metadata)
        ensures
            r == *self,
    {
        Metadata {
            is_multi_part: self.is_multi_part,
            content_type: clone_opt_string(&self.content_type),
            size: self.size,
            seq: self.seq,
            file_name: clone_opt_string(&self.file_name),
            file_type: clone_opt_string(&self.file_type),
            md5: clone_opt_string(&self.md5),
            description: clone_opt_string(&self.description),
        }
    }
}

/// A metric with its identity fields set and no value yet.
pub open spec fn metric_head(
    data_type: MetricDataType,
    name: String,
    alias: Option<u64>,
    historical: Option<bool>,
    timestamp: u64,
) -> PayloadMetric {
    PayloadMetric {
        name: Some(name),
        alias,
        timestamp,
        datatype: data_type,
        is_historical: historical,
        is_transient: None,
        is_null: false,
        value: None,
        metadata: None,
        properties: None,
    }
}

/// What `create_metric` gives.
pub open spec fn build_metric_spec(
    data_type: MetricDataType,
    value: TaggedValue,
    name: String,
    alias: Option<u64>,
    historical: Option<bool>,
    timestamp: u64,
) -> Result<PayloadMetric, SparkplugError> {
    match encode_spec(data_type, value) {
        Ok(w) => Ok(PayloadMetric { value: Some(w), ..metric_head(data_type, name, alias, historical, timestamp) }),
        Err(e) => Err(SparkplugError::MetricBuildError { name: Some(name), cause: e }),
    }
}

/// Sets the type tag of `metric`.
pub fn set_metric_type(data_type: MetricDataType, metric: &mut PayloadMetric)
    ensures
        *final(metric) == (PayloadMetric { datatype: data_type, ..*old(metric) }),
{
    metric.datatype = data_type;
}

/// Encodes `value` for `data_type` into the value of `metric`; on failure the
/// metric is left as it was.
pub fn set_metric_value(data_type: MetricDataType, metric: &mut PayloadMetric, value: TaggedValue) -> (r: Result<(), EncodeError>)
    ensures
        match encode_spec(data_type, value) {
            Ok(w) => r is Ok && *final(metric) == (PayloadMetric { value: Some(w), is_null: false, ..*old(metric) }),
            Err(e) => r == Err::<(), EncodeError>(e) && *final(metric) == *old(metric),
        },
{
    match encode(data_type, value) {
        Ok(w) => {
            metric.value = Some(w);
            metric.is_null = false;
            Ok(())
        },
        Err(e) => Err(e),
    }
}

/// Encodes the text `value` for `data_type` into the value of `metric`; on
/// failure the metric is left as it was.
pub fn set_str_metric_value(data_type: MetricDataType, metric: &mut PayloadMetric, value: &str) -> (r: Result<(), EncodeError>)
    ensures
        r is Ok <==> text_ok(data_type, value@),
        r is Ok ==> final(metric).value is Some && text_outcome(data_type, value@, Ok(final(metric).value->Some_0))
            && *final(metric) == (PayloadMetric { value: final(metric).value, is_null: false, ..*old(metric) }),
        r matches Err(e) ==> text_outcome(data_type, value@, Err(e)) && *final(metric) == *old(metric),
{
    match encode_from_text(data_type, value) {
        Ok(w) => {
            metric.value = Some(w);
            metric.is_null = false;
            Ok(())
        },
        Err(e) => Err(e),
    }
}

/// Builds a metric stamped `timestamp` whose value is `value` encoded for `data_type`.
pub fn create_metric(
    data_type: MetricDataType,
    value: TaggedValue,
    name: String,
    alias: Option<u64>,
    historical: Option<bool>,
    timestamp: u64,
) -> (r: Result<PayloadMetric, SparkplugError>)
    ensures
        r == build_metric_spec(data_type, value, name, alias, historical, timestamp),
{
    match encode(data_type, value) {
        Ok(w) => Ok(PayloadMetric {
            name: Some(name),
            alias,
            timestamp,
            datatype: data_type,
            is_historical: historical,
            is_transient: None,
            is_null: false,
            value: Some(w),
            metadata: None,
            properties: None,
        }),
        Err(e) => Err(SparkplugError::MetricBuildError { name: Some(name), cause: e }),
    }
}

/// Builds a metric stamped `timestamp` whose value is the text `value` encoded
/// for `data_type`.
pub fn create_metric_from_str(
    data_type: MetricDataType,
    value: &str,
    name: String,
    alias: Option<u64>,
    historical: Option<bool>,
    timestamp: u64,
) -> (r: Result<PayloadMetric, SparkplugError>)
    ensures
        r is Ok <==> text_ok(data_type, value@),
        r matches Ok(m) ==> m.value is Some && text_outcome(data_type, value@, Ok(m.value->Some_0))
            && m == (PayloadMetric { value: m.value, ..metric_head(data_type, name, alias, historical, timestamp) }),
        r matches Err(e) ==> e matches SparkplugError::MetricBuildError { name: n, cause }
            && n == Some(name) && text_outcome(data_type, value@, Err(cause)),
{
    match encode_from_text(data_type, value) {
        Ok(w) => Ok(PayloadMetric {
            name: Some(name),
            alias,
            timestamp,
            datatype: data_type,
            is_historical: historical,
            is_transient: None,
            is_null: false,
            value: Some(w),
            metadata: None,
            properties: None,
        }),
        Err(e) => Err(SparkplugError::MetricBuildError { name: Some(name), cause: e }),
    }
}

/// A metric of type `data_type` that carries no value, stamped `timestamp`.
pub fn add_null_metric(
    data_type: MetricDataType,
    name: String,
    alias: Option<u64>,
    historical: Option<bool>,
    timestamp: u64,
) -> (r: PayloadMetric)
    ensures
        r == (PayloadMetric { is_null: true, ..metric_head(data_type, name, alias, historical, timestamp) }),
{
    PayloadMetric {
        name: Some(name),
        alias,
        timestamp,
        datatype: data_type,
        is_historical: historical,
        is_transient: None,
        is_null: true,
        value: None,
        metadata: None,
        properties: None,
    }
}

/// A dataset with the given column names and column types. Fails where the
/// two differ in length.
pub fn build_dataset(columns: Vec<String>, types: Vec<MetricDataType>) -> (r: Result<PayloadDataSet, SparkplugError>)
    ensures
        columns.len() != types.len() ==> r == Err::<PayloadDataSet, SparkplugError>(
            SparkplugError::ShapeError { columns: columns.len(), types: types.len() }),
        columns.len() == types.len() ==> (r matches Ok(d) && d.columns == columns
            && d.num_of_columns == columns.len() && d.types.len() == types.len()
            && forall|i: int| 0 <= i < types.len() ==> d.types[i] == code_of(#[trigger] types[i])),
{
    if columns.len() != types.len() {
        return Err(SparkplugError::ShapeError { columns: columns.len(), types: types.len() });
    }
    let mut codes: Vec<u32> = Vec::new();
    let mut i: usize = 0;
    while i < types.len()
        invariant
            0 <= i <= types.len(),
            codes.len() == i,
            forall|j: int| 0 <= j < i ==> codes[j] == code_of(#[trigger] types[j]),
        decreases types.len() - i,
    {
        codes.push(types[i].code());
        i = i + 1;
    }
    Ok(PayloadDataSet { num_of_columns: columns.len() as u64, columns, types: codes })
}

/// A template: an instance of the definition named `template_ref`, or a
/// definition where none is named.
pub fn build_template(template_ref: Option<String>) -> (r: PayloadTemplate)
    ensures
        r.is_definition == template_ref is None,
        r.template_ref == template_ref,
{
    let is_definition = template_ref.is_none();
    PayloadTemplate { is_definition, template_ref }
}

/// A dataset metric stamped `timestamp`. Fails where the column names and
/// types differ in length.
pub fn init_dataset_metric(
    name: String,
    alias: Option<u64>,
    columns: Vec<String>,
    types: Vec<MetricDataType>,
    timestamp: u64,
) -> (r: Result<PayloadMetric, SparkplugError>)
    ensures
        columns.len() != types.len() ==> r == Err::<PayloadMetric, SparkplugError>(
            SparkplugError::ShapeError { columns: columns.len(), types: types.len() }),
        columns.len() == types.len() ==> (r matches Ok(m) && m == (PayloadMetric {
            value: m.value,
            ..metric_head(MetricDataType::DataSet, name, alias, None, timestamp)
        }) && (m.value matches Some(WireField::DataSet(d)) && d.columns == columns
            && d.num_of_columns == columns.len() && d.types.len() == types.len()
            && forall|i: int| 0 <= i < types.len() ==> d.types[i] == code_of(#[trigger] types[i]))),
{
    match build_dataset(columns, types) {
        Ok(d) => {
            Ok(PayloadMetric {
                name: Some(name),
                alias,
                timestamp,
                datatype: MetricDataType::DataSet,
                is_historical: None,
                is_transient: None,
                is_null: false,
                value: Some(WireField::DataSet(d)),
                metadata: None,
                properties: None,
            })
        },
        Err(e) => Err(e),
    }
}

/// A template metric stamped `timestamp`.
pub fn init_template_metric(name: String, alias: Option<u64>, template: PayloadTemplate, timestamp: u64) -> (r: PayloadMetric)
    ensures
        r == (PayloadMetric {
            value: Some(WireField::Template(template)),
            ..metric_head(MetricDataType::Template, name, alias, None, timestamp)
        }),
{
    PayloadMetric {
        name: Some(name),
        alias,
        timestamp,
        datatype: MetricDataType::Template,
        is_historical: None,
        is_transient: None,
        is_null: false,
        value: Some(WireField::Template(template)),
        metadata: None,
        properties: None,
    }
}

} // verus!
