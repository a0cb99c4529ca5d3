use vstd::prelude::*;
use crate::error::EncodeError;
use crate::text::{bool_of_text, decimal_of, parse_boolean, parse_decimal};
use crate::types::{slot_of, FieldSlot, MetricDataType};

verus! {

/// A table value: column names and, index for index, their type codes.
#[derive(Clone, Debug, PartialEq, Eq)]
pub struct PayloadDataSet {
    pub num_of_columns: u64,
    pub columns: Vec<String>,
    pub types: Vec<u32>,
}

/// A template: a definition, or an instance naming the definition it follows.
#[derive(Clone, Debug, PartialEq, Eq)]
pub struct PayloadTemplate {
    pub is_definition: bool,
    pub template_ref: Option<String>,
}

/// An input value whose kind is fixed when it is made.
/// Floating-point values travel as their IEEE-754 bits.
#[derive(Clone, Debug, PartialEq, Eq)]
pub enum TaggedValue {
    I8(i8),
    I16(i16),
    I32(i32),
    I64(i64),
    U8(u8),
    U16(u16),
    U32(u32),
    U64(u64),
    FloatBits(u32),
    DoubleBits(u64),
    Boolean(bool),
    Str(String),
    DateTime(u64),
    Bytes(Vec<u8>),
    DataSet(PayloadDataSet),
    Template(PayloadTemplate),
}

/// The value field of a wire record.
#[derive(Clone, Debug, PartialEq, Eq)]
pub enum WireField {
    Int(u32),
    Long(u64),
    Float(u32),
    Double(u64),
    Boolean(bool),
    Str(String),
    Bytes(Vec<u8>),
    DataSet(PayloadDataSet),
    Template(PayloadTemplate),
}

impl WireField {
    pub open spec fn slot(self) -> FieldSlot {
        match self {
            WireField::Int(_) => FieldSlot::Int,
            WireField::Long(_) => FieldSlot::Long,
            WireField::Float(_) => FieldSlot::Float,
            WireField::Double(_) => FieldSlot::Double,
            WireField::Boolean(_) => FieldSlot::Boolean,
            WireField::Str(_) => FieldSlot::Str,
            WireField::Bytes(_) => FieldSlot::Bytes,
            WireField::DataSet(_) => FieldSlot::DataSet,
            WireField::Template(_) => FieldSlot::Template,
        }
    }
}

/// The two's-complement bits of `v` in 32 bits.
pub open spec fn bits32(v: int) -> u32 {
    if v < 0 { (v + 0x1_0000_0000) as u32 } else { v as u32 }
}

/// The two's-complement bits of `v` in 64 bits.
pub open spec fn bits64(v: int) -> u64 {
    if v < 0 { (v + 0x1_0000_0000_0000_0000) as u64 } else { v as u64 }
}

/// The value's kind is the one that `tag` declares.
pub open spec fn kind_fits(tag: MetricDataType, v: TaggedValue) -> bool {
    match v {
        TaggedValue::I8(_) => tag is Int8,
        TaggedValue::I16(_) => tag is Int16,
        TaggedValue::I32(_) => tag is Int32,
        TaggedValue::I64(_) => tag is Int64,
        TaggedValue::U8(_) => tag is UInt8,
        TaggedValue::U16(_) => tag is UInt16,
        TaggedValue::U32(_) => tag is UInt32,
        TaggedValue::U64(_) => tag is UInt64,
        TaggedValue::FloatBits(_) => tag is Float,
        TaggedValue::DoubleBits(_) => tag is Double,
        TaggedValue::Boolean(_) => tag is Boolean,
        TaggedValue::Str(_) => tag is String || tag is Text || tag is UUID,
        TaggedValue::DateTime(_) => tag is DateTime,
        TaggedValue::Bytes(_) => tag is Bytes || tag is File,
        TaggedValue::DataSet(_) => tag is DataSet,
        TaggedValue::Template(_) => tag is Template,
    }
}

/// The wire field that a value of the right kind becomes.
pub open spec fn field_of(v: TaggedValue) -> WireField {
    match v {
        TaggedValue::I8(x) => WireField::Int(bits32(x as int)),
        TaggedValue::I16(x) => WireField::Int(bits32(x as int)),
        TaggedValue::I32(x) => WireField::Int(bits32(x as int)),
        TaggedValue::I64(x) => WireField::Long(bits64(x as int)),
        TaggedValue::U8(x) => WireField::Int(x as u32),
        TaggedValue::U16(x) => WireField::Int(x as u32),
        TaggedValue::U32(x) => WireField::Int(x),
        TaggedValue::U64(x) => WireField::Long(x),
        TaggedValue::FloatBits(x) => WireField::Float(x),
        TaggedValue::DoubleBits(x) => WireField::Double(x),
        TaggedValue::Boolean(b) => WireField::Boolean(b),
        TaggedValue::Str(s) => WireField::Str(s),
        TaggedValue::DateTime(x) => WireField::Long(x),
        TaggedValue::Bytes(b) => WireField::Bytes(b),
        TaggedValue::DataSet(d) => WireField::DataSet(d),
        TaggedValue::Template(t) => WireField::Template(t),
    }
}

/// What `encode` gives: the field of the value where its kind fits the tag.
pub open spec fn encode_spec(tag: MetricDataType, v: TaggedValue) -> Result<WireField, EncodeError> {
    if kind_fits(tag, v) {
        Ok(field_of(v))
    } else {
        Err(EncodeError::TypeMismatch { tag })
    }
}

/// Encodes `value` into the field slot of `tag`.
pub fn encode(tag: MetricDataType, value: TaggedValue) -> (r: Result<WireField, EncodeError>)
    ensures
        r == encode_spec(tag, value),
{
    match (tag, value) {
        (MetricDataType::Int8, TaggedValue::I8(x)) => Ok(WireField::Int(
            if x < 0 { (4294967296i64 + x as i64) as u32 } else { x as u32 },
        )),
        (MetricDataType::Int16, TaggedValue::I16(x)) => Ok(WireField::Int(
            if x < 0 { (4294967296i64 + x as i64) as u32 } else { x as u32 },
        )),
        (MetricDataType::Int32, TaggedValue::I32(x)) => Ok(WireField::Int(
            if x < 0 { (4294967296i64 + x as i64) as u32 } else { x as u32 },
        )),
        (MetricDataType::Int64, TaggedValue::I64(x)) => Ok(WireField::Long(
            if x < 0 { (u64::MAX - ((-(x + 1)) as u64)) } else { x as u64 },
        )),
        (MetricDataType::UInt8, TaggedValue::U8(x)) => Ok(WireField::Int(x as u32)),
        (MetricDataType::UInt16, TaggedValue::U16(x)) => Ok(WireField::Int(x as u32)),
        (MetricDataType::UInt32, TaggedValue::U32(x)) => Ok(WireField::Int(x)),
        (MetricDataType::UInt64, TaggedValue::U64(x)) => Ok(WireField::Long(x)),
        (MetricDataType::Float, TaggedValue::FloatBits(x)) => Ok(WireField::Float(x)),
        (MetricDataType::Double, TaggedValue::DoubleBits(x)) => Ok(WireField::Double(x)),
        (MetricDataType::Boolean, TaggedValue::Boolean(b)) => Ok(WireField::Boolean(b)),
        (MetricDataType::String, TaggedValue::Str(s)) => Ok(WireField::Str(s)),
        (MetricDataType::Text, TaggedValue::Str(s)) => Ok(WireField::Str(s)),
        (MetricDataType::UUID, TaggedValue::Str(s)) => Ok(WireField::Str(s)),
        (MetricDataType::DateTime, TaggedValue::DateTime(x)) => Ok(WireField::Long(x)),
        (MetricDataType::Bytes, TaggedValue::Bytes(b)) => Ok(WireField::Bytes(b)),
        (MetricDataType::File, TaggedValue::Bytes(b)) => Ok(WireField::Bytes(b)),
        (MetricDataType::DataSet, TaggedValue::DataSet(d)) => Ok(WireField::DataSet(d)),
        (MetricDataType::Template, TaggedValue::Template(t)) => Ok(WireField::Template(t)),
        (t, _) => Err(EncodeError::TypeMismatch { tag: t }),
    }
}

/// For every tag and every value of the kind it declares, encoding succeeds
/// and fills the field slot of that tag.
pub proof fn lemma_encode_fitting(tag: MetricDataType, v: TaggedValue)
    requires
        kind_fits(tag, v),
    ensures
        encode_spec(tag, v) is Ok,
        encode_spec(tag, v)->Ok_0.slot() == slot_of(tag),
{
}

/// Where the value's kind differs from the tag's, encoding fails with a type
/// mismatch and yields no field.
pub proof fn lemma_encode_mismatch(tag: MetricDataType, v: TaggedValue)
    requires
        !kind_fits(tag, v),
    ensures
        encode_spec(tag, v) == Err::<WireField, EncodeError>(EncodeError::TypeMismatch { tag }),
{
}

/// Inclusive lower bound (as a magnitude) and upper bound of an integer tag's
/// range; `None` for the lower bound where the tag takes no negative values.
pub open spec fn int_range(tag: MetricDataType) -> (Option<int>, int) {
    match tag {
        MetricDataType::Int8 => (Some(0x80), 0x7f),
        MetricDataType::Int16 => (Some(0x8000), 0x7fff),
        MetricDataType::Int32 => (Some(0x8000_0000), 0x7fff_ffff),
        MetricDataType::Int64 => (Some(0x8000_0000_0000_0000), 0x7fff_ffff_ffff_ffff),
        MetricDataType::UInt8 => (None, 0xff),
        MetricDataType::UInt16 => (None, 0xffff),
        MetricDataType::UInt32 => (None, 0xffff_ffff),
        _ => (None, 0xffff_ffff_ffff_ffff),
    }
}

/// The integer that `s` denotes for an integer tag, where it is a decimal
/// literal inside the tag's range.
pub open spec fn int_of_text(tag: MetricDataType, s: Seq<char>) -> Option<int> {
    match decimal_of(s) {
        Some((neg, mag)) => {
            let (lo, hi) = int_range(tag);
            if neg && lo is Some && mag <= lo->Some_0 {
                Some(-mag)
            } else if !neg && mag <= hi {
                Some(mag)
            } else {
                None
            }
        },
        None => None,
    }
}

pub open spec fn is_parse_failure(tag: MetricDataType, s: Seq<char>, r: Result<WireField, EncodeError>) -> bool {
    r matches Err(EncodeError::ParseFailure { tag: t, text }) && t == tag && text@ == s
}

/// The text `s` is a literal that `tag` can be filled from.
pub open spec fn text_ok(tag: MetricDataType, s: Seq<char>) -> bool {
    match slot_of(tag) {
        FieldSlot::Int | FieldSlot::Long => int_of_text(tag, s) is Some,
        FieldSlot::Boolean => bool_of_text(s) is Some,
        FieldSlot::Str => true,
        _ => false,
    }
}

/// What encoding the text `s` for `tag` gives.
pub open spec fn text_outcome(tag: MetricDataType, s: Seq<char>, r: Result<WireField, EncodeError>) -> bool {
    match slot_of(tag) {
        FieldSlot::Int => match int_of_text(tag, s) {
            Some(v) => r == Ok::<WireField, EncodeError>(WireField::Int(bits32(v))),
            None => is_parse_failure(tag, s, r),
        },
        FieldSlot::Long => match int_of_text(tag, s) {
            Some(v) => r == Ok::<WireField, EncodeError>(WireField::Long(bits64(v))),
            None => is_parse_failure(tag, s, r),
        },
        FieldSlot::Boolean => match bool_of_text(s) {
            Some(b) => r == Ok::<WireField, EncodeError>(WireField::Boolean(b)),
            None => is_parse_failure(tag, s, r),
        },
        FieldSlot::Str => r matches Ok(WireField::Str(t)) && t@ == s,
        _ => r == Err::<WireField, EncodeError>(EncodeError::UnsupportedTag { tag }),
    }
}

fn int_limits(tag: MetricDataType) -> (r: (Option<u64>, u64))
    ensures
        (int_range(tag).0 is None) ==> (r.0 is None),
        (int_range(tag).0 is Some) ==> r.0 == Some(int_range(tag).0->Some_0 as u64),
        r.1 == int_range(tag).1,
{
    match tag {
        MetricDataType::Int8 => (Some(0x80), 0x7f),
        MetricDataType::Int16 => (Some(0x8000), 0x7fff),
        MetricDataType::Int32 => (Some(0x8000_0000), 0x7fff_ffff),
        MetricDataType::Int64 => (Some(0x8000_0000_0000_0000), 0x7fff_ffff_ffff_ffff),
        MetricDataType::UInt8 => (None, 0xff),
        MetricDataType::UInt16 => (None, 0xffff),
        MetricDataType::UInt32 => (None, 0xffff_ffff),
        _ => (None, 0xffff_ffff_ffff_ffff),
    }
}

fn parse_failure(tag: MetricDataType, text: &str) -> (r: Result<WireField, EncodeError>)
    ensures
        is_parse_failure(tag, text@, r),
{
    Err(EncodeError::ParseFailure { tag, text: text.to_owned() })
}

/// Encodes the text `text` into the field slot of `tag`: integer tags take a
/// decimal literal inside their range, `Boolean` takes `true` or `false` in any
/// case, `1` or `0`, and the string tags take the text as it is. The other tags
/// are not filled from text; floating-point values are encoded from their bits
/// through `encode` or `encode_descriptor`.
pub fn encode_from_text(tag: MetricDataType, text: &str) -> (r: Result<WireField, EncodeError>)
    ensures
        text_outcome(tag, text@, r),
        r is Ok <==> text_ok(tag, text@),
{
    let slot = tag.field_slot_for();
    match slot {
        FieldSlot::Int | FieldSlot::Long => {
            let (lo, hi) = int_limits(tag);
            assert(slot == FieldSlot::Int ==> hi <= 0xffff_ffff && (lo is Some ==> lo->Some_0
                <= 0x8000_0000));
            match parse_decimal(text, lo, hi) {
                Some((neg, mag)) => {
                    if slot == FieldSlot::Int {
                        let bits: u32 = if neg && mag > 0 {
                            (4294967296u64 - mag) as u32
                        } else {
                            mag as u32
                        };
                        Ok(WireField::Int(bits))
                    } else {
                        let bits: u64 = if neg && mag > 0 {
                            u64::MAX - (mag - 1)
                        } else {
                            mag
                        };
                        Ok(WireField::Long(bits))
                    }
                },
                None => parse_failure(tag, text),
            }
        },
        FieldSlot::Boolean => match parse_boolean(text) {
            Some(b) => Ok(WireField::Boolean(b)),
            None => parse_failure(tag, text),
        },
        FieldSlot::Str => Ok(WireField::Str(text.to_owned())),
        _ => Err(EncodeError::UnsupportedTag { tag }),
    }
}

/// A value as a producer describes it: text, or the IEEE-754 bits of a
/// floating-point number that the producer has read (`u32` bits widened for
/// `Float`).
#[derive(Clone, Debug, PartialEq, Eq)]
pub enum DescriptorValue {
    Text(String),
    FloatBits(u64),
}

/// The described value `v` can fill `tag`.
pub open spec fn descriptor_ok(tag: MetricDataType, v: DescriptorValue) -> bool {
    match v {
        DescriptorValue::Text(s) => text_ok(tag, s@),
        DescriptorValue::FloatBits(b) => (tag is Float && b <= 0xffff_ffff) || tag is Double,
    }
}

/// What encoding the described value `v` for `tag` gives.
pub open spec fn descriptor_outcome(tag: MetricDataType, v: DescriptorValue, r: Result<WireField, EncodeError>) -> bool {
    match v {
        DescriptorValue::Text(s) => text_outcome(tag, s@, r),
        DescriptorValue::FloatBits(b) => if tag is Float && b <= 0xffff_ffff {
            r == Ok::<WireField, EncodeError>(WireField::Float(b as u32))
        } else if tag is Double {
            r == Ok::<WireField, EncodeError>(WireField::Double(b))
        } else {
            r == Err::<WireField, EncodeError>(EncodeError::TypeMismatch { tag })
        },
    }
}

/// Encodes a described value: text as `encode_from_text` does, bits into the
/// `Float` field (where they fit in 32 bits) or the `Double` field.
pub fn encode_descriptor(tag: MetricDataType, v: &DescriptorValue) -> (r: Result<WireField, EncodeError>)
    ensures
        descriptor_outcome(tag, *v, r),
        r is Ok <==> descriptor_ok(tag, *v),
{
    match v {
        DescriptorValue::Text(s) => encode_from_text(tag, s.as_str()),
        DescriptorValue::FloatBits(b) => {
            if tag == MetricDataType::Float && *b <= 0xffff_ffff {
                encode(tag, TaggedValue::FloatBits(*b as u32))
            } else {
                encode(tag, TaggedValue::DoubleBits(*b))
            }
        },
    }
}

} // verus!
