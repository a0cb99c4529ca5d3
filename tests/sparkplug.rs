use sparkplug::error::{EncodeError, SparkplugError};
use sparkplug::record::{
    add_null_metric, build_dataset, build_template, create_metric, create_metric_from_str,
    init_dataset_metric, set_metric_type, set_metric_value, Metadata,
};
use sparkplug::schema::{
    assemble_payload, map_metrics, Diagnostic, Metric, Name, PropertySet, PropertyValue, SparkplugB,
};
use sparkplug::sequence::SequenceState;
use sparkplug::types::{data_type_from_name, FieldSlot, MessageType, MetricDataType};
use sparkplug::value::{
    encode, encode_descriptor, encode_from_text, DescriptorValue, PayloadDataSet, PayloadTemplate, TaggedValue,
    WireField,
};

fn descriptor(name: &str, value: Option<&str>, data_type: MetricDataType) -> Metric {
    Metric {
        name: Some(name.to_string()),
        value: value.map(|v| DescriptorValue::Text(v.to_string())),
        data_type,
        alias: None,
        historical: None,
        property_set: None,
        metadata: None,
        is_transient: None,
    }
}

fn prop(value: &str, data_type: MetricDataType) -> PropertyValue {
    PropertyValue { is_null: None, value: DescriptorValue::Text(value.to_string()), data_type }
}

fn slot(w: &WireField) -> FieldSlot {
    match w {
        WireField::Int(_) => FieldSlot::Int,
        WireField::Long(_) => FieldSlot::Long,
        WireField::Float(_) => FieldSlot::Float,
        WireField::Double(_) => FieldSlot::Double,
        WireField::Boolean(_) => FieldSlot::Boolean,
        WireField::Str(_) => FieldSlot::Str,
        WireField::Bytes(_) => FieldSlot::Bytes,
        WireField::DataSet(_) => FieldSlot::DataSet,
        WireField::Template(_) => FieldSlot::Template,
    }
}

#[test]
fn construction() {
    let l = SparkplugB {
        metrics: vec![Metric {
            name: None,
            value: Some(DescriptorValue::Text("12".to_string())),
            data_type: MetricDataType::UInt32,
            alias: None,
            historical: None,
            property_set: Some(PropertySet { keys: vec![], values: vec![] }),
            metadata: None,
            is_transient: None,
        }],
        timestamp: None,
        seq: None,
        uuid: None,
        body: None,
    };
    let (payload, diags, props) = l.form_proto(1000);
    assert_eq!(props, vec![Vec::<Diagnostic>::new()]);
    assert_eq!(payload.metrics.len(), 1);
    assert_eq!(payload.metrics[0].value, Some(WireField::Int(12)));
    assert_eq!(payload.timestamp, 1000);
    assert_eq!(diags, vec![Diagnostic::MissingSeq]);
}

fn fitting_pairs() -> Vec<(MetricDataType, TaggedValue)> {
    vec![
        (MetricDataType::Int8, TaggedValue::I8(-1)),
        (MetricDataType::Int16, TaggedValue::I16(300)),
        (MetricDataType::Int32, TaggedValue::I32(-5)),
        (MetricDataType::Int64, TaggedValue::I64(-2)),
        (MetricDataType::UInt8, TaggedValue::U8(200)),
        (MetricDataType::UInt16, TaggedValue::U16(60000)),
        (MetricDataType::UInt32, TaggedValue::U32(7)),
        (MetricDataType::UInt64, TaggedValue::U64(u64::MAX)),
        (MetricDataType::Float, TaggedValue::FloatBits(1.5f32.to_bits())),
        (MetricDataType::Double, TaggedValue::DoubleBits(2.5f64.to_bits())),
        (MetricDataType::Boolean, TaggedValue::Boolean(true)),
        (MetricDataType::String, TaggedValue::Str("s".to_string())),
        (MetricDataType::Text, TaggedValue::Str("t".to_string())),
        (MetricDataType::UUID, TaggedValue::Str("u".to_string())),
        (MetricDataType::DateTime, TaggedValue::DateTime(1_600_000_000_000)),
        (MetricDataType::Bytes, TaggedValue::Bytes(vec![1, 2])),
        (MetricDataType::File, TaggedValue::Bytes(vec![3])),
        (
            MetricDataType::DataSet,
            TaggedValue::DataSet(PayloadDataSet { num_of_columns: 0, columns: vec![], types: vec![] }),
        ),
        (
            MetricDataType::Template,
            TaggedValue::Template(PayloadTemplate { is_definition: true, template_ref: None }),
        ),
    ]
}

#[test]
fn encode_fitting_kinds_fill_the_tag_slot() {
    for (tag, value) in fitting_pairs() {
        let w = encode(tag, value).expect("fitting kind encodes");
        assert_eq!(slot(&w), tag.field_slot_for());
    }
}

#[test]
fn encode_signed_values_as_twos_complement() {
    assert_eq!(encode(MetricDataType::Int8, TaggedValue::I8(-1)), Ok(WireField::Int(0xffff_ffff)));
    assert_eq!(encode(MetricDataType::Int64, TaggedValue::I64(-2)), Ok(WireField::Long(u64::MAX - 1)));
    assert_eq!(encode(MetricDataType::Int64, TaggedValue::I64(i64::MIN)), Ok(WireField::Long(1u64 << 63)));
    assert_eq!(encode(MetricDataType::UInt16, TaggedValue::U16(60000)), Ok(WireField::Int(60000)));
}

#[test]
fn encode_mismatched_kinds_fail() {
    assert_eq!(
        encode(MetricDataType::Int64, TaggedValue::Boolean(true)),
        Err(EncodeError::TypeMismatch { tag: MetricDataType::Int64 })
    );
    assert_eq!(
        encode(MetricDataType::Int8, TaggedValue::I16(1)),
        Err(EncodeError::TypeMismatch { tag: MetricDataType::Int8 })
    );
    assert_eq!(
        encode(MetricDataType::Unknown, TaggedValue::U32(1)),
        Err(EncodeError::TypeMismatch { tag: MetricDataType::Unknown })
    );
    for (tag, _) in fitting_pairs() {
        let other = if tag == MetricDataType::Boolean { TaggedValue::U8(1) } else { TaggedValue::Boolean(false) };
        assert_eq!(encode(tag, other), Err(EncodeError::TypeMismatch { tag }));
    }
}

#[test]
fn boolean_text_tokens() {
    for (text, b) in [("true", true), ("false", false), ("1", true), ("0", false), ("TRUE", true), ("False", false)] {
        assert_eq!(encode_from_text(MetricDataType::Boolean, text), Ok(WireField::Boolean(b)));
    }
    assert_eq!(
        encode_from_text(MetricDataType::Boolean, "yes"),
        Err(EncodeError::ParseFailure { tag: MetricDataType::Boolean, text: "yes".to_string() })
    );
    assert!(encode_from_text(MetricDataType::Boolean, "").is_err());
}

#[test]
fn int64_text_bounds() {
    assert_eq!(
        encode_from_text(MetricDataType::Int64, "9223372036854775807"),
        Ok(WireField::Long(9223372036854775807))
    );
    assert_eq!(
        encode_from_text(MetricDataType::Int64, "abc"),
        Err(EncodeError::ParseFailure { tag: MetricDataType::Int64, text: "abc".to_string() })
    );
    assert!(encode_from_text(MetricDataType::Int64, "9223372036854775808").is_err());
    assert_eq!(
        encode_from_text(MetricDataType::Int64, "-9223372036854775808"),
        Ok(WireField::Long(1u64 << 63))
    );
    assert_eq!(encode_from_text(MetricDataType::Int64, "-1"), Ok(WireField::Long(u64::MAX)));
}

#[test]
fn narrow_integer_text_is_range_checked() {
    assert_eq!(encode_from_text(MetricDataType::Int8, "127"), Ok(WireField::Int(127)));
    assert_eq!(encode_from_text(MetricDataType::Int8, "-128"), Ok(WireField::Int(0xffff_ff80)));
    assert!(encode_from_text(MetricDataType::Int8, "128").is_err());
    assert!(encode_from_text(MetricDataType::Int8, "-129").is_err());
    assert_eq!(encode_from_text(MetricDataType::UInt8, "255"), Ok(WireField::Int(255)));
    assert!(encode_from_text(MetricDataType::UInt8, "256").is_err());
    assert!(encode_from_text(MetricDataType::UInt8, "-1").is_err());
    assert_eq!(encode_from_text(MetricDataType::UInt32, "+42"), Ok(WireField::Int(42)));
    assert_eq!(encode_from_text(MetricDataType::UInt64, "18446744073709551615"), Ok(WireField::Long(u64::MAX)));
    assert!(encode_from_text(MetricDataType::UInt64, "18446744073709551616").is_err());
    assert_eq!(encode_from_text(MetricDataType::DateTime, "1700000000000"), Ok(WireField::Long(1700000000000)));
    assert!(encode_from_text(MetricDataType::Int32, "").is_err());
    assert!(encode_from_text(MetricDataType::Int32, "-").is_err());
    assert!(encode_from_text(MetricDataType::Int32, "1 2").is_err());
}

#[test]
fn string_text_passes_through_and_others_are_unsupported() {
    assert_eq!(encode_from_text(MetricDataType::UUID, "abc-1"), Ok(WireField::Str("abc-1".to_string())));
    assert_eq!(encode_from_text(MetricDataType::Text, ""), Ok(WireField::Str(String::new())));
    for tag in [
        MetricDataType::Bytes,
        MetricDataType::File,
        MetricDataType::Template,
        MetricDataType::DataSet,
        MetricDataType::Unknown,
        MetricDataType::Float,
        MetricDataType::Double,
    ] {
        assert_eq!(encode_from_text(tag, "1"), Err(EncodeError::UnsupportedTag { tag }));
    }
}

#[test]
fn next_seq_wraps_after_255() {
    let mut s = SequenceState::new();
    for k in 0..256u64 {
        assert_eq!(s.next_seq(), k);
    }
    assert_eq!(s.next_seq(), 0);
}

#[test]
fn next_bd_seq_wraps_after_255() {
    let mut s = SequenceState { seq: 0, bd_seq: 255 };
    assert_eq!(s.next_bd_seq(), 255);
    assert_eq!(s.next_bd_seq(), 0);
}

#[test]
fn death_then_birth_payloads() {
    let mut s = SequenceState { seq: 17, bd_seq: 4 };
    let death = s.get_node_death_payload(10);
    assert_eq!(death.metrics.len(), 1);
    assert_eq!(death.metrics[0].name, Some("bdSeq".to_string()));
    assert_eq!(death.metrics[0].datatype, MetricDataType::Int64);
    assert_eq!(death.metrics[0].value, Some(WireField::Long(4)));
    assert_eq!(s.bd_seq, 4);
    let birth = s.get_node_birth_payload(20);
    assert_eq!(birth.metrics[0].value, Some(WireField::Long(5)));
    assert_eq!(birth.seq, Some(0));
    assert_eq!(birth.timestamp, 20);
    assert_eq!(s.get_device_birth_payload(30).seq, Some(1));
    assert_eq!(s.get_d_data_payload(40).seq, Some(2));
}

#[test]
fn birth_wraps_bd_seq() {
    let mut s = SequenceState { seq: 0, bd_seq: 255 };
    assert_eq!(s.get_node_death_payload(1).metrics[0].value, Some(WireField::Long(255)));
    assert_eq!(s.get_node_birth_payload(2).metrics[0].value, Some(WireField::Long(0)));
}

#[test]
fn dataset_shape_mismatch() {
    assert_eq!(
        build_dataset(vec!["a".to_string(), "b".to_string()], vec![MetricDataType::Int32]),
        Err(SparkplugError::ShapeError { columns: 2, types: 1 })
    );
    let d = build_dataset(
        vec!["a".to_string(), "b".to_string()],
        vec![MetricDataType::Int32, MetricDataType::String],
    )
    .unwrap();
    assert_eq!(d.num_of_columns, 2);
    assert_eq!(d.types, vec![3, 12]);
    assert!(init_dataset_metric("t".to_string(), None, vec![], vec![MetricDataType::Int8], 1).is_err());
    let m = init_dataset_metric("t".to_string(), Some(3), vec!["c".to_string()], vec![MetricDataType::Int8], 8)
        .unwrap();
    assert_eq!(m.timestamp, 8);
    assert_eq!(m.datatype, MetricDataType::DataSet);
    assert_eq!(m.alias, Some(3));
}

#[test]
fn map_metrics_skips_malformed() {
    let ds = vec![
        descriptor("first", Some("1"), MetricDataType::Int32),
        descriptor("second", Some("xyz"), MetricDataType::Int32),
        descriptor("third", Some("3"), MetricDataType::Int32),
    ];
    let (out, diags, props) = map_metrics(&ds, 5);
    assert_eq!(props.len(), 2);
    assert_eq!(out.len(), 2);
    assert_eq!(out[0].name, Some("first".to_string()));
    assert_eq!(out[1].name, Some("third".to_string()));
    assert_eq!(out[1].value, Some(WireField::Int(3)));
    assert_eq!(diags.len(), 1);
    assert_eq!(
        diags[0],
        Diagnostic::MetricSkipped {
            index: 1,
            cause: SparkplugError::MetricBuildError {
                name: Some("second".to_string()),
                cause: EncodeError::ParseFailure { tag: MetricDataType::Int32, text: "xyz".to_string() },
            },
        }
    );
}

#[test]
fn null_descriptor_builds_null_metric() {
    let (out, diags, _) = map_metrics(&vec![descriptor("n", None, MetricDataType::Double)], 9);
    assert!(diags.is_empty());
    assert!(out[0].is_null);
    assert_eq!(out[0].value, None);
    assert_eq!(out[0].timestamp, 9);
}

#[test]
fn property_set_skips_malformed() {
    let ps = PropertySet {
        keys: vec!["a".to_string(), "b".to_string()],
        values: vec![prop("oops", MetricDataType::Int16), prop("on", MetricDataType::String)],
    };
    let (set, diags) = ps.form_proto();
    assert_eq!(set.keys, vec!["b".to_string()]);
    assert_eq!(set.values.len(), 1);
    assert_eq!(set.values[0].value, Some(WireField::Str("on".to_string())));
    assert_eq!(diags.len(), 1);
    assert!(matches!(diags[0], Diagnostic::PropertySkipped { index: 0, .. }));
}

#[test]
fn property_rejects_non_property_tags() {
    assert_eq!(
        prop("x", MetricDataType::Bytes).form_proto(),
        Err(EncodeError::UnsupportedTag { tag: MetricDataType::Bytes })
    );
}

#[test]
fn metric_descriptor_carries_metadata_and_properties() {
    let md = Metadata {
        is_multi_part: Some(false),
        content_type: Some("text/plain".to_string()),
        size: Some(4),
        seq: None,
        file_name: None,
        file_type: None,
        md5: None,
        description: Some("d".to_string()),
    };
    let mut d = descriptor("m", Some("true"), MetricDataType::Boolean);
    d.metadata = Some(md.clone());
    d.is_transient = Some(true);
    d.property_set = Some(PropertySet { keys: vec!["k".to_string()], values: vec![prop("7", MetricDataType::UInt8)] });
    let (m, skipped) = d.form_proto(77).unwrap();
    assert!(skipped.is_empty());
    assert_eq!(m.metadata, Some(md));
    assert_eq!(m.is_transient, Some(true));
    assert_eq!(m.value, Some(WireField::Boolean(true)));
    assert_eq!(m.properties.unwrap().values[0].value, Some(WireField::Int(7)));
}

#[test]
fn payload_assembly_defaults() {
    let (p, w) = assemble_payload(Some("u".to_string()), None, None, vec![], None, 123);
    assert_eq!(p.timestamp, 123);
    assert_eq!(w, Some(Diagnostic::MissingSeq));
    let (p, w) = assemble_payload(None, Some(5), Some(9), vec![], Some("b".to_string()), 123);
    assert_eq!(p.timestamp, 5);
    assert_eq!(p.seq, Some(9));
    assert_eq!(w, None);
}

#[test]
fn create_metric_and_errors() {
    let m = create_metric(MetricDataType::UInt16, TaggedValue::U16(8), "m".to_string(), Some(2), Some(true), 50).unwrap();
    assert_eq!(m.value, Some(WireField::Int(8)));
    assert_eq!(m.alias, Some(2));
    assert_eq!(m.is_historical, Some(true));
    assert_eq!(m.timestamp, 50);
    assert_eq!(
        create_metric(MetricDataType::UInt16, TaggedValue::I8(1), "m".to_string(), None, None, 50),
        Err(SparkplugError::MetricBuildError {
            name: Some("m".to_string()),
            cause: EncodeError::TypeMismatch { tag: MetricDataType::UInt16 },
        })
    );
    assert!(create_metric_from_str(MetricDataType::Int32, "x", "m".to_string(), None, None, 1).is_err());
    let c = create_metric_from_str(MetricDataType::Int16, "-2", "c".to_string(), None, None, 6).unwrap();
    assert_eq!(c.value, Some(WireField::Int(0xffff_fffe)));
    assert_eq!(c.timestamp, 6);
}

#[test]
fn set_value_failure_leaves_metric() {
    let mut m = add_null_metric(MetricDataType::Int32, "n".to_string(), None, None, 4);
    assert!(m.is_null);
    let before = m.clone();
    assert!(set_metric_value(MetricDataType::Int32, &mut m, TaggedValue::Boolean(true)).is_err());
    assert_eq!(m, before);
    assert!(set_metric_value(MetricDataType::Int32, &mut m, TaggedValue::I32(4)).is_ok());
    assert!(!m.is_null);
    set_metric_type(MetricDataType::Text, &mut m);
    assert_eq!(m.datatype, MetricDataType::Text);
}

#[test]
fn template_definition_or_instance() {
    assert!(build_template(None).is_definition);
    let t = build_template(Some("Motor".to_string()));
    assert!(!t.is_definition);
    assert_eq!(t.template_ref, Some("Motor".to_string()));
}

#[test]
fn names_and_codes() {
    assert_eq!(MessageType::NBIRTH.as_str(), "NBIRTH");
    assert_eq!(MessageType::STATE.as_str(), "STATE");
    assert_eq!(MetricDataType::Template.code(), 19);
    assert_eq!(MetricDataType::Unknown.code(), 0);
    assert_eq!(data_type_from_name("UInt16"), Some(MetricDataType::UInt16));
    assert_eq!(data_type_from_name("uint16"), None);
    assert_eq!("DateTime".parse::<MetricDataType>(), Ok(MetricDataType::DateTime));
    assert!("".parse::<MetricDataType>().is_err());
}

#[test]
fn nested_property_failures_are_reported() {
    let mut d = descriptor("m", Some("5"), MetricDataType::Int64);
    d.property_set = Some(PropertySet {
        keys: vec!["good".to_string(), "bad".to_string()],
        values: vec![prop("1", MetricDataType::Boolean), prop("maybe", MetricDataType::Boolean)],
    });
    let (out, diags, props) = map_metrics(&vec![d], 1);
    assert!(diags.is_empty());
    assert_eq!(out[0].properties.as_ref().unwrap().keys, vec!["good".to_string()]);
    assert_eq!(
        props[0],
        vec![Diagnostic::PropertySkipped {
            index: 1,
            cause: EncodeError::ParseFailure { tag: MetricDataType::Boolean, text: "maybe".to_string() },
        }]
    );
}

#[test]
fn payload_name_and_stamp() {
    let mut p = SparkplugB {
        metrics: vec![descriptor("a", Some("1"), MetricDataType::UInt8)],
        timestamp: None,
        seq: Some(3),
        uuid: Some("node-1".to_string()),
        body: None,
    };
    assert_eq!(p.get_name(), "node-1");
    let (payload, diags, _) = p.form_proto(61);
    assert!(diags.is_empty());
    assert_eq!(payload.seq, Some(3));
    assert_eq!(payload.timestamp, 61);
    assert_eq!(payload.metrics[0].timestamp, 61);
    p.uuid = None;
    assert_eq!(p.get_name(), "");
}

#[test]
fn float_bits_pass_through_batches() {
    let mut f = descriptor("f", None, MetricDataType::Float);
    f.value = Some(DescriptorValue::FloatBits(1.5f32.to_bits() as u64));
    let mut d = descriptor("d", None, MetricDataType::Double);
    d.value = Some(DescriptorValue::FloatBits(2.25f64.to_bits()));
    let mut bad = descriptor("bad", None, MetricDataType::Float);
    bad.value = Some(DescriptorValue::FloatBits(u64::MAX));
    let (out, diags, _) = map_metrics(&vec![f, d, bad], 2);
    assert_eq!(out.len(), 2);
    assert_eq!(out[0].value, Some(WireField::Float(1.5f32.to_bits())));
    assert_eq!(out[1].value, Some(WireField::Double(2.25f64.to_bits())));
    assert_eq!(diags.len(), 1);
    assert_eq!(
        encode_descriptor(MetricDataType::Int32, &DescriptorValue::FloatBits(1)),
        Err(EncodeError::TypeMismatch { tag: MetricDataType::Int32 })
    );
    assert_eq!(
        encode_descriptor(MetricDataType::Int32, &DescriptorValue::Text("9".to_string())),
        Ok(WireField::Int(9))
    );
}
