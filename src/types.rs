use vstd::prelude::*;
use vstd::string::*;

verus! {

/// The kinds of message a node or device publishes.
#[derive(Clone, Copy, Debug, PartialEq, Eq, Structural)]
pub enum MessageType {
    /// Birth certificate of an edge node.
    NBIRTH,
    /// Death certificate of an edge node.
    NDEATH,
    /// Birth certificate of a device.
    DBIRTH,
    /// Death certificate of a device.
    DDEATH,
    /// Data message of an edge node.
    NDATA,
    /// Data message of a device.
    DDATA,
    /// Command to an edge node.
    NCMD,
    /// Command to a device.
    DCMD,
    /// State of a critical application.
    STATE,
}

impl MessageType {
    /// The topic word of the message type.
    pub open spec fn spec_name(self) -> Seq<char> {
        match self {
            MessageType::NBIRTH => seq!['N', 'B', 'I', 'R', 'T', 'H'],
            MessageType::NDEATH => seq!['N', 'D', 'E', 'A', 'T', 'H'],
            MessageType::DBIRTH => seq!['D', 'B', 'I', 'R', 'T', 'H'],
            MessageType::DDEATH => seq!['D', 'D', 'E', 'A', 'T', 'H'],
            MessageType::NDATA => seq!['N', 'D', 'A', 'T', 'A'],
            MessageType::DDATA => seq!['D', 'D', 'A', 'T', 'A'],
            MessageType::NCMD => seq!['N', 'C', 'M', 'D'],
            MessageType::DCMD => seq!['D', 'C', 'M', 'D'],
            MessageType::STATE => seq!['S', 'T', 'A', 'T', 'E'],
        }
    }

    pub fn as_str(&self) -> (r: &'static str)
        ensures
            r@ == self.spec_name(),
    {
        let r = match self {
            MessageType::NBIRTH => "NBIRTH",
            MessageType::NDEATH => "NDEATH",
            MessageType::DBIRTH => "DBIRTH",
            MessageType::DDEATH => "DDEATH",
            MessageType::NDATA => "NDATA",
            MessageType::DDATA => "DDATA",
            MessageType::NCMD => "NCMD",
            MessageType::DCMD => "DCMD",
            MessageType::STATE => "STATE",
        };
        proof {
            reveal_strlit("NBIRTH");
            reveal_strlit("NDEATH");
            reveal_strlit("DBIRTH");
            reveal_strlit("DDEATH");
            reveal_strlit("NDATA");
            reveal_strlit("DDATA");
            reveal_strlit("NCMD");
            reveal_strlit("DCMD");
            reveal_strlit("STATE");
        }
        r
    }
}

/// The data type tag of a metric or property value.
#[derive(Clone, Copy, Debug, PartialEq, Eq, Structural)]
pub enum MetricDataType {
    Unknown,
    Int8,
    Int16,
    Int32,
    Int64,
    UInt8,
    UInt16,
    UInt32,
    UInt64,
    Float,
    Double,
    Boolean,
    String,
    DateTime,
    Text,
    UUID,
    DataSet,
    Bytes,
    File,
    Template,
}

/// The field of a wire record that holds a value of a given type tag.
#[derive(Clone, Copy, Debug, PartialEq, Eq, Structural)]
pub enum FieldSlot {
    /// The tag carries no value.
    NoValue,
    /// 32-bit integer field.
    Int,
    /// 64-bit integer field.
    Long,
    /// Single-precision field, held as its bits.
    Float,
    /// Double-precision field, held as its bits.
    Double,
    Boolean,
    Str,
    Bytes,
    DataSet,
    Template,
}

/// The wire code of each type tag.
pub open spec fn code_of(t: MetricDataType) -> u32 {
    match t {
        MetricDataType::Unknown => 0,
        MetricDataType::Int8 => 1,
        MetricDataType::Int16 => 2,
        MetricDataType::Int32 => 3,
        MetricDataType::Int64 => 4,
        MetricDataType::UInt8 => 5,
        MetricDataType::UInt16 => 6,
        MetricDataType::UInt32 => 7,
        MetricDataType::UInt64 => 8,
        MetricDataType::Float => 9,
        MetricDataType::Double => 10,
        MetricDataType::Boolean => 11,
        MetricDataType::String => 12,
        MetricDataType::DateTime => 13,
        MetricDataType::Text => 14,
        MetricDataType::UUID => 15,
        MetricDataType::DataSet => 16,
        MetricDataType::Bytes => 17,
        MetricDataType::File => 18,
        MetricDataType::Template => 19,
    }
}

/// The field slot that each type tag fills.
pub open spec fn slot_of(t: MetricDataType) -> FieldSlot {
    match t {
        MetricDataType::Unknown => FieldSlot::NoValue,
        MetricDataType::Int8 | MetricDataType::Int16 | MetricDataType::Int32
        | MetricDataType::UInt8 | MetricDataType::UInt16 | MetricDataType::UInt32 => FieldSlot::Int,
        MetricDataType::Int64 | MetricDataType::UInt64 | MetricDataType::DateTime => FieldSlot::Long,
        MetricDataType::Float => FieldSlot::Float,
        MetricDataType::Double => FieldSlot::Double,
        MetricDataType::Boolean => FieldSlot::Boolean,
        MetricDataType::String | MetricDataType::Text | MetricDataType::UUID => FieldSlot::Str,
        MetricDataType::Bytes | MetricDataType::File => FieldSlot::Bytes,
        MetricDataType::DataSet => FieldSlot::DataSet,
        MetricDataType::Template => FieldSlot::Template,
    }
}

/// Tags that a property value may carry.
pub open spec fn is_property_tag(t: MetricDataType) -> bool {
    !(t is DataSet || t is Bytes || t is File || t is Template)
}

impl MetricDataType {
    pub fn code(&self) -> (r: u32)
        ensures
            r == code_of(*self),
    {
        match self {
            MetricDataType::Unknown => 0,
            MetricDataType::Int8 => 1,
            MetricDataType::Int16 => 2,
            MetricDataType::Int32 => 3,
            MetricDataType::Int64 => 4,
            MetricDataType::UInt8 => 5,
            MetricDataType::UInt16 => 6,
            MetricDataType::UInt32 => 7,
            MetricDataType::UInt64 => 8,
            MetricDataType::Float => 9,
            MetricDataType::Double => 10,
            MetricDataType::Boolean => 11,
            MetricDataType::String => 12,
            MetricDataType::DateTime => 13,
            MetricDataType::Text => 14,
            MetricDataType::UUID => 15,
            MetricDataType::DataSet => 16,
            MetricDataType::Bytes => 17,
            MetricDataType::File => 18,
            MetricDataType::Template => 19,
        }
    }

    pub fn field_slot_for(&self) -> (r: FieldSlot)
        ensures
            r == slot_of(*self),
    {
        match self {
            MetricDataType::Unknown => FieldSlot::NoValue,
            MetricDataType::Int8 | MetricDataType::Int16 | MetricDataType::Int32
            | MetricDataType::UInt8 | MetricDataType::UInt16 | MetricDataType::UInt32 => FieldSlot::Int,
            MetricDataType::Int64 | MetricDataType::UInt64 | MetricDataType::DateTime => FieldSlot::Long,
            MetricDataType::Float => FieldSlot::Float,
            MetricDataType::Double => FieldSlot::Double,
            MetricDataType::Boolean => FieldSlot::Boolean,
            MetricDataType::String | MetricDataType::Text | MetricDataType::UUID => FieldSlot::Str,
            MetricDataType::Bytes | MetricDataType::File => FieldSlot::Bytes,
            MetricDataType::DataSet => FieldSlot::DataSet,
            MetricDataType::Template => FieldSlot::Template,
        }
    }

    pub fn is_property_type(&self) -> (r: bool)
        ensures
            r == is_property_tag(*self),
    {
        match self {
            MetricDataType::DataSet | MetricDataType::Bytes | MetricDataType::File
            | MetricDataType::Template => false,
            _ => true,
        }
    }
}

/// The name of each type tag.
pub open spec fn name_of(t: MetricDataType) -> Seq<char> {
    match t {
        MetricDataType::Unknown => "Unknown"@,
        MetricDataType::Int8 => "Int8"@,
        MetricDataType::Int16 => "Int16"@,
        MetricDataType::Int32 => "Int32"@,
        MetricDataType::Int64 => "Int64"@,
        MetricDataType::UInt8 => "UInt8"@,
        MetricDataType::UInt16 => "UInt16"@,
        MetricDataType::UInt32 => "UInt32"@,
        MetricDataType::UInt64 => "UInt64"@,
        MetricDataType::Float => "Float"@,
        MetricDataType::Double => "Double"@,
        MetricDataType::Boolean => "Boolean"@,
        MetricDataType::String => "String"@,
        MetricDataType::DateTime => "DateTime"@,
        MetricDataType::Text => "Text"@,
        MetricDataType::UUID => "UUID"@,
        MetricDataType::DataSet => "DataSet"@,
        MetricDataType::Bytes => "Bytes"@,
        MetricDataType::File => "File"@,
        MetricDataType::Template => "Template"@,
    }
}

/// Compares two strings character by character.
fn str_eq(a: &str, b: &str) -> (r: bool)
    ensures
        r == (a@ == b@),
{
    let n = a.unicode_len();
    if n != b.unicode_len() {
        return false;
    }
    let mut i: usize = 0;
    while i < n
        invariant
            n == a@.len(),
            n == b@.len(),
            0 <= i <= n,
            forall|j: int| 0 <= j < i ==> a@[j] == b@[j],
        decreases n - i,
    {
        if a.get_char(i) != b.get_char(i) {
            return false;
        }
        i = i + 1;
    }
    assert(a@ =~= b@);
    true
}

/// The type tag of the given name, if any.
pub fn data_type_from_name(name: &str) -> (r: Option<MetricDataType>)
    ensures
        r matches Some(t) ==> name_of(t) == name@,
        r is None ==> forall|t: MetricDataType| name_of(t) != name@,
{
    if str_eq(name, "Unknown") {
        return Some(MetricDataType::Unknown);
    }
    if str_eq(name, "Int8") {
        return Some(MetricDataType::Int8);
    }
    if str_eq(name, "Int16") {
        return Some(MetricDataType::Int16);
    }
    if str_eq(name, "Int32") {
        return Some(MetricDataType::Int32);
    }
    if str_eq(name, "Int64") {
        return Some(MetricDataType::Int64);
    }
    if str_eq(name, "UInt8") {
        return Some(MetricDataType::UInt8);
    }
    if str_eq(name, "UInt16") {
        return Some(MetricDataType::UInt16);
    }
    if str_eq(name, "UInt32") {
        return Some(MetricDataType::UInt32);
    }
    if str_eq(name, "UInt64") {
        return Some(MetricDataType::UInt64);
    }
    if str_eq(name, "Float") {
        return Some(MetricDataType::Float);
    }
    if str_eq(name, "Double") {
        return Some(MetricDataType::Double);
    }
    if str_eq(name, "Boolean") {
        return Some(MetricDataType::Boolean);
    }
    if str_eq(name, "String") {
        return Some(MetricDataType::String);
    }
    if str_eq(name, "DateTime") {
        return Some(MetricDataType::DateTime);
    }
    if str_eq(name, "Text") {
        return Some(MetricDataType::Text);
    }
    if str_eq(name, "UUID") {
        return Some(MetricDataType::UUID);
    }
    if str_eq(name, "DataSet") {
        return Some(MetricDataType::DataSet);
    }
    if str_eq(name, "Bytes") {
        return Some(MetricDataType::Bytes);
    }
    if str_eq(name, "File") {
        return Some(MetricDataType::File);
    }
    if str_eq(name, "Template") {
        return Some(MetricDataType::Template);
    }
    None
}

impl core::str::FromStr for MetricDataType {
    type Err = ();

    fn from_str(input: &str) -> Result<MetricDataType, ()> {
        match data_type_from_name(input) {
            Some(t) => Ok(t),
            None => Err(()),
        }
    }
}

} // verus!
