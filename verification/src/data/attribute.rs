//! Attributes of the request: typed values read from the host's properties,
//! the writes that set them, and the flattening of a service's metadata
//! into attributes.

use crate::data::property::{tokens_of, Path, PropError, PropertyError, Status};
use vstd::bytes::{
    spec_u32_from_le_bytes, spec_u64_from_le_bytes, u32_from_le_bytes, u64_from_le_bytes,
};
use vstd::prelude::*;
use vstd::string::StringExecFns;

verus! {

/// The namespace of the attributes that this filter sets.
pub const KUADRANT_NAMESPACE: &'static str = "kuadrant";

/// A type of value that an attribute's bytes can stand for.
pub trait AttributeValue: Sized {
    /// Whether the bytes stand for a value of the type.
    spec fn parsable(raw: Seq<u8>) -> bool;

    /// Whether `value` is the value that the bytes stand for.
    spec fn is_parse_of(raw: Seq<u8>, value: &Self) -> bool;

    /// The value that the bytes stand for.
    fn parse(raw_attribute: Vec<u8>) -> (result: Result<Self, PropError>)
        ensures
            result is Ok <==> Self::parsable(raw_attribute@),
            result matches Ok(value) ==> Self::is_parse_of(raw_attribute@, &value),
    ;
}

impl AttributeValue for Vec<u8> {
    /// Any bytes stand for themselves.
    open spec fn parsable(raw: Seq<u8>) -> bool {
        true
    }

    open spec fn is_parse_of(raw: Seq<u8>, value: &Self) -> bool {
        value@ == raw
    }

    fn parse(raw_attribute: Vec<u8>) -> (result: Result<Self, PropError>) {
        Ok(raw_attribute)
    }
}

impl AttributeValue for bool {
    /// One byte stands for a truth value.
    open spec fn parsable(raw: Seq<u8>) -> bool {
        raw.len() == 1
    }

    /// Zero stands for `false`, anything else for `true`.
    open spec fn is_parse_of(raw: Seq<u8>, value: &Self) -> bool {
        raw.len() == 1 && *value == (raw[0] != 0)
    }

    fn parse(raw_attribute: Vec<u8>) -> (result: Result<Self, PropError>) {
        if raw_attribute.len() != 1 {
            return Err(PropError::new("Bool value expected to be 1 byte".to_owned()));
        }
        Ok(raw_attribute[0] != 0)
    }
}

impl AttributeValue for u32 {
    /// Four bytes stand for an unsigned number.
    open spec fn parsable(raw: Seq<u8>) -> bool {
        raw.len() == 4
    }

    /// The bytes hold the number with the least significant byte first.
    open spec fn is_parse_of(raw: Seq<u8>, value: &Self) -> bool {
        raw.len() == 4 && *value == spec_u32_from_le_bytes(raw)
    }

    fn parse(raw_attribute: Vec<u8>) -> (result: Result<Self, PropError>) {
        if raw_attribute.len() != 4 {
            return Err(PropError::new("UInt value expected to be 4 bytes".to_owned()));
        }
        Ok(u32_from_le_bytes(raw_attribute.as_slice()))
    }
}

impl AttributeValue for u64 {
    /// Eight bytes stand for an unsigned number.
    open spec fn parsable(raw: Seq<u8>) -> bool {
        raw.len() == 8
    }

    /// The bytes hold the number with the least significant byte first.
    open spec fn is_parse_of(raw: Seq<u8>, value: &Self) -> bool {
        raw.len() == 8 && *value == spec_u64_from_le_bytes(raw)
    }

    fn parse(raw_attribute: Vec<u8>) -> (result: Result<Self, PropError>) {
        if raw_attribute.len() != 8 {
            return Err(PropError::new("UInt value expected to be 8 bytes".to_owned()));
        }
        Ok(u64_from_le_bytes(raw_attribute.as_slice()))
    }
}

impl AttributeValue for i64 {
    /// Eight bytes stand for a signed number.
    open spec fn parsable(raw: Seq<u8>) -> bool {
        raw.len() == 8
    }

    /// The bytes hold the number in two's complement with the least
    /// significant byte first.
    open spec fn is_parse_of(raw: Seq<u8>, value: &Self) -> bool {
        raw.len() == 8 && *value == spec_u64_from_le_bytes(raw) as i64
    }

    fn parse(raw_attribute: Vec<u8>) -> (result: Result<Self, PropError>) {
        if raw_attribute.len() != 8 {
            return Err(PropError::new("Int value expected to be 8 bytes".to_owned()));
        }
        Ok(u64_from_le_bytes(raw_attribute.as_slice()) as i64)
    }
}

/// The message of the error that a failed read of a property gives.
pub open spec fn get_error_message(status: Status) -> Seq<char> {
    "get_attribute: error: "@ + status.spec_name()
}

/// The message of the error that a failed write of a property gives.
pub open spec fn set_error_message(status: Status) -> Seq<char> {
    "set_attribute: error: "@ + status.spec_name()
}

/// The attribute that the host's answer to a read stands for. `found` is
/// what the host answered: the property's bytes, `None` where there is no
/// such property, or the status of a failed read.
///
/// Bytes that stand for a value of the type give that value, and bytes that
/// do not give an error of parsing; no property gives `None`; a failed read
/// gives an error that names the status.
pub fn get_attribute<T: AttributeValue>(found: Result<Option<Vec<u8>>, Status>) -> (attribute:
    Result<Option<T>, PropertyError>)
    ensures
        match found {
            Ok(Some(bytes)) => if T::parsable(bytes@) {
                attribute matches Ok(Some(value)) && T::is_parse_of(bytes@, &value)
            } else {
                attribute matches Err(PropertyError::Parse(_))
            },
            Ok(None) => attribute matches Ok(None),
            Err(status) => attribute matches Err(PropertyError::Get(error)) && error@
                == get_error_message(status),
        },
{
    match found {
        Ok(Some(attribute_bytes)) => match T::parse(attribute_bytes) {
            Ok(value) => Ok(Some(value)),
            Err(error) => Err(PropertyError::Parse(error)),
        },
        Ok(None) => Ok(None),
        Err(e) => Err(
            PropertyError::Get(
                PropError::new(String::from_str("get_attribute: error: ").concat(e.name())),
            ),
        ),
    }
}

/// A write of a property that the host is to make.
#[derive(Debug)]
pub struct PropertyWrite {
    /// The property to set.
    pub path: Path,
    /// The bytes to set it to.
    pub value: Vec<u8>,
}

/// The write that sets the attribute named `attr` to `value`.
pub fn set_attribute(attr: &str, value: &[u8]) -> (write: PropertyWrite)
    ensures
        write.path@ == tokens_of(attr@),
        write.value@ == value@,
{
    let mut bytes: Vec<u8> = Vec::new();
    let mut i: usize = 0;
    while i < value.len()
        invariant
            i <= value.len(),
            bytes@ == value@.subrange(0, i as int),
        decreases value.len() - i,
    {
        bytes.push(value[i]);
        i += 1;
        assert(bytes@ =~= value@.subrange(0, i as int));
    }
    assert(value@.subrange(0, i as int) =~= value@);
    PropertyWrite { path: Path::parse(attr), value: bytes }
}

/// What the host's answer to a write amounts to: a failed write gives an
/// error that names the status.
pub fn set_attribute_result(outcome: Result<(), Status>) -> (result: Result<(), PropertyError>)
    ensures
        match outcome {
            Ok(_) => result is Ok,
            Err(status) => result matches Err(PropertyError::Get(error)) && error@
                == set_error_message(status),
        },
{
    match outcome {
        Ok(_) => Ok(()),
        Err(e) => Err(
            PropertyError::Get(
                PropError::new(String::from_str("set_attribute: error: ").concat(e.name())),
            ),
        ),
    }
}

/// A value of a service's metadata whose JSON text `serde_json` renders.
#[derive(Debug)]
pub enum Scalar {
    Null,
    Bool(bool),
    String(String),
}

/// A scalar as contracts see it.
pub enum ScalarView {
    Null,
    Bool(bool),
    String(Seq<char>),
}

impl View for Scalar {
    type V = ScalarView;

    open spec fn view(&self) -> ScalarView {
        match self {
            Scalar::Null => ScalarView::Null,
            Scalar::Bool(value) => ScalarView::Bool(*value),
            Scalar::String(text) => ScalarView::String(text@),
        }
    }
}

/// A value of a service's metadata.
#[derive(Debug)]
pub enum MetadataValue {
    Scalar(Scalar),
    /// A number, as the JSON text that stands for it.
    Number(String),
    /// Fields of their own, stored under the path of this value.
    Struct(MetadataStruct),
    /// A value of a kind that is not stored.
    Unstored,
}

/// A value of the metadata that is stored.
#[derive(Debug)]
pub enum Leaf {
    Scalar(Scalar),
    /// A number, as the JSON text that stands for it.
    Number(String),
}

/// A stored value as contracts see it.
pub enum LeafView {
    Scalar(ScalarView),
    Number(Seq<char>),
}

impl View for Leaf {
    type V = LeafView;

    open spec fn view(&self) -> LeafView {
        match self {
            Leaf::Scalar(scalar) => LeafView::Scalar(scalar@),
            Leaf::Number(text) => LeafView::Number(text@),
        }
    }
}

/// The fields of a service's metadata, in the order in which they are
/// stored.
#[derive(Debug)]
pub struct MetadataStruct {
    pub fields: Vec<(String, MetadataValue)>,
}

/// A stored value of the metadata under the path of its key.
pub type Entry = (Seq<char>, LeafView);

/// The path of the field `key` under `prefix`: the key alone at the top,
/// and else the prefix, an escaped dot and the key.
pub open spec fn key_path(prefix: Seq<char>, key: Seq<char>) -> Seq<char> {
    if prefix.len() == 0 {
        key
    } else {
        prefix + seq!['\\', '.'] + key
    }
}

/// The stored values of a value at `path`, with their paths: the value
/// itself where it is a scalar or a number, those of its fields where it
/// has fields, none where it is of a kind that is not stored.
pub open spec fn flattened_value(path: Seq<char>, value: MetadataValue) -> Seq<Entry>
    decreases value, 0int,
{
    match value {
        MetadataValue::Scalar(scalar) => seq![(path, LeafView::Scalar(scalar@))],
        MetadataValue::Number(text) => seq![(path, LeafView::Number(text@))],
        MetadataValue::Struct(nested) => flattened_fields(
            nested.fields@,
            path,
            nested.fields@.len() as int,
        ),
        MetadataValue::Unstored => Seq::empty(),
    }
}

/// The stored values of the first `upto` fields, with their paths under
/// `prefix`, in the order of the fields.
pub open spec fn flattened_fields(
    fields: Seq<(String, MetadataValue)>,
    prefix: Seq<char>,
    upto: int,
) -> Seq<Entry>
    decreases fields, upto,
{
    if upto <= 0 || upto > fields.len() {
        Seq::empty()
    } else {
        flattened_fields(fields, prefix, upto - 1) + flattened_value(
            key_path(prefix, fields[upto - 1].0@),
            fields[upto - 1].1,
        )
    }
}

/// The stored values of the metadata, with their paths under `prefix`.
pub open spec fn flattened(metadata: MetadataStruct, prefix: Seq<char>) -> Seq<Entry> {
    flattened_fields(metadata.fields@, prefix, metadata.fields@.len() as int)
}

/// The views of a list of entries.
pub open spec fn entries_view(entries: Seq<(String, Leaf)>) -> Seq<Entry> {
    entries.map_values(|entry: (String, Leaf)| (entry.0@, entry.1@))
}

/// The path of the field `key` under `prefix`.
pub fn field_path(prefix: &String, key: &String) -> (path: String)
    ensures
        path@ == key_path(prefix@, key@),
{
    if prefix.as_str().unicode_len() == 0 {
        key.clone()
    } else {
        proof {
            reveal_strlit("\\.");
        }
        let path = prefix.clone().concat("\\.").concat(key.as_str());
        assert(path@ =~= prefix@ + seq!['\\', '.'] + key@);
        path
    }
}

/// A copy of the scalar.
pub fn copy_scalar(scalar: &Scalar) -> (copy: Scalar)
    ensures
        copy@ == scalar@,
{
    match scalar {
        Scalar::Null => Scalar::Null,
        Scalar::Bool(value) => Scalar::Bool(*value),
        Scalar::String(text) => Scalar::String(text.clone()),
    }
}

/// The stored values of the metadata, with their paths under `prefix`, in
/// the order of the fields.
pub fn metadata_entries(s: &MetadataStruct, prefix: String) -> (entries: Vec<(String, Leaf)>)
    ensures
        entries_view(entries@) == flattened(*s, prefix@),
    decreases s,
{
    let mut result: Vec<(String, Leaf)> = Vec::new();
    let mut i: usize = 0;
    assert(entries_view(result@) =~= Seq::empty());
    while i < s.fields.len()
        invariant
            i <= s.fields.len(),
            entries_view(result@) == flattened_fields(s.fields@, prefix@, i as int),
        decreases s.fields.len() - i,
    {
        let ghost before = entries_view(result@);
        let key = &s.fields[i].0;
        let value = &s.fields[i].1;
        let current_prefix = field_path(&prefix, key);
        let ghost here = flattened_value(current_prefix@, *value);
        assert(flattened_fields(s.fields@, prefix@, i + 1) == flattened_fields(
            s.fields@,
            prefix@,
            i as int,
        ) + here);
        match value {
            MetadataValue::Scalar(scalar) => {
                result.push((current_prefix, Leaf::Scalar(copy_scalar(scalar))));
                assert(here =~= seq![(current_prefix@, LeafView::Scalar(scalar@))]);
                assert(entries_view(result@) =~= before + here);
            },
            MetadataValue::Number(text) => {
                result.push((current_prefix, Leaf::Number(text.clone())));
                assert(here =~= seq![(current_prefix@, LeafView::Number(text@))]);
                assert(entries_view(result@) =~= before + here);
            },
            MetadataValue::Struct(nested_struct) => {
                assert(decreases_to!(s => nested_struct)) by {
                    broadcast use vstd::std_specs::vec::axiom_vec_index_decreases;
                    assert(decreases_to!(s => s.fields));
                    assert(decreases_to!(s.fields => s.fields[i as int]));
                    assert(decreases_to!(s.fields[i as int] => s.fields[i as int].1));
                    assert(decreases_to!(s.fields[i as int].1 => nested_struct));
                }
                let mut nested = metadata_entries(nested_struct, current_prefix);
                let ghost added = entries_view(nested@);
                result.append(&mut nested);
                assert(here == flattened(*nested_struct, current_prefix@));
                assert(entries_view(result@) =~= before + here);
            },
            MetadataValue::Unstored => {
                assert(here =~= Seq::empty());
                assert(entries_view(result@) =~= before + here);
            },
        }
        i += 1;
    }
    result
}

/// The JSON text that stands for a string, as `serde_json` renders it.
pub uninterp spec fn json_string(text: Seq<char>) -> Seq<char>;

/// The JSON text that stands for a stored value.
pub open spec fn json_of(leaf: LeafView) -> Seq<char> {
    match leaf {
        LeafView::Scalar(ScalarView::Null) => "null"@,
        LeafView::Scalar(ScalarView::Bool(true)) => "true"@,
        LeafView::Scalar(ScalarView::Bool(false)) => "false"@,
        LeafView::Scalar(ScalarView::String(text)) => json_string(text),
        LeafView::Number(text) => text,
    }
}

/// `serde_json::to_string` on the JSON value that the scalar stands for.
/// Where it gives a text, the text is `null` for the null value, `true` or
/// `false` for a truth value, and for a string what `serde_json` renders
/// it as. Nothing is claimed of when it gives one.
#[verifier::external_body]
fn to_json(scalar: &Scalar) -> (json: Option<String>)
    ensures
        json matches Some(text) ==> text@ == match scalar {
            Scalar::Null => "null"@,
            Scalar::Bool(true) => "true"@,
            Scalar::Bool(false) => "false"@,
            Scalar::String(string) => json_string(string@),
        },
{
    let value = match scalar {
        Scalar::Null => serde_json::Value::Null,
        Scalar::Bool(value) => serde_json::Value::Bool(*value),
        Scalar::String(text) => serde_json::Value::String(text.clone()),
    };
    serde_json::to_string(&value).ok()
}

/// Whether `rendered` is what rendering the entries can give: in the order
/// of the entries, each entry's path with the JSON text of its value; an
/// entry whose rendering failed is left out, which a number never is.
pub open spec fn is_rendering(rendered: Seq<(Seq<char>, Seq<char>)>, entries: Seq<Entry>) -> bool
    decreases entries.len(),
{
    if entries.len() == 0 {
        rendered.len() == 0
    } else {
        let last = entries.last();
        ||| rendered.len() > 0 && rendered.last() == (last.0, json_of(last.1)) && is_rendering(
            rendered.drop_last(),
            entries.drop_last(),
        )
        ||| !(last.1 is Number) && is_rendering(rendered, entries.drop_last())
    }
}

/// Takes an entry's rendering into the list: the path with the text where
/// there is a text, nothing where the rendering failed.
pub fn keep_rendered(result: &mut Vec<(String, String)>, path: String, rendered: Option<String>)
    ensures
        final(result).deep_view() == match rendered {
            Some(text) => old(result).deep_view().push((path@, text@)),
            None => old(result).deep_view(),
        },
{
    let ghost before = result.deep_view();
    match rendered {
        Some(ser) => {
            result.push((path, ser));
            assert(result.deep_view() =~= before.push((path@, ser@)));
        },
        None => {},
    }
}

/// The attributes that the metadata gives: the path of each stored value,
/// under `prefix`, with the JSON text of the value, in the order of the
/// fields.
pub fn process_metadata(s: &MetadataStruct, prefix: String) -> (result: Vec<(String, String)>)
    ensures
        is_rendering(result.deep_view(), flattened(*s, prefix@)),
{
    let entries = metadata_entries(s, prefix);
    let ghost all = entries_view(entries@);
    let mut result: Vec<(String, String)> = Vec::new();
    let mut i: usize = 0;
    assert(all.subrange(0, 0) =~= Seq::empty());
    while i < entries.len()
        invariant
            i <= entries.len(),
            all == entries_view(entries@),
            is_rendering(result.deep_view(), all.subrange(0, i as int)),
        decreases entries.len() - i,
    {
        let ghost before = result.deep_view();
        let path = entries[i].0.clone();
        let json = match &entries[i].1 {
            Leaf::Number(text) => Some(text.clone()),
            Leaf::Scalar(scalar) => to_json(scalar),
        };
        keep_rendered(&mut result, path, json);
        proof {
            let upto = all.subrange(0, i + 1);
            assert(upto.drop_last() =~= all.subrange(0, i as int));
            assert(upto.last() == (entries[i as int].0@, entries[i as int].1@));
            if json is Some {
                assert(result.deep_view().drop_last() =~= before);
            }
        }
        i += 1;
    }
    assert(all.subrange(0, i as int) =~= all);
    result
}

/// The name of the attribute that stores the metadata under `path`.
pub open spec fn attribute_name(path: Seq<char>) -> Seq<char> {
    KUADRANT_NAMESPACE@ + "\\.auth\\."@ + path
}

/// The writes that store rendered metadata: one per entry, in order, to the
/// attribute named after the entry's path, of the bytes of its text.
pub open spec fn writes_of(rendered: Seq<(Seq<char>, Seq<char>)>) -> Seq<
    (Seq<Seq<char>>, Seq<u8>),
> {
    rendered.map_values(
        |entry: (Seq<char>, Seq<char>)|
            (tokens_of(attribute_name(entry.0)), vstd::utf8::encode_utf8(entry.1)),
    )
}

/// The views of a list of writes.
pub open spec fn writes_view(writes: Seq<PropertyWrite>) -> Seq<(Seq<Seq<char>>, Seq<u8>)> {
    writes.map_values(|write: PropertyWrite| (write.path@, write.value@))
}

/// The writes that store rendered metadata.
pub fn metadata_writes(metadata: &Vec<(String, String)>) -> (writes: Vec<PropertyWrite>)
    ensures
        writes_view(writes@) == writes_of(metadata.deep_view()),
{
    let mut writes: Vec<PropertyWrite> = Vec::new();
    let mut i: usize = 0;
    while i < metadata.len()
        invariant
            i <= metadata.len(),
            writes.len() == i,
            forall|j: int|
                0 <= j < i ==> (#[trigger] writes[j]).path@ == tokens_of(
                    attribute_name(metadata[j].0@),
                ) && writes[j].value@ == vstd::utf8::encode_utf8(metadata[j].1@),
        decreases metadata.len() - i,
    {
        let attr = String::from_str(KUADRANT_NAMESPACE).concat("\\.auth\\.").concat(
            metadata[i].0.as_str(),
        );
        writes.push(set_attribute(attr.as_str(), metadata[i].1.as_str().as_bytes()));
        i += 1;
    }
    assert(writes_view(writes@) =~= writes_of(metadata.deep_view()));
    writes
}

/// The writes that store a service's metadata as attributes of the
/// request, in the order in which the host is to make them. The host stops
/// at the first write that fails.
pub fn store_metadata(metastruct: &MetadataStruct) -> (writes: Vec<PropertyWrite>)
    ensures
        exists|rendered: Seq<(Seq<char>, Seq<char>)>|
            is_rendering(rendered, flattened(*metastruct, Seq::empty())) && writes_view(writes@)
                == writes_of(rendered),
{
    let metadata = process_metadata(metastruct, String::new());
    metadata_writes(&metadata)
}

} // verus!
