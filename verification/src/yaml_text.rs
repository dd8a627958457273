//! YAML text: reading a document into a `YamlValue` and writing one out,
//! both with serde_yaml. The library's own tree and serde_yaml's are
//! converted into each other one level at a time.
use vstd::prelude::*;
use crate::yaml::{YamlValue, YamlView};

verus! {

/// serde_yaml's document tree, carried through opaquely.
#[verifier::external_type_specification]
#[verifier::external_body]
pub struct ExSerdeValue(serde_yaml::Value);

/// serde_yaml's number, carried through opaquely.
#[verifier::external_type_specification]
#[verifier::external_body]
pub struct ExSerdeNumber(serde_yaml::Number);

/// serde_yaml's mapping, carried through opaquely.
#[verifier::external_type_specification]
#[verifier::external_body]
pub struct ExSerdeMapping(serde_yaml::Mapping);

/// serde_yaml's tagged value, carried through opaquely.
#[verifier::external_type_specification]
#[verifier::external_body]
pub struct ExSerdeTagged(serde_yaml::value::TaggedValue);

/// One level of a serde_yaml value: its variant, with what it holds.
pub enum SerdeNode {
    Null,
    Bool(bool),
    Number(serde_yaml::Number),
    Str(String),
    List(Vec<serde_yaml::Value>),
    Mapping(serde_yaml::Mapping),
    Tagged(Box<serde_yaml::value::TaggedValue>),
}

/// The variant of a serde_yaml `Value` and its contents, moved out.
#[verifier::external_body]
fn split_value(v: serde_yaml::Value) -> SerdeNode {
    match v {
        serde_yaml::Value::Null => SerdeNode::Null,
        serde_yaml::Value::Bool(b) => SerdeNode::Bool(b),
        serde_yaml::Value::Number(n) => SerdeNode::Number(n),
        serde_yaml::Value::String(s) => SerdeNode::Str(s),
        serde_yaml::Value::Sequence(s) => SerdeNode::List(s),
        serde_yaml::Value::Mapping(m) => SerdeNode::Mapping(m),
        serde_yaml::Value::Tagged(t) => SerdeNode::Tagged(t),
    }
}

/// The serde_yaml `Value` of the given variant, with the contents moved in.
#[verifier::external_body]
fn join_value(n: SerdeNode) -> serde_yaml::Value {
    match n {
        SerdeNode::Null => serde_yaml::Value::Null,
        SerdeNode::Bool(b) => serde_yaml::Value::Bool(b),
        SerdeNode::Number(n) => serde_yaml::Value::Number(n),
        SerdeNode::Str(s) => serde_yaml::Value::String(s),
        SerdeNode::List(s) => serde_yaml::Value::Sequence(s),
        SerdeNode::Mapping(m) => serde_yaml::Value::Mapping(m),
        SerdeNode::Tagged(t) => serde_yaml::Value::Tagged(t),
    }
}

/// serde_yaml's text for a number (its `Display`).
#[verifier::external_body]
fn number_text(n: &serde_yaml::Number) -> String {
    n.to_string()
}

/// serde_yaml's number for a text (its `FromStr`); `None` when the text is
/// no number.
#[verifier::external_body]
fn parse_number(s: &str) -> Option<serde_yaml::Number> {
    s.parse::<serde_yaml::Number>().ok()
}

/// The entries of a serde_yaml mapping, in its order (`IntoIterator`).
#[verifier::external_body]
fn mapping_pairs(m: serde_yaml::Mapping) -> Vec<(serde_yaml::Value, serde_yaml::Value)> {
    m.into_iter().collect()
}

/// A serde_yaml mapping of these entries (`FromIterator`).
#[verifier::external_body]
fn mapping_of_pairs(p: Vec<(serde_yaml::Value, serde_yaml::Value)>) -> serde_yaml::Mapping {
    p.into_iter().collect()
}

/// The tag, as serde_yaml writes it (`!` first), and the value of a tagged
/// value.
#[verifier::external_body]
fn tagged_parts(t: Box<serde_yaml::value::TaggedValue>) -> (String, serde_yaml::Value) {
    let t = *t;
    (t.tag.to_string(), t.value)
}

/// A tagged value with this tag (`Tag::new`, which refuses an empty tag).
#[verifier::external_body]
fn tagged_of_parts(tag: String, v: serde_yaml::Value) -> Box<serde_yaml::value::TaggedValue>
    requires
        tag@.len() > 0,
{
    Box::new(serde_yaml::value::TaggedValue { tag: serde_yaml::value::Tag::new(tag), value: v })
}

/// How deep a tree is converted. serde_yaml refuses documents nested more
/// than 128 levels deep, so a parsed document never reaches it.
pub const CONVERT_DEPTH: u32 = 1024;

/// The library's tree for a serde_yaml value, `depth` levels deep; below
/// that, `Null`.
fn yaml_of(v: serde_yaml::Value, depth: u32) -> YamlValue
    decreases depth, 1nat,
{
    if depth == 0 {
        YamlValue::Null
    } else {
        yaml_of_node(split_value(v), depth)
    }
}

/// The library's tree for one level of a serde_yaml value: null, booleans
/// and strings keep their value, a number stays a number, a list keeps its
/// length, a mapping stays a mapping and a tag stays a tag.
fn yaml_of_node(n: SerdeNode, depth: u32) -> (r: YamlValue)
    requires
        depth > 0,
    ensures
        n is Null ==> r is Null,
        n matches SerdeNode::Bool(b) ==> r == YamlValue::Bool(b),
        n matches SerdeNode::Str(s) ==> r == YamlValue::Str(s),
        n is Number ==> r is Number,
        n matches SerdeNode::List(items) ==> (r matches YamlValue::List(out) && out.len() == items.len()),
        n is Mapping ==> r is Mapping,
        n is Tagged ==> r is Tagged,
    decreases depth, 0nat,
{
    match n {
        SerdeNode::Null => YamlValue::Null,
        SerdeNode::Bool(b) => YamlValue::Bool(b),
        SerdeNode::Number(n) => YamlValue::Number(number_text(&n)),
        SerdeNode::Str(s) => YamlValue::Str(s),
        SerdeNode::List(items) => {
            let ghost total = items.len();
            let mut items = items;
            let mut out: Vec<YamlValue> = Vec::new();
            while items.len() > 0
                invariant
                    depth > 0,
                    out.len() + items.len() == total,
                decreases items.len(),
            {
                let x = items.pop().unwrap();
                out.insert(0, yaml_of(x, depth - 1));
            }
            YamlValue::List(out)
        },
        SerdeNode::Mapping(m) => {
            let mut pairs = mapping_pairs(m);
            let mut out: Vec<(YamlValue, YamlValue)> = Vec::new();
            while pairs.len() > 0
                invariant
                    depth > 0,
                decreases pairs.len(),
            {
                let (k, x) = pairs.pop().unwrap();
                out.insert(0, (yaml_of(k, depth - 1), yaml_of(x, depth - 1)));
            }
            YamlValue::Mapping(out)
        },
        SerdeNode::Tagged(t) => {
            let (tag, inner) = tagged_parts(t);
            YamlValue::Tagged(tag, Box::new(yaml_of(inner, depth - 1)))
        },
    }
}

/// The library's tree for a parsed serde_yaml document.
fn yaml_from_serde(v: serde_yaml::Value) -> YamlValue {
    yaml_of(v, CONVERT_DEPTH)
}

/// serde_yaml's tree for a library tree.
fn serde_of(v: &YamlValue) -> serde_yaml::Value
    decreases v, 1nat,
{
    join_value(serde_node_of(v))
}

/// One level of serde_yaml's tree for a library tree: null, booleans and
/// strings keep their value, a number whose text serde_yaml reads as a
/// number stays a number and any other becomes that text as a string, a
/// list keeps its length, a mapping stays a mapping, and a tag stays a tag;
/// an empty tag, which serde_yaml cannot hold, is left off.
#[verifier::loop_isolation(false)]
fn serde_node_of(v: &YamlValue) -> (r: SerdeNode)
    ensures
        *v is Null ==> r is Null,
        *v matches YamlValue::Bool(b) ==> r == SerdeNode::Bool(b),
        *v matches YamlValue::Str(s) ==> (r matches SerdeNode::Str(t) && t@ == s@),
        *v matches YamlValue::Number(s) ==> (r is Number || (r matches SerdeNode::Str(t) && t@ == s@)),
        *v matches YamlValue::List(items) ==> (r matches SerdeNode::List(out) && out.len() == items.len()),
        *v is Mapping ==> r is Mapping,
        *v matches YamlValue::Tagged(t, _) ==> (t@.len() > 0 ==> r is Tagged),
    decreases v, 0nat,
{
    match v {
        YamlValue::Null => SerdeNode::Null,
        YamlValue::Bool(b) => SerdeNode::Bool(*b),
        YamlValue::Number(s) => match parse_number(s.as_str()) {
            Some(n) => SerdeNode::Number(n),
            None => SerdeNode::Str(s.clone()),
        },
        YamlValue::Str(s) => SerdeNode::Str(s.clone()),
        YamlValue::List(items) => {
            let mut out: Vec<serde_yaml::Value> = Vec::new();
            let mut i: usize = 0;
            while i < items.len()
                invariant
                    i <= items.len(),
                    out.len() == i,
                decreases items.len() - i,
            {
                proof {
                    assert(decreases_to!(*v => *items));
                    assert(decreases_to!(*items => items@));
                    assert(decreases_to!(items@ => items@[i as int]));
                }
                out.push(serde_of(&items[i]));
                i = i + 1;
            }
            SerdeNode::List(out)
        },
        YamlValue::Mapping(e) => {
            let mut out: Vec<(serde_yaml::Value, serde_yaml::Value)> = Vec::new();
            let mut i: usize = 0;
            while i < e.len()
                decreases e.len() - i,
            {
                proof {
                    assert(decreases_to!(*v => *e));
                    assert(decreases_to!(*e => e@));
                    assert(decreases_to!(e@ => e@[i as int]));
                    assert(decreases_to!(e@[i as int] => e@[i as int].0));
                    assert(decreases_to!(e@[i as int] => e@[i as int].1));
                }
                let k = serde_of(&e[i].0);
                let x = serde_of(&e[i].1);
                out.push((k, x));
                i = i + 1;
            }
            SerdeNode::Mapping(mapping_of_pairs(out))
        },
        YamlValue::Tagged(t, inner) => {
            if t.as_str().is_empty() {
                serde_node_of(inner)
            } else {
                SerdeNode::Tagged(tagged_of_parts(t.clone(), serde_of(inner)))
            }
        },
    }
}

/// What serde_yaml reads from a text, as the library's tree, or its error
/// message.
pub uninterp spec fn yaml_parse(text: Seq<char>) -> Result<YamlView, Seq<char>>;

/// What serde_yaml writes for the library's tree, or its error message.
pub uninterp spec fn yaml_emit(v: YamlView) -> Result<Seq<char>, Seq<char>>;

/// Reads YAML text with `serde_yaml::from_str` into serde_yaml's `Value`,
/// converted to the library's tree; an error is its message. The contract
/// claims only that the outcome is determined by the text.
#[verifier::external_body]
pub(crate) fn parse_yaml(text: &str) -> (r: Result<YamlValue, String>)
    ensures
        match r {
            Ok(v) => yaml_parse(text@) == Ok::<YamlView, Seq<char>>(v@),
            Err(e) => yaml_parse(text@) == Err::<YamlView, Seq<char>>(e@),
        },
{
    serde_yaml::from_str::<serde_yaml::Value>(text).map(yaml_from_serde).map_err(|e| e.to_string())
}

/// Writes the library's tree, converted to serde_yaml's `Value`, with
/// `serde_yaml::to_string`; an error is its message. The contract claims
/// only that the outcome is determined by the tree.
#[verifier::external_body]
pub(crate) fn emit_yaml(v: &YamlValue) -> (r: Result<String, String>)
    ensures
        match r {
            Ok(s) => yaml_emit(v@) == Ok::<Seq<char>, Seq<char>>(s@),
            Err(e) => yaml_emit(v@) == Err::<Seq<char>, Seq<char>>(e@),
        },
{
    serde_yaml::to_string(&serde_of(v)).map_err(|e| e.to_string())
}

} // verus!
