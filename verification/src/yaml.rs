//! A plain document tree for parsed YAML, and the trusted parsing step.
//!
//! The tree mirrors the parser's own value type with plain fields so that
//! the suite extraction over it can be verified; parsing a text yields a
//! value of this tree through one trusted call.

use vstd::prelude::*;

verus! {

/// One node of a parsed YAML document.
pub enum YamlNode {
    /// A floating-point scalar, kept as its source text.
    Real(String),
    Integer(i64),
    Text(String),
    Boolean(bool),
    Array(Vec<YamlNode>),
    /// A mapping, as key-value pairs in document order.
    Mapping(Vec<(YamlNode, YamlNode)>),
    Alias(usize),
    Null,
    Bad,
}

#[verifier::external_type_specification]
#[verifier::external_body]
pub struct ExYaml(yaml_rust::Yaml);

/// Relies on yaml_rust::Yaml: moves each parsed value into the plain tree,
/// one arm per variant.
#[verifier::external_body]
fn yaml_to_node(y: &yaml_rust::Yaml) -> YamlNode {
    match y {
        yaml_rust::Yaml::Real(s) => YamlNode::Real(s.clone()),
        yaml_rust::Yaml::Integer(i) => YamlNode::Integer(*i),
        yaml_rust::Yaml::String(s) => YamlNode::Text(s.clone()),
        yaml_rust::Yaml::Boolean(b) => YamlNode::Boolean(*b),
        yaml_rust::Yaml::Array(a) => YamlNode::Array(a.iter().map(yaml_to_node).collect()),
        yaml_rust::Yaml::Hash(h) => YamlNode::Mapping(
            h.iter().map(|(k, v)| (yaml_to_node(k), yaml_to_node(v))).collect(),
        ),
        yaml_rust::Yaml::Alias(u) => YamlNode::Alias(*u),
        yaml_rust::Yaml::Null => YamlNode::Null,
        yaml_rust::Yaml::BadValue => YamlNode::Bad,
    }
}

/// The documents that parsing a YAML text yields, or nothing on a scan
/// error; parsing is a function of the text alone.
pub uninterp spec fn yaml_documents(text: Seq<char>) -> Option<Vec<YamlNode>>;

/// Relies on yaml_rust::YamlLoader::load_from_str: deterministic parsing of
/// the text into documents; a scan error yields nothing.
#[verifier::external_body]
pub fn load_documents(text: &str) -> (r: Option<Vec<YamlNode>>)
    ensures
        r == yaml_documents(text@),
{
    match yaml_rust::YamlLoader::load_from_str(text) {
        Ok(docs) => Some(docs.iter().map(yaml_to_node).collect()),
        Err(_) => None,
    }
}

} // verus!
