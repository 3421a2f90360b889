//! Parsing YAML text into the generic document model.
//!
//! The parser itself is an outside collaborator; the library only
//! carries its generic value over into [`Doc`], one variant for one
//! variant, and reports its diagnostic on failure.  What tree a given
//! text parses to is a function of the text alone, so the result is
//! named ([`yaml_tree_of`]) rather than written out, and the contracts
//! downstream speak of that name.

use vstd::prelude::*;
use crate::doc::{Doc, DocV};

verus! {

/// A document whose bytes do not parse as structured data.  Carries the
/// parser's diagnostic; distinguishable from every other failure.
#[derive(Debug, Clone, PartialEq, Eq)]
pub struct ParseError {
    pub message: String,
}

#[verifier::external_type_specification]
#[verifier::external_body]
pub struct ExYamlValue(serde_yaml::Value);

#[verifier::external_type_specification]
#[verifier::external_body]
pub struct ExYamlError(serde_yaml::Error);

/// The tree that YAML text `s` parses to, or nothing where the text
/// does not parse.  Which tree that is takes the whole YAML grammar to
/// state, so it only has a name; it depends on the text alone.
pub uninterp spec fn yaml_tree_of(s: Seq<char>) -> Option<DocV>;

/// Relies on serde_yaml::Value: the variants are told apart one arm
/// each; strings, sequence elements and mapping entries move over as
/// they are, every other variant becomes `Doc::Other`.
#[verifier::external_body]
fn value_to_doc(v: serde_yaml::Value) -> Doc {
    match v {
        serde_yaml::Value::String(s) => Doc::Text(s),
        serde_yaml::Value::Sequence(items) => Doc::List(
            items.into_iter().map(value_to_doc).collect(),
        ),
        serde_yaml::Value::Mapping(entries) => Doc::Mapping(
            entries.into_iter().map(|(k, w)| (value_to_doc(k), value_to_doc(w))).collect(),
        ),
        _ => Doc::Other,
    }
}

/// Relies on serde_yaml::from_str: parses YAML text into a generic
/// value — deterministically, from the text alone — or reports why the
/// text does not parse.  The value is carried over into `Doc` by
/// `value_to_doc`.
#[verifier::external_body]
fn parse_yaml(s: &str) -> (r: Result<Doc, serde_yaml::Error>)
    ensures
        match r {
            Ok(d) => yaml_tree_of(s@) == Some(d@),
            Err(_) => yaml_tree_of(s@) is None,
        },
{
    serde_yaml::from_str::<serde_yaml::Value>(s).map(value_to_doc)
}

/// Relies on the `Display` impl of serde_yaml::Error: renders the
/// parser's diagnostic as text.
#[verifier::external_body]
fn yaml_error_message(e: &serde_yaml::Error) -> String {
    format!("{}", e)
}

/// Parses YAML text into the generic document model: returns the tree
/// the text parses to, and fails — with the parser's diagnostic, as a
/// distinguishable error — exactly when the text does not parse.  The
/// interpreter downstream is total, so a parsed document never fails
/// later.
pub fn parse_document(s: &str) -> (r: Result<Doc, ParseError>)
    ensures
        match r {
            Ok(d) => yaml_tree_of(s@) == Some(d@),
            Err(_) => yaml_tree_of(s@) is None,
        },
{
    match parse_yaml(s) {
        Ok(d) => Ok(d),
        Err(e) => Err(ParseError { message: yaml_error_message(&e) }),
    }
}

} // verus!
