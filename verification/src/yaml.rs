//! The YAML documents that hold file-based settings, as `saphyr` loads them.
//!
//! Nothing in this file is proved. A node is opaque to the verifier: what the
//! library reads from one is given a name here, one for each `saphyr` function
//! that it calls, and the contracts elsewhere speak of those names.

use crate::text::slice_text_of;
use saphyr::LoadableYamlNode;
use saphyr::ScanError;
use saphyr::Yaml;
use vstd::prelude::*;

verus! {

/// `saphyr::Yaml`: a node of a YAML document, carried as an opaque value.
#[verifier::external_type_specification]
#[verifier::external_body]
pub struct ExYaml<'a>(Yaml<'a>);

/// `saphyr::ScanError`: why a text is not well-formed YAML, carried as an
/// opaque value.
#[verifier::external_type_specification]
#[verifier::external_body]
pub struct ExScanError(ScanError);

/// The documents that a text parses to, or `None` where it is not well-formed
/// YAML.
pub uninterp spec fn parsed_documents(content: Seq<char>) -> Option<Seq<Yaml<'static>>>;

/// Whether a node is a mapping.
pub uninterp spec fn node_is_mapping(node: Yaml<'static>) -> bool;

/// Whether a node is a mapping that has the string `key` among its keys.
pub uninterp spec fn node_has_key(node: Yaml<'static>, key: Seq<char>) -> bool;

/// The node that a mapping holds under the string `key`.
pub uninterp spec fn node_child(node: Yaml<'static>, key: Seq<char>) -> Yaml<'static>;

/// The text of a node that is a string scalar, `None` for any other node.
pub uninterp spec fn node_as_text(node: Yaml<'static>) -> Option<Seq<char>>;

/// The value of a node that is a boolean scalar, `None` for any other node.
pub uninterp spec fn node_as_flag(node: Yaml<'static>) -> Option<bool>;

/// `Yaml::load_from_str`: all the documents of a text, in order, or the first
/// error met while scanning it.
#[verifier::external_body]
pub(crate) fn load_from_str(content: &str) -> (r: Result<Vec<Yaml<'static>>, ScanError>)
    ensures
        match r {
            Ok(docs) => parsed_documents(content@) == Some(docs@),
            Err(_) => parsed_documents(content@) is None,
        },
{
    Yaml::load_from_str(content)
}

/// `Yaml::is_mapping`: whether the node is of the mapping variant.
#[verifier::external_body]
pub(crate) fn is_mapping(node: &Yaml<'static>) -> (b: bool)
    ensures
        b == node_is_mapping(*node),
{
    node.is_mapping()
}

/// `Yaml::contains_mapping_key`: whether the node is a mapping with the
/// string `key` among its keys.
#[verifier::external_body]
pub(crate) fn contains_mapping_key(node: &Yaml<'static>, key: &str) -> (b: bool)
    ensures
        b == node_has_key(*node, key@),
{
    node.contains_mapping_key(key)
}

/// `Index<&str>` of `Yaml`: the node held under `key`. The outside code
/// panics where the node is no mapping or lacks the key, which `requires`
/// leaves out.
#[verifier::external_body]
pub(crate) fn child<'a>(node: &'a Yaml<'static>, key: &str) -> (r: &'a Yaml<'static>)
    requires
        node_has_key(*node, key@),
    ensures
        *r == node_child(*node, key@),
{
    &node[key]
}

/// `Yaml::as_str`: the text of a string scalar.
#[verifier::external_body]
pub(crate) fn as_str<'a>(node: &'a Yaml<'static>) -> (r: Option<&'a str>)
    ensures
        slice_text_of(r) == node_as_text(*node),
{
    node.as_str()
}

/// `Yaml::as_bool`: the value of a boolean scalar.
#[verifier::external_body]
pub(crate) fn as_bool(node: &Yaml<'static>) -> (r: Option<bool>)
    ensures
        r == node_as_flag(*node),
{
    node.as_bool()
}

} // verus!
