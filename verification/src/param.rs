//! Report builder for parameter files: the decoder collaborator parses the
//! buffer into a tagged tree, and the report is the fixed title followed by
//! the tree rendered by the tagged-tree renderer.
//!
//! Entry labels are hash values rendered through the decoder's label map, a
//! process-global table, so nothing is assumed about the decoded tree
//! itself: the composition is verified for every tree the decoder can hand
//! back.
use crate::tagged::{fmt_struct, spec_entries, ScalarKind, TaggedNode};
use vstd::prelude::*;
use vstd::string::StringExecFns;

verus! {

#[verifier::external_type_specification]
#[verifier::external_body]
pub struct ExParamStruct(prc::ParamStruct);

#[verifier::external_type_specification]
#[verifier::external_body]
pub struct ExParamKind(prc::ParamKind);

/// Whether the parameter decoder completes and accepts a buffer; a fact
/// of the bytes alone.
pub uninterp spec fn param_decodes(b: Seq<u8>) -> bool;

/// Relies on prc::read_stream: parses a parameter file from the buffer,
/// `Some` exactly when the parse completes and accepts the bytes (named
/// `param_decodes`). The parse runs on its own scoped thread, because the
/// parser unwraps some reads and indexes its hash table with
/// file-supplied positions: such an abort on malformed bytes is confined
/// to that thread and becomes the `None` outcome. A pathological file
/// whose nested offsets point back at themselves can still exhaust the
/// parse thread's stack — a resource limit of the same kind as running
/// out of memory, not a decode outcome. Labels pass through hash40's
/// process-global label map, so nothing is claimed of the tree itself.
#[verifier::external_body]
fn decode_params(contents: &[u8]) -> (r: Option<Vec<(Option<String>, TaggedNode)>>)
    ensures
        r is Some <==> param_decodes(contents@),
{
    crossbeam_utils::thread::scope(|s| {
        s.spawn(|_| prc::read_stream(&mut std::io::Cursor::new(contents)).ok().map(|p| struct_entries(&p)))
            .join()
            .ok()
            .flatten()
    }).ok().flatten()
}

/// Relies on hash40's display form of each entry's key hash; converts the
/// decoded struct's entries one for one into labeled tagged nodes.
#[verifier::external_body]
fn struct_entries(s: &prc::ParamStruct) -> Vec<(Option<String>, TaggedNode)> {
    s.0.iter().map(|(h, k)| (Some(format!("{}", h)), node_of(k))).collect()
}

/// Converts one decoded parameter into a tagged node, variant for variant.
#[verifier::external_body]
fn node_of(k: &prc::ParamKind) -> TaggedNode {
    match k {
        prc::ParamKind::Struct(s) => TaggedNode::Aggregate(struct_entries(s)),
        prc::ParamKind::List(l) => TaggedNode::List(l.0.iter().map(node_of).collect()),
        other => scalar_int_of(other),
    }
}

/// Converts a decoded integer parameter into a scalar node in its decimal
/// form, variant for variant.
#[verifier::external_body]
fn scalar_int_of(k: &prc::ParamKind) -> TaggedNode {
    match k {
        prc::ParamKind::U8(x) => TaggedNode::Scalar(ScalarKind::U8, format!("{}", x)),
        prc::ParamKind::I8(x) => TaggedNode::Scalar(ScalarKind::I8, format!("{}", x)),
        prc::ParamKind::U16(x) => TaggedNode::Scalar(ScalarKind::U16, format!("{}", x)),
        prc::ParamKind::I16(x) => TaggedNode::Scalar(ScalarKind::I16, format!("{}", x)),
        prc::ParamKind::U32(x) => TaggedNode::Scalar(ScalarKind::U32, format!("{}", x)),
        prc::ParamKind::I32(x) => TaggedNode::Scalar(ScalarKind::I32, format!("{}", x)),
        other => scalar_other_of(other),
    }
}

/// Converts the remaining decoded scalar parameters — floats, booleans,
/// hashes and strings — into scalar nodes in their display form, relying on
/// the display impls of f32, bool and hash40::Hash40.
#[verifier::external_body]
fn scalar_other_of(k: &prc::ParamKind) -> TaggedNode {
    match k {
        prc::ParamKind::Float(x) => TaggedNode::Scalar(ScalarKind::Float, format!("{}", x)),
        prc::ParamKind::Bool(x) => TaggedNode::Scalar(ScalarKind::Bool, format!("{}", x)),
        prc::ParamKind::Hash(x) => TaggedNode::Scalar(ScalarKind::Hash, format!("{}", x)),
        prc::ParamKind::Str(x) => TaggedNode::Scalar(ScalarKind::Str, format!("{}", x)),
        nested => node_of(nested),
    }
}

/// What a parameter file report says: the fixed title, then — when the
/// decoder produced a tree — its entries rendered from depth zero, and
/// nothing at all on decode failure.
pub open spec fn spec_param_report(tree: Option<Vec<(Option<String>, TaggedNode)>>) -> Seq<char> {
    "Smash Ultimate Parameter File\n\n"@ + match tree {
        Some(entries) => spec_entries(entries@, 0, 0),
        None => Seq::empty(),
    }
}

/// Composes the report for a decode outcome: the fixed title, then the
/// rendered tree when one was decoded.
pub fn report_from_entries(tree: &Option<Vec<(Option<String>, TaggedNode)>>) -> (r: String)
    ensures
        r@ == spec_param_report(*tree),
{
    let mut s = "Smash Ultimate Parameter File\n\n".to_owned();
    match tree {
        Some(entries) => {
            let body = fmt_struct(entries, 0);
            s.append(body.as_str());
        },
        None => {},
    }
    assert(s@ =~= spec_param_report(*tree));
    s
}

/// A buffer the decoder rejects yields exactly the fixed fallback report:
/// the bare title, with an empty body.
pub proof fn lemma_param_decode_failure_fallback()
    ensures
        spec_param_report(None) == "Smash Ultimate Parameter File\n\n"@,
{
    assert(spec_param_report(None) =~= "Smash Ultimate Parameter File\n\n"@);
}

/// Builds the parameter file report for a raw buffer: exactly the fixed
/// fallback when the decoder rejects the bytes, and otherwise the decoded
/// tree's report, composed by `report_from_entries`.
pub fn info(contents: &[u8]) -> (r: String)
    ensures
        param_decodes(contents@) ==> exists|e: Vec<(Option<String>, TaggedNode)>| r@
            == spec_param_report(Some(e)),
        !param_decodes(contents@) ==> r@ == spec_param_report(None),
{
    let tree = decode_params(contents);
    let r = report_from_entries(&tree);
    proof {
        if param_decodes(contents@) {
            assert(r@ == spec_param_report(Some(tree->Some_0)));
        }
    }
    r
}

} // verus!
