//! The tagged-tree renderer: turns an already-decoded tree of named or
//! indexed values into an indented textual block.
//!
//! Every line is `indent` repetitions of four spaces, a `"- "` marker, the
//! entry's label followed by `":"` (or nothing when it has none), and — for
//! scalars — a space and the scalar's textual value. Aggregate entries keep
//! their stored order; list items are indexed, and only items that are
//! themselves aggregates or lists receive their position as a synthetic
//! label.
use crate::text::{indent_string, spec_digits, spec_indent, usize_string};
use vstd::prelude::*;
use vstd::string::StringExecFns;

verus! {

/// The primitive kinds a decoded scalar can have. The scalar's value is
/// carried in its final textual representation for that kind, so rendering
/// a scalar never fails and never re-interprets the value.
#[derive(Clone, Copy, Debug, PartialEq, Eq, Structural)]
pub enum ScalarKind {
    U8,
    I8,
    U16,
    I16,
    U32,
    I32,
    Float,
    Bool,
    Hash,
    Str,
}

/// A decoded tagged-tree value: a scalar leaf, a struct-like aggregate of
/// optionally labeled children in stored order, or a positionally indexed
/// list. Decoders produce finite trees, so rendering always terminates.
pub enum TaggedNode {
    Scalar(ScalarKind, String),
    Aggregate(Vec<(Option<String>, TaggedNode)>),
    List(Vec<TaggedNode>),
}

/// The view of an optional label.
pub open spec fn spec_opt_label(label: Option<String>) -> Option<Seq<char>> {
    match label {
        Some(l) => Some(l@),
        None => None,
    }
}

/// A present label is rendered followed by a colon; an absent one renders
/// as the empty string.
pub open spec fn spec_label_text(label: Option<Seq<char>>) -> Seq<char> {
    match label {
        Some(l) => l + ":"@,
        None => Seq::empty(),
    }
}

/// The synthetic label of the list item at position `i`: its index, for
/// aggregate or list items that open a sub-block; scalar items get none.
pub open spec fn spec_list_label(node: TaggedNode, i: nat) -> Option<Seq<char>> {
    match node {
        TaggedNode::Scalar(_, _) => None,
        _ => Some(spec_digits(i)),
    }
}

/// The child nesting depth one level below `ind`. Depth saturates at the
/// machine's largest index, a level no physically representable tree can
/// reach, which keeps rendering total for every input.
pub open spec fn spec_deeper(ind: nat) -> nat {
    if ind < usize::MAX as nat {
        ind + 1
    } else {
        ind
    }
}

/// The rendering of one node under an optional label at nesting depth
/// `ind`: one line for a scalar, or a header line followed by the node's
/// children one level deeper.
pub open spec fn spec_item(label: Option<Seq<char>>, node: TaggedNode, ind: nat) -> Seq<char>
    decreases node, 0nat, 0nat,
{
    match node {
        TaggedNode::Scalar(_, v) => spec_indent(ind) + "- "@ + spec_label_text(label) + " "@ + v@
            + "\n"@,
        TaggedNode::Aggregate(entries) => spec_indent(ind) + "- "@ + spec_label_text(label)
            + "\n"@ + spec_entries(entries@, 0, spec_deeper(ind)),
        TaggedNode::List(items) => spec_indent(ind) + "- "@ + spec_label_text(label) + "\n"@
            + spec_items(items@, 0, spec_deeper(ind)),
    }
}

/// The rendering of the aggregate entries from position `i` on, each under
/// its stored label.
pub open spec fn spec_entries(entries: Seq<(Option<String>, TaggedNode)>, i: int, ind: nat) -> Seq<
    char,
>
    decreases entries, 1nat, entries.len() - i,
{
    if 0 <= i < entries.len() {
        spec_item(spec_opt_label(entries[i].0), entries[i].1, ind) + spec_entries(
            entries,
            i + 1,
            ind,
        )
    } else {
        Seq::empty()
    }
}

/// The rendering of the list items from position `i` on, each under its
/// synthetic label (or none, for scalars).
pub open spec fn spec_items(items: Seq<TaggedNode>, i: int, ind: nat) -> Seq<char>
    decreases items, 1nat, items.len() - i,
{
    if 0 <= i < items.len() {
        spec_item(spec_list_label(items[i], i as nat), items[i], ind) + spec_items(
            items,
            i + 1,
            ind,
        )
    } else {
        Seq::empty()
    }
}

/// Renders the header-or-scalar prefix: indent, marker and label text.
fn fmt_prefix(label: &Option<String>, indents: usize) -> (r: String)
    ensures
        r@ == spec_indent(indents as nat) + "- "@ + spec_label_text(spec_opt_label(*label)),
{
    let mut s = indent_string(indents);
    s.append("- ");
    match label {
        Some(l) => {
            s.append(l.as_str());
            s.append(":");
        },
        None => {},
    }
    assert(s@ =~= spec_indent(indents as nat) + "- "@ + spec_label_text(spec_opt_label(*label)));
    s
}

/// Renders one node under an optional label at nesting depth `indents`.
/// The output is exactly the node's specified rendering, so rendering the
/// same tree twice yields byte-identical text.
pub fn fmt_item(label: Option<String>, node: &TaggedNode, indents: usize) -> (r: String)
    ensures
        r@ == spec_item(spec_opt_label(label), *node, indents as nat),
    decreases *node, 0nat,
{
    let mut s = fmt_prefix(&label, indents);
    match node {
        TaggedNode::Scalar(_, v) => {
            s.append(" ");
            s.append(v.as_str());
            s.append("\n");
        },
        TaggedNode::Aggregate(entries) => {
            s.append("\n");
            let deeper = if indents < usize::MAX { indents + 1 } else { indents };
            let body = fmt_struct(entries, deeper);
            s.append(body.as_str());
        },
        TaggedNode::List(items) => {
            s.append("\n");
            let deeper = if indents < usize::MAX { indents + 1 } else { indents };
            let body = fmt_list(items, deeper);
            s.append(body.as_str());
        },
    }
    assert(s@ =~= spec_item(spec_opt_label(label), *node, indents as nat));
    s
}

/// Renders an aggregate's entries, in their stored order, at depth
/// `indents`.
pub fn fmt_struct(entries: &Vec<(Option<String>, TaggedNode)>, indents: usize) -> (r: String)
    ensures
        r@ == spec_entries(entries@, 0, indents as nat),
    decreases *entries, 1nat,
{
    let mut s = String::new();
    let n = entries.len();
    let mut i: usize = 0;
    while i < n
        invariant
            i <= n,
            n == entries@.len(),
            spec_entries(entries@, 0, indents as nat) == s@ + spec_entries(
                entries@,
                i as int,
                indents as nat,
            ),
        decreases n - i,
    {
        let label = match &entries[i].0 {
            Some(l) => Some(l.clone()),
            None => None,
        };
        let line = fmt_item(label, &entries[i].1, indents);
        s.append(line.as_str());
        proof {
            assert(spec_entries(entries@, 0, indents as nat) =~= s@ + spec_entries(
                entries@,
                i + 1,
                indents as nat,
            ));
        }
        i = i + 1;
    }
    s
}

/// Renders a list's items at depth `indents`, giving each aggregate or
/// list item its index as a synthetic label and scalar items none.
pub fn fmt_list(items: &Vec<TaggedNode>, indents: usize) -> (r: String)
    ensures
        r@ == spec_items(items@, 0, indents as nat),
    decreases *items, 1nat,
{
    let mut s = String::new();
    let n = items.len();
    let mut i: usize = 0;
    while i < n
        invariant
            i <= n,
            n == items@.len(),
            spec_items(items@, 0, indents as nat) == s@ + spec_items(
                items@,
                i as int,
                indents as nat,
            ),
        decreases n - i,
    {
        let label = match &items[i] {
            TaggedNode::Scalar(_, _) => None,
            _ => Some(usize_string(i)),
        };
        let line = fmt_item(label, &items[i], indents);
        s.append(line.as_str());
        proof {
            assert(spec_items(items@, 0, indents as nat) =~= s@ + spec_items(
                items@,
                i + 1,
                indents as nat,
            ));
        }
        i = i + 1;
    }
    s
}

/// Rendering is a function of the tree alone: any two renderings of the
/// same node under the same label and depth — each equal to the node's
/// specified rendering, as `fmt_item` ensures of its result — are
/// byte-identical.
pub proof fn lemma_render_deterministic(
    r1: Seq<char>,
    r2: Seq<char>,
    label: Option<Seq<char>>,
    node: TaggedNode,
    ind: nat,
)
    requires
        r1 == spec_item(label, node, ind),
        r2 == spec_item(label, node, ind),
    ensures
        r1 == r2,
{
}

/// Aggregate entries render in their stored order: the rendering of an
/// aggregate's body is the rendering of its first entry followed by the
/// renderings of the rest, so `[("a", x), ("b", y)]` puts the line for
/// `"a"` before the line for `"b"`, and reversing the entries reverses the
/// lines.
pub proof fn lemma_aggregate_order(entries: Seq<(Option<String>, TaggedNode)>, ind: nat)
    requires
        entries.len() > 0,
    ensures
        spec_entries(entries, 0, ind) == spec_item(
            spec_opt_label(entries[0].0),
            entries[0].1,
            ind,
        ) + spec_entries(entries, 1, ind),
{
}

} // verus!
