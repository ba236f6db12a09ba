//! The tree walker: converts one document tree node, with its descendants,
//! into one canonical JSON value. Pre-order, children kept in document
//! order; `children` is present if and only if the node has children.

use vstd::prelude::*;
use crate::encode::{encode_kind, spec_attrs, spec_tag};
use crate::json::{
    elems_view, lemma_elems_view_push, lemma_pairs_view_concat, lemma_pairs_view_push,
    pairs_view, JsonValue, JsonView,
};
use crate::node::MdNode;

verus! {

broadcast use lemma_elems_view_push, lemma_pairs_view_push;

/// The JSON views of a sequence of sibling nodes, in document order.
pub open spec fn spec_children(ts: Seq<MdNode>) -> Seq<JsonView>
    decreases ts,
    via spec_children_decreases
{
    if ts.len() == 0 {
        Seq::empty()
    } else {
        spec_children(ts.drop_last()).push(spec_node_to_json(ts.last()))
    }
}

#[via_fn]
proof fn spec_children_decreases(ts: Seq<MdNode>) {
    broadcast use vstd::seq::group_seq_axioms;

    if ts.len() != 0 {
        assert(decreases_to!(ts => ts.drop_last()));
        assert(decreases_to!(ts => ts.last()));
    }
}

/// The canonical JSON object of one node: the `type` tag first, then the
/// kind's attribute pairs, then `children` if and only if the node has at
/// least one child.
pub open spec fn spec_node_to_json(t: MdNode) -> JsonView
    decreases t,
    via spec_node_to_json_decreases
{
    JsonView::Obj(
        seq![("type"@, JsonView::Str(spec_tag(t.kind)))] + spec_attrs(t.kind) + (
        if t.children@.len() == 0 {
            Seq::<(Seq<char>, JsonView)>::empty()
        } else {
            seq![("children"@, JsonView::Arr(spec_children(t.children@)))]
        }),
    )
}

#[via_fn]
proof fn spec_node_to_json_decreases(t: MdNode) {
    broadcast use vstd::std_specs::vec::group_vec_axioms;

    assert(decreases_to!(t => t.children));
    assert(decreases_to!(t.children => t.children@));
}

/// The view sequence of siblings has one JSON object for each sibling,
/// in document order.
pub proof fn lemma_spec_children_index(ts: Seq<MdNode>)
    ensures
        spec_children(ts).len() == ts.len(),
        forall|i: int| 0 <= i < ts.len() ==> spec_children(ts)[i] == spec_node_to_json(ts[i]),
    decreases ts,
{
    broadcast use vstd::seq::group_seq_axioms;

    if ts.len() != 0 {
        lemma_spec_children_index(ts.drop_last());
    }
}

/// Converts one node and its descendants into one JSON value.
pub fn node_to_json(node: &MdNode) -> (r: JsonValue)
    ensures
        r@ == spec_node_to_json(*node),
    decreases *node,
{
    let (tag, mut attrs) = encode_kind(&node.kind);
    let ghost attrs0 = attrs@;
    let mut pairs: Vec<(String, JsonValue)> = Vec::new();
    pairs.push(("type".to_owned(), JsonValue::Str(tag)));
    let ghost head = pairs@;
    pairs.append(&mut attrs);
    proof {
        lemma_pairs_view_concat(head, attrs0);
    }
    if node.children.len() > 0 {
        let mut kids: Vec<JsonValue> = Vec::new();
        let mut j: usize = 0;
        while j < node.children.len()
            invariant
                j <= node.children@.len(),
                elems_view(kids@) == spec_children(node.children@.subrange(0, j as int)),
            decreases node.children@.len() - j,
        {
            proof {
                broadcast use vstd::std_specs::vec::group_vec_axioms, vstd::seq::group_seq_axioms;

                assert(decreases_to!(*node => node.children));
                assert(decreases_to!(node.children => node.children@));
                assert(decreases_to!(node.children@ => node.children@[j as int]));
            }
            let kid = node_to_json(&node.children[j]);
            kids.push(kid);
            proof {
                let pre = node.children@.subrange(0, j as int);
                let post = node.children@.subrange(0, j as int + 1);
                assert(post.drop_last() =~= pre);
                assert(post.last() == node.children@[j as int]);
            }
            j = j + 1;
        }
        proof {
            assert(node.children@.subrange(0, node.children@.len() as int) =~= node.children@);
        }
        pairs.push(("children".to_owned(), JsonValue::Arr(kids)));
    }
    let r = JsonValue::Obj(pairs);
    proof {
        assert(pairs_view(pairs@) =~= (seq![("type"@, JsonView::Str(spec_tag(node.kind)))]
            + spec_attrs(node.kind) + (if node.children@.len() == 0 {
            Seq::<(Seq<char>, JsonView)>::empty()
        } else {
            seq![("children"@, JsonView::Arr(spec_children(node.children@)))]
        })));
    }
    r
}

} // verus!
