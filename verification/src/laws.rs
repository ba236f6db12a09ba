//! The laws this library states of its output: the top-level tag, the
//! shape of every object in the encoded tree, and determinism of the
//! tree path.

use vstd::prelude::*;
use crate::encode::spec_attrs;
use crate::json::JsonView;
use crate::node::{MdNode, NodeKind};
use crate::walk::{lemma_spec_children_index, spec_children, spec_node_to_json};
use crate::spec_ast_text;

verus! {

/// No attribute key of any node kind collides with `type` or `children`.
pub proof fn lemma_attrs_keys_reserved(k: NodeKind)
    ensures
        forall|i: int| 0 <= i < spec_attrs(k).len() ==> (#[trigger] spec_attrs(k)[i]).0
            != "type"@ && spec_attrs(k)[i].0 != "children"@,
{
    broadcast use vstd::seq::group_seq_axioms;

    reveal_strlit("type");
    reveal_strlit("children");
    reveal_strlit("value");
    reveal_strlit("list_type");
    reveal_strlit("start");
    reveal_strlit("tight");
    reveal_strlit("delimiter");
    reveal_strlit("fenced");
    reveal_strlit("info");
    reveal_strlit("literal");
    reveal_strlit("block_type");
    reveal_strlit("level");
    reveal_strlit("setext");
    reveal_strlit("name");
    reveal_strlit("alignments");
    reveal_strlit("num_columns");
    reveal_strlit("num_rows");
    reveal_strlit("header");
    reveal_strlit("symbol");
    reveal_strlit("url");
    reveal_strlit("title");
    reveal_strlit("ref_num");
    reveal_strlit("ix");
    reveal_strlit("code");
    reveal_strlit("emoji");
    reveal_strlit("dollar_math");
    reveal_strlit("display_math");
    reveal_strlit("alert_type");
    assert("type"@.len() == 4);
    assert("children"@.len() == 8);
    assert("value"@.len() == 5);
    assert("list_type"@.len() == 9);
    assert("start"@.len() == 5);
    assert("tight"@.len() == 5);
    assert("delimiter"@.len() == 9);
    assert("fenced"@.len() == 6);
    assert("info"@.len() == 4 && "info"@[0] == 'i');
    assert("literal"@.len() == 7);
    assert("block_type"@.len() == 10);
    assert("level"@.len() == 5);
    assert("setext"@.len() == 6);
    assert("name"@.len() == 4 && "name"@[0] == 'n');
    assert("alignments"@.len() == 10);
    assert("num_columns"@.len() == 11);
    assert("num_rows"@.len() == 8 && "num_rows"@[0] == 'n');
    assert("header"@.len() == 6);
    assert("symbol"@.len() == 6);
    assert("url"@.len() == 3);
    assert("title"@.len() == 5);
    assert("ref_num"@.len() == 7);
    assert("ix"@.len() == 2);
    assert("code"@.len() == 4 && "code"@[0] == 'c');
    assert("emoji"@.len() == 5);
    assert("dollar_math"@.len() == 11);
    assert("display_math"@.len() == 12);
    assert("alert_type"@.len() == 10);
    assert("type"@[0] == 't' && "children"@[0] == 'c' && "children"@[1] == 'h');
}

/// Law: the JSON object of a document-rooted tree opens with the pair
/// `type: "document"`. Every input's parse tree is document-rooted, so
/// every output of the tree path carries this top-level tag.
pub proof fn lemma_top_level_type_is_document(t: MdNode)
    requires
        t.kind is Document,
    ensures
        spec_node_to_json(t) is Obj,
        spec_node_to_json(t)->Obj_0.len() > 0,
        spec_node_to_json(t)->Obj_0[0] == ("type"@, JsonView::Str("document"@)),
{
}

/// The local shape of one encoded node's pairs: a leading `type` pair
/// holding a string, and any `children` pair holding a non-empty array.
pub open spec fn node_pairs_shape_ok(ps: Seq<(Seq<char>, JsonView)>) -> bool {
    &&& ps.len() > 0
    &&& ps[0].0 == "type"@
    &&& ps[0].1 is Str
    &&& forall|i: int| 0 <= i < ps.len() && (#[trigger] ps[i]).0 == "children"@ ==> ps[i].1
        is Arr && ps[i].1->Arr_0.len() > 0
}

/// The shape law, over a whole encoded tree: every object has a `type`
/// key, and `children`, where present, is a non-empty array of objects of
/// the same shape.
pub open spec fn tree_shape_ok(v: JsonView) -> bool
    decreases v,
{
    &&& v is Obj
    &&& node_pairs_shape_ok(v->Obj_0)
    &&& pairs_trees_ok(v->Obj_0)
}

/// Every `children` pair in the sequence holds an array of well-shaped trees.
pub open spec fn pairs_trees_ok(ps: Seq<(Seq<char>, JsonView)>) -> bool
    decreases ps,
    via pairs_trees_ok_decreases
{
    if ps.len() == 0 {
        true
    } else {
        pairs_trees_ok(ps.drop_last()) && pair_tree_ok(ps.last())
    }
}

#[via_fn]
proof fn pairs_trees_ok_decreases(ps: Seq<(Seq<char>, JsonView)>) {
    broadcast use vstd::seq::group_seq_axioms;

    if ps.len() != 0 {
        assert(decreases_to!(ps => ps.drop_last()));
        assert(decreases_to!(ps => ps.last()));
    }
}

/// If the pair's key is `children`, its value is an array of well-shaped trees.
pub open spec fn pair_tree_ok(p: (Seq<char>, JsonView)) -> bool
    decreases p,
{
    p.0 == "children"@ ==> p.1 is Arr && arr_trees_ok(p.1->Arr_0)
}

/// Every element of the array is a well-shaped tree.
pub open spec fn arr_trees_ok(xs: Seq<JsonView>) -> bool
    decreases xs,
    via arr_trees_ok_decreases
{
    if xs.len() == 0 {
        true
    } else {
        arr_trees_ok(xs.drop_last()) && tree_shape_ok(xs.last())
    }
}

#[via_fn]
proof fn arr_trees_ok_decreases(xs: Seq<JsonView>) {
    broadcast use vstd::seq::group_seq_axioms;

    if xs.len() != 0 {
        assert(decreases_to!(xs => xs.drop_last()));
        assert(decreases_to!(xs => xs.last()));
    }
}

/// A sequence whose pairs each satisfy the children condition is fine as
/// a whole.
proof fn lemma_pairs_trees_ok_from_index(ps: Seq<(Seq<char>, JsonView)>)
    requires
        forall|i: int| 0 <= i < ps.len() ==> pair_tree_ok(#[trigger] ps[i]),
    ensures
        pairs_trees_ok(ps),
    decreases ps,
{
    broadcast use vstd::seq::group_seq_axioms;

    if ps.len() != 0 {
        lemma_pairs_trees_ok_from_index(ps.drop_last());
    }
}

/// An array whose elements are each well-shaped is fine as a whole.
proof fn lemma_arr_trees_ok_from_index(xs: Seq<JsonView>)
    requires
        forall|i: int| 0 <= i < xs.len() ==> tree_shape_ok(#[trigger] xs[i]),
    ensures
        arr_trees_ok(xs),
    decreases xs,
{
    broadcast use vstd::seq::group_seq_axioms;

    if xs.len() != 0 {
        lemma_arr_trees_ok_from_index(xs.drop_last());
    }
}

/// Law: the encoded tree of any document tree is well shaped: every object
/// carries a `type` key; `children`, where present, is a non-empty array;
/// it is absent where the node has no children.
pub proof fn lemma_tree_shape_ok(t: MdNode)
    ensures
        tree_shape_ok(spec_node_to_json(t)),
    decreases t,
{
    broadcast use vstd::seq::group_seq_axioms, vstd::std_specs::vec::group_vec_axioms;

    reveal_strlit("type");
    reveal_strlit("children");
    assert("type"@.len() == 4);
    assert("children"@.len() == 8);
    lemma_attrs_keys_reserved(t.kind);
    lemma_spec_children_index(t.children@);
    let tag_pair = ("type"@, JsonView::Str(crate::encode::spec_tag(t.kind)));
    let attrs = spec_attrs(t.kind);
    let ps = spec_node_to_json(t)->Obj_0;
    assert forall|i: int| 0 <= i < ps.len() implies pair_tree_ok(#[trigger] ps[i]) by {
        if ps[i].0 == "children"@ {
            assert(ps[0] == tag_pair);
            if 1 <= i < 1 + attrs.len() {
                assert(ps[i] == attrs[i - 1]);
            }
            assert(t.children@.len() > 0);
            assert(i == ps.len() - 1);
            let xs = spec_children(t.children@);
            assert forall|j: int| 0 <= j < xs.len() implies tree_shape_ok(#[trigger] xs[j]) by {
                assert(decreases_to!(t => t.children));
                assert(decreases_to!(t.children => t.children@));
                assert(decreases_to!(t.children@ => t.children@[j]));
                lemma_tree_shape_ok(t.children@[j]);
            }
            lemma_arr_trees_ok_from_index(xs);
        }
    }
    lemma_pairs_trees_ok_from_index(ps);
}

/// Law: the exact `children` condition — the encoded object of a node has
/// a `children` pair if and only if the node has children, and then it is
/// the array of the children's encodings, in document order.
pub proof fn lemma_children_iff(t: MdNode)
    ensures
        spec_node_to_json(t) is Obj,
        t.children@.len() == 0 ==> forall|i: int|
            0 <= i < spec_node_to_json(t)->Obj_0.len()
                ==> (#[trigger] spec_node_to_json(t)->Obj_0[i]).0 != "children"@,
        t.children@.len() > 0 ==> spec_node_to_json(t)->Obj_0.last() == (
            "children"@,
            JsonView::Arr(spec_children(t.children@)),
        ),
{
    broadcast use vstd::seq::group_seq_axioms;

    reveal_strlit("type");
    reveal_strlit("children");
    assert("type"@.len() == 4);
    assert("children"@.len() == 8);
    lemma_attrs_keys_reserved(t.kind);
    let tag_pair = ("type"@, JsonView::Str(crate::encode::spec_tag(t.kind)));
    let attrs = spec_attrs(t.kind);
    let ps = spec_node_to_json(t)->Obj_0;
    if t.children@.len() == 0 {
        assert forall|i: int| 0 <= i < ps.len() implies (#[trigger] ps[i]).0 != "children"@ by {
            assert(ps[0] == tag_pair);
            if 1 <= i {
                assert(ps[i] == attrs[i - 1]);
            }
        }
    }
}

/// Law: the JSON output is deterministic — two encodings of the same
/// input text under the same fixed configuration are identical, character
/// for character.
pub proof fn lemma_ast_deterministic(input: Seq<char>, r1: Seq<char>, r2: Seq<char>)
    requires
        r1 == spec_ast_text(input),
        r2 == spec_ast_text(input),
    ensures
        r1 == r2,
{
}

} // verus!


