//! A small model of a JSON value: the executable tree the walker builds,
//! and its mathematical view.

use vstd::prelude::*;

verus! {

/// A JSON value as the walker builds it. Objects keep their pairs in
/// insertion order; a serializer is free to reorder keys (key order is
/// no part of the external contract).
pub enum JsonValue {
    Null,
    Bool(bool),
    UInt(u64),
    Str(String),
    Arr(Vec<JsonValue>),
    Obj(Vec<(String, JsonValue)>),
}

/// The mathematical view of a JSON value.
pub ghost enum JsonView {
    Null,
    Bool(bool),
    UInt(u64),
    Str(Seq<char>),
    Arr(Seq<JsonView>),
    Obj(Seq<(Seq<char>, JsonView)>),
}

impl JsonValue {
    /// The view of a JSON value: strings become character sequences,
    /// vectors become sequences, element for element.
    pub open spec fn as_view(&self) -> JsonView
        decreases self,
        via Self::as_view_decreases
    {
        match self {
            JsonValue::Null => JsonView::Null,
            JsonValue::Bool(b) => JsonView::Bool(*b),
            JsonValue::UInt(n) => JsonView::UInt(*n),
            JsonValue::Str(s) => JsonView::Str(s@),
            JsonValue::Arr(xs) => JsonView::Arr(elems_view(xs@)),
            JsonValue::Obj(ps) => JsonView::Obj(pairs_view(ps@)),
        }
    }

    #[via_fn]
    proof fn as_view_decreases(&self) {
        broadcast use vstd::std_specs::vec::group_vec_axioms, vstd::seq::group_seq_axioms;

        match self {
            JsonValue::Arr(xs) => {
                assert(decreases_to!(*self => *xs));
                assert(decreases_to!(*xs => xs@));
            }
            JsonValue::Obj(ps) => {
                assert(decreases_to!(*self => *ps));
                assert(decreases_to!(*ps => ps@));
            }
            _ => {}
        }
    }
}

/// The views of the elements of an array, in order.
pub open spec fn elems_view(xs: Seq<JsonValue>) -> Seq<JsonView>
    decreases xs,
    via elems_view_decreases
{
    if xs.len() == 0 {
        Seq::empty()
    } else {
        elems_view(xs.drop_last()).push(xs.last().as_view())
    }
}

#[via_fn]
proof fn elems_view_decreases(xs: Seq<JsonValue>) {
    broadcast use vstd::seq::group_seq_axioms;

    if xs.len() != 0 {
        assert(decreases_to!(xs => xs.drop_last()));
        assert(decreases_to!(xs => xs.last()));
    }
}

/// The views of the key/value pairs of an object, in order.
pub open spec fn pairs_view(ps: Seq<(String, JsonValue)>) -> Seq<(Seq<char>, JsonView)>
    decreases ps,
    via pairs_view_decreases
{
    if ps.len() == 0 {
        Seq::empty()
    } else {
        pairs_view(ps.drop_last()).push((ps.last().0@, ps.last().1.as_view()))
    }
}

#[via_fn]
proof fn pairs_view_decreases(ps: Seq<(String, JsonValue)>) {
    broadcast use vstd::seq::group_seq_axioms;

    if ps.len() != 0 {
        assert(decreases_to!(ps => ps.drop_last()));
        assert(decreases_to!(ps => ps.last()));
        assert(decreases_to!(ps.last() => ps.last().1));
    }
}

impl View for JsonValue {
    type V = JsonView;

    open spec fn view(&self) -> JsonView {
        self.as_view()
    }
}

/// Appending an element to an array appends its view to the array's view.
pub broadcast proof fn lemma_elems_view_push(xs: Seq<JsonValue>, x: JsonValue)
    ensures
        #[trigger] elems_view(xs.push(x)) == elems_view(xs).push(x.as_view()),
{
    broadcast use vstd::seq::group_seq_axioms;

    assert(xs.push(x).drop_last() =~= xs);
    assert(xs.push(x).last() == x);
}

/// Appending a pair to an object appends its view to the object's view.
pub broadcast proof fn lemma_pairs_view_push(ps: Seq<(String, JsonValue)>, p: (String, JsonValue))
    ensures
        #[trigger] pairs_view(ps.push(p)) == pairs_view(ps).push((p.0@, p.1.as_view())),
{
    broadcast use vstd::seq::group_seq_axioms;

    assert(ps.push(p).drop_last() =~= ps);
    assert(ps.push(p).last() == p);
}

/// The view of an object splits over concatenation of its pair vectors.
pub proof fn lemma_pairs_view_concat(a: Seq<(String, JsonValue)>, b: Seq<(String, JsonValue)>)
    ensures
        pairs_view(a + b) == pairs_view(a) + pairs_view(b),
{
    broadcast use vstd::seq::group_seq_axioms;

    lemma_pairs_view_index(a);
    lemma_pairs_view_index(b);
    lemma_pairs_view_index(a + b);
    assert(pairs_view(a + b) =~= pairs_view(a) + pairs_view(b));
}

/// An object's view has one pair for each pair of the object, in order.
pub proof fn lemma_pairs_view_index(ps: Seq<(String, JsonValue)>)
    ensures
        pairs_view(ps).len() == ps.len(),
        forall|i: int| 0 <= i < ps.len() ==> pairs_view(ps)[i] == (ps[i].0@, ps[i].1.as_view()),
    decreases ps,
{
    broadcast use vstd::seq::group_seq_axioms;

    if ps.len() != 0 {
        lemma_pairs_view_index(ps.drop_last());
    }
}

} // verus!
