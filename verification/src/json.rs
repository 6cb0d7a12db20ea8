//! A JSON value as the launcher builds and reads it.

use vstd::prelude::*;
use crate::entries::pairs_view;
use crate::util::arg_views;

verus! {

/// A JSON value. Numbers keep their JSON text.
#[derive(Debug)]
pub enum Json {
    Null,
    Bool(bool),
    Number(String),
    Str(String),
    Array(Vec<Json>),
    Object(Vec<(String, Json)>),
}

/// The mathematical form of a JSON value: strings as character sequences.
pub enum JsonView {
    Null,
    Bool(bool),
    Number(Seq<char>),
    Str(Seq<char>),
    Array(Seq<JsonView>),
    Object(Seq<(Seq<char>, JsonView)>),
}

impl Json {
    pub open spec fn view_of(self) -> JsonView
        decreases self,
    {
        match self {
            Json::Null => JsonView::Null,
            Json::Bool(b) => JsonView::Bool(b),
            Json::Number(n) => JsonView::Number(n@),
            Json::Str(s) => JsonView::Str(s@),
            Json::Array(v) => JsonView::Array(Json::views_of(v@)),
            Json::Object(es) => JsonView::Object(Json::entry_views(es@)),
        }
    }

    pub open spec fn views_of(s: Seq<Json>) -> Seq<JsonView>
        decreases s,
    {
        if s.len() == 0 {
            Seq::empty()
        } else {
            Json::views_of(s.drop_last()).push(s.last().view_of())
        }
    }

    pub open spec fn entry_views(s: Seq<(String, Json)>) -> Seq<(Seq<char>, JsonView)>
        decreases s,
    {
        if s.len() == 0 {
            Seq::empty()
        } else {
            Json::entry_views(s.drop_last()).push((s.last().0@, s.last().1.view_of()))
        }
    }
}

impl View for Json {
    type V = JsonView;

    open spec fn view(&self) -> JsonView {
        self.view_of()
    }
}

/// The view of a list of entries is the list of their views.
pub proof fn entry_views_are_pairs(s: Seq<(String, Json)>)
    ensures
        Json::entry_views(s) == pairs_view(s),
    decreases s.len(),
{
    if s.len() > 0 {
        entry_views_are_pairs(s.drop_last());
        assert(pairs_view(s.drop_last()).push((s.last().0@, s.last().1@)) =~= pairs_view(s));
    }
}

/// The view of a list of values is the list of their views.
pub proof fn views_of_is_map(s: Seq<Json>)
    ensures
        Json::views_of(s) == s.map_values(|x: Json| x@),
    decreases s.len(),
{
    if s.len() > 0 {
        views_of_is_map(s.drop_last());
        assert(s.drop_last().map_values(|x: Json| x@).push(s.last()@) =~= s.map_values(
            |x: Json| x@,
        ));
    }
}

/// A JSON array of strings.
pub open spec fn str_array(items: Seq<Seq<char>>) -> JsonView {
    JsonView::Array(items.map_values(|s: Seq<char>| JsonView::Str(s)))
}

/// A JSON object whose values are all strings.
pub open spec fn str_object(es: Seq<(Seq<char>, Seq<char>)>) -> JsonView {
    JsonView::Object(es.map_values(|e: (Seq<char>, Seq<char>)| (e.0, JsonView::Str(e.1))))
}

/// An object with the given entries.
pub fn object(es: Vec<(String, Json)>) -> (r: Json)
    ensures
        r@ == JsonView::Object(pairs_view(es@)),
{
    proof {
        entry_views_are_pairs(es@);
    }
    Json::Object(es)
}

/// An array with the given values.
pub fn array(vs: Vec<Json>) -> (r: Json)
    ensures
        r@ == JsonView::Array(vs@.map_values(|x: Json| x@)),
{
    proof {
        views_of_is_map(vs@);
    }
    Json::Array(vs)
}

/// A JSON array of copies of the given strings.
pub fn string_array(items: &[String]) -> (r: Json)
    ensures
        r@ == str_array(arg_views(items@)),
{
    let mut vs: Vec<Json> = Vec::new();
    let n = items.len();
    let mut i: usize = 0;
    while i < n
        invariant
            n == items@.len(),
            i <= n,
            vs@.map_values(|x: Json| x@) == arg_views(items@).take(i as int).map_values(
                |s: Seq<char>| JsonView::Str(s),
            ),
        decreases n - i,
    {
        let ghost before = vs@;
        vs.push(Json::Str(items[i].clone()));
        i = i + 1;
        assert(vs@.map_values(|x: Json| x@) =~= arg_views(items@).take(i as int).map_values(
            |s: Seq<char>| JsonView::Str(s),
        )) by {
            assert(vs@ == before.push(vs@.last()));
            assert(vs@.map_values(|x: Json| x@) =~= before.map_values(|x: Json| x@).push(
                vs@.last()@,
            ));
        }
    }
    assert(arg_views(items@).take(n as int) =~= arg_views(items@));
    array(vs)
}

/// A JSON object with copies of the given keys and string values.
pub fn string_object(es: &[(String, String)]) -> (r: Json)
    ensures
        r@ == str_object(pairs_view(es@)),
{
    let mut out: Vec<(String, Json)> = Vec::new();
    let n = es.len();
    let mut i: usize = 0;
    while i < n
        invariant
            n == es@.len(),
            i <= n,
            pairs_view(out@) == pairs_view(es@).take(i as int).map_values(
                |e: (Seq<char>, Seq<char>)| (e.0, JsonView::Str(e.1)),
            ),
        decreases n - i,
    {
        let ghost before = out@;
        let k = es[i].0.clone();
        let v = es[i].1.clone();
        out.push((k, Json::Str(v)));
        i = i + 1;
        assert(pairs_view(out@) =~= pairs_view(es@).take(i as int).map_values(
            |e: (Seq<char>, Seq<char>)| (e.0, JsonView::Str(e.1)),
        )) by {
            assert(pairs_view(out@) =~= pairs_view(before).push((out@.last().0@, out@.last().1@)));
        }
    }
    assert(pairs_view(es@).take(n as int) =~= pairs_view(es@));
    object(out)
}

} // verus!
