//! Generic JSON value trees: the wire-level data model of the protocol.
//!
//! Every envelope the client sends and every reply it interprets is a value
//! of [`Json`].  Numbers that are not `i64` integers are kept as their
//! unparsed lexeme, since no protocol field the client reads is fractional.

use vstd::prelude::*;

verus! {

broadcast use vstd::std_specs::vec::group_vec_axioms, vstd::seq::group_seq_axioms;

/// Mathematical model of a JSON document: the spec-level mirror of [`Json`].
pub enum Jv {
    Null,
    Bool(bool),
    Int(int),
    /// A JSON number that is not an `i64` integer, kept as its lexeme.
    NumText(Seq<char>),
    Str(Seq<char>),
    Arr(Seq<Jv>),
    Obj(Seq<(Seq<char>, Jv)>),
}

/// A generic JSON value tree.
///
/// Object entries keep the order in which they were built or parsed; lookup
/// takes the first entry with the sought key.
pub enum Json {
    Null,
    Bool(bool),
    Int(i64),
    /// A JSON number that is not an `i64` integer, kept as its lexeme.
    NumText(String),
    Str(String),
    Arr(Vec<Json>),
    Obj(Vec<(String, Json)>),
}

/// The model of an exec value: structural recursion over the tree.
pub open spec fn jv_of(j: Json) -> Jv
    decreases j,
{
    match j {
        Json::Null => Jv::Null,
        Json::Bool(b) => Jv::Bool(b),
        Json::Int(i) => Jv::Int(i as int),
        Json::NumText(s) => Jv::NumText(s@),
        Json::Str(s) => Jv::Str(s@),
        Json::Arr(els) => Jv::Arr(jv_of_seq(els@)),
        Json::Obj(ms) => Jv::Obj(jv_of_entries(ms@)),
    }
}

/// The models of the elements of an array, in order.
pub open spec fn jv_of_seq(els: Seq<Json>) -> Seq<Jv>
    decreases els,
{
    if els.len() == 0 {
        Seq::empty()
    } else {
        seq![jv_of(els[0])] + jv_of_seq(els.drop_first())
    }
}

/// The models of the entries of an object, in order.
pub open spec fn jv_of_entries(ms: Seq<(String, Json)>) -> Seq<(Seq<char>, Jv)>
    decreases ms,
{
    if ms.len() == 0 {
        Seq::empty()
    } else {
        seq![(ms[0].0@, jv_of(ms[0].1))] + jv_of_entries(ms.drop_first())
    }
}

impl View for Json {
    type V = Jv;

    open spec fn view(&self) -> Jv {
        jv_of(*self)
    }
}

/// The element models line up one-for-one with the elements.
pub proof fn lemma_jv_of_seq(els: Seq<Json>)
    ensures
        jv_of_seq(els).len() == els.len(),
        forall|i: int| 0 <= i < els.len() ==> jv_of_seq(els)[i] == jv_of(els[i]),
    decreases els,
{
    if els.len() > 0 {
        lemma_jv_of_seq(els.drop_first());
    }
}

/// The entry models line up one-for-one with the entries.
pub proof fn lemma_jv_of_entries(ms: Seq<(String, Json)>)
    ensures
        jv_of_entries(ms).len() == ms.len(),
        forall|i: int| 0 <= i < ms.len() ==> jv_of_entries(ms)[i] == (ms[i].0@, jv_of(
            ms[i].1,
        )),
    decreases ms,
{
    if ms.len() > 0 {
        lemma_jv_of_entries(ms.drop_first());
    }
}

/// Appending an element appends its model.
pub proof fn lemma_jv_of_seq_push(els: Seq<Json>, x: Json)
    ensures
        jv_of_seq(els.push(x)) == jv_of_seq(els).push(jv_of(x)),
{
    lemma_jv_of_seq(els);
    lemma_jv_of_seq(els.push(x));
    assert(jv_of_seq(els.push(x)) =~= jv_of_seq(els).push(jv_of(x)));
}

/// Appending an entry appends its model.
pub proof fn lemma_jv_of_entries_push(ms: Seq<(String, Json)>, k: String, v: Json)
    ensures
        jv_of_entries(ms.push((k, v))) == jv_of_entries(ms).push((k@, jv_of(v))),
{
    lemma_jv_of_entries(ms);
    lemma_jv_of_entries(ms.push((k, v)));
    assert(jv_of_entries(ms.push((k, v))) =~= jv_of_entries(ms).push((k@, jv_of(v))));
}

/// The value at a key in an object: the first entry with that key, if any.
pub open spec fn obj_get(ms: Seq<(Seq<char>, Jv)>, k: Seq<char>) -> Option<Jv>
    decreases ms,
{
    if ms.len() == 0 {
        None
    } else if ms[0].0 == k {
        Some(ms[0].1)
    } else {
        obj_get(ms.drop_first(), k)
    }
}

/// Whether an object has an entry under a key.
pub open spec fn has_key(ms: Seq<(Seq<char>, Jv)>, k: Seq<char>) -> bool {
    obj_get(ms, k) is Some
}

/// Looking a key up finds the first entry that carries it, and finds one
/// exactly when some entry carries it.
pub proof fn lemma_obj_get(ms: Seq<(Seq<char>, Jv)>, k: Seq<char>)
    ensures
        has_key(ms, k) <==> exists|i: int| 0 <= i < ms.len() && ms[i].0 == k,
        forall|i: int|
            0 <= i < ms.len() && ms[i].0 == k && (forall|j: int|
                0 <= j < i ==> ms[j].0 != k) ==> obj_get(ms, k) == Some(ms[i].1),
    decreases ms,
{
    if ms.len() > 0 {
        lemma_obj_get(ms.drop_first(), k);
        assert(forall|i: int| 1 <= i < ms.len() ==> ms.drop_first()[i - 1] == ms[i]);
    }
}

/// Lookup distributes over concatenation: the left entries win.
pub proof fn lemma_obj_get_append(s1: Seq<(Seq<char>, Jv)>, s2: Seq<(Seq<char>, Jv)>, k: Seq<char>)
    ensures
        obj_get(s1 + s2, k) == (match obj_get(s1, k) {
            Some(v) => Some(v),
            None => obj_get(s2, k),
        }),
    decreases s1,
{
    if s1.len() == 0 {
        assert(s1 + s2 =~= s2);
    } else {
        lemma_obj_get_append(s1.drop_first(), s2, k);
        assert((s1 + s2).drop_first() =~= s1.drop_first() + s2);
        assert((s1 + s2)[0] == s1[0]);
    }
}

/// Whether two string slices hold the same characters.
pub fn str_eq(a: &str, b: &str) -> (r: bool)
    ensures
        r == (a@ == b@),
{
    let n = a.unicode_len();
    if n != b.unicode_len() {
        assert(a@ != b@);
        return false;
    }
    let mut i: usize = 0;
    while i < n
        invariant
            n == a@.len(),
            n == b@.len(),
            i <= n,
            forall|j: int| 0 <= j < i ==> a@[j] == b@[j],
        decreases n - i,
    {
        if a.get_char(i) != b.get_char(i) {
            assert(a@ != b@);
            return false;
        }
        i += 1;
    }
    proof {
        assert(a@ =~= b@);
    }
    true
}

/// The value under a key in an object's entry list, if any entry carries it.
pub fn obj_lookup<'a>(ms: &'a Vec<(String, Json)>, k: &str) -> (r: Option<&'a Json>)
    ensures
        match r {
            Some(v) => obj_get(jv_of_entries(ms@), k@) == Some(jv_of(*v)),
            None => !has_key(jv_of_entries(ms@), k@),
        },
{
    let mut i: usize = 0;
    while i < ms.len()
        invariant
            i <= ms@.len(),
            forall|j: int| 0 <= j < i ==> ms@[j].0@ != k@,
        decreases ms@.len() - i,
    {
        if str_eq(ms[i].0.as_str(), k) {
            proof {
                lemma_jv_of_entries(ms@);
                let es = jv_of_entries(ms@);
                assert(forall|j: int| 0 <= j < i ==> es[j].0 != k@);
                assert(es[i as int].0 == k@);
                lemma_obj_get(es, k@);
                assert(obj_get(es, k@) == Some(es[i as int].1));
            }
            return Some(&ms[i].1);
        }
        i += 1;
    }
    proof {
        lemma_jv_of_entries(ms@);
        lemma_obj_get(jv_of_entries(ms@), k@);
    }
    None
}


/// The position of the first entry under a key, if any entry carries it.
pub fn obj_find(ms: &Vec<(String, Json)>, k: &str) -> (r: Option<usize>)
    ensures
        match r {
            Some(i) => i < ms@.len() && ms@[i as int].0@ == k@ && obj_get(
                jv_of_entries(ms@),
                k@,
            ) == Some(jv_of(ms@[i as int].1)),
            None => !has_key(jv_of_entries(ms@), k@),
        },
{
    let mut i: usize = 0;
    while i < ms.len()
        invariant
            i <= ms@.len(),
            forall|j: int| 0 <= j < i ==> ms@[j].0@ != k@,
        decreases ms@.len() - i,
    {
        if str_eq(ms[i].0.as_str(), k) {
            proof {
                lemma_jv_of_entries(ms@);
                let es = jv_of_entries(ms@);
                assert(forall|j: int| 0 <= j < i ==> es[j].0 != k@);
                assert(es[i as int].0 == k@);
                lemma_obj_get(es, k@);
                assert(obj_get(es, k@) == Some(es[i as int].1));
            }
            return Some(i);
        }
        i += 1;
    }
    proof {
        lemma_jv_of_entries(ms@);
        lemma_obj_get(jv_of_entries(ms@), k@);
    }
    None
}

} // verus!
