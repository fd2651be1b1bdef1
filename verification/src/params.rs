//! Optional parameters: a parameter that is set goes out with its value, one
//! that is not set does not go out at all.
//!
//! The exchange tells a parameter that is left out from one that is sent
//! empty, so the difference is kept all the way: a value is sent as it is
//! given, an empty text and a zero too.

use crate::decimal::{decimal, decimal_text};
use vstd::prelude::*;

verus! {

/// A name with its value: a header, a query parameter or a body field.
#[derive(Clone, Debug, PartialEq, Eq)]
pub struct Param {
    pub name: String,
    pub value: String,
}

impl View for Param {
    type V = (Seq<char>, Seq<char>);

    open spec fn view(&self) -> (Seq<char>, Seq<char>) {
        (self.name@, self.value@)
    }
}

/// The names and values of `params`, in order.
pub open spec fn pairs(params: Seq<Param>) -> Seq<(Seq<char>, Seq<char>)> {
    Seq::new(params.len(), |i: int| params[i]@)
}

/// What an optional parameter adds to a request: its name and value when
/// it is set, nothing when it is not.
pub open spec fn present(name: Seq<char>, value: Option<Seq<char>>) -> Seq<(Seq<char>, Seq<char>)> {
    match value {
        Some(v) => seq![(name, v)],
        None => seq![],
    }
}

/// The parameters that go out for a set of optional parameters: those that
/// are set, in the order of the set.
pub open spec fn attached(set: Seq<(Seq<char>, Option<Seq<char>>)>) -> Seq<(Seq<char>, Seq<char>)>
    decreases set.len(),
{
    if set.len() == 0 {
        seq![]
    } else {
        attached(set.drop_last()) + present(set.last().0, set.last().1)
    }
}

/// The value of an optional text parameter.
pub open spec fn text(value: Option<&str>) -> Option<Seq<char>> {
    match value {
        Some(v) => Some(v@),
        None => None,
    }
}

/// The value of an optional text parameter that is held as a `String`.
pub open spec fn owned(value: Option<String>) -> Option<Seq<char>> {
    match value {
        Some(v) => Some(v@),
        None => None,
    }
}

/// The value of an optional integer parameter: its decimal notation.
pub open spec fn number(value: Option<i64>) -> Option<Seq<char>> {
    match value {
        Some(n) => Some(decimal(n as int)),
        None => None,
    }
}

/// The value of an optional 32-bit integer parameter.
pub open spec fn number32(value: Option<i32>) -> Option<Seq<char>> {
    match value {
        Some(n) => Some(decimal(n as int)),
        None => None,
    }
}

/// Whether `query` holds a parameter named `name`.
pub open spec fn sends(query: Seq<(Seq<char>, Seq<char>)>, name: Seq<char>) -> bool {
    exists|i: int| 0 <= i < query.len() && (#[trigger] query[i]).0 == name
}

/// Whether `set` holds a parameter named `name` that is set.
pub open spec fn sets(set: Seq<(Seq<char>, Option<Seq<char>>)>, name: Seq<char>) -> bool {
    exists|i: int| 0 <= i < set.len() && (#[trigger] set[i]).0 == name && set[i].1 is Some
}

/// Adding one optional parameter to a set adds what it contributes, and
/// only that, after what the set already sends.
pub proof fn lemma_attached_push(
    set: Seq<(Seq<char>, Option<Seq<char>>)>,
    name: Seq<char>,
    value: Option<Seq<char>>,
)
    ensures
        attached(set.push((name, value))) == attached(set) + present(name, value),
{
    assert(set.push((name, value)).drop_last() =~= set);
}

/// A name and value go out exactly when the set holds that name with that
/// value set: nothing is invented, nothing that is set is dropped, and a
/// value goes out as it is, an empty one too.
pub proof fn lemma_attached_exactly_the_set(
    set: Seq<(Seq<char>, Option<Seq<char>>)>,
    name: Seq<char>,
    value: Seq<char>,
)
    ensures
        attached(set).contains((name, value)) <==> set.contains((name, Some(value))),
    decreases set.len(),
{
    if set.len() > 0 {
        let init = set.drop_last();
        let sent = attached(set);
        let before = attached(init).len() as int;
        lemma_attached_exactly_the_set(init, name, value);
        if sent.contains((name, value)) {
            let i = choose|i: int| 0 <= i < sent.len() && sent[i] == (name, value);
            if i < before {
                assert(attached(init)[i] == (name, value));
                let j = choose|j: int| 0 <= j < init.len() && init[j] == (name, Some(value));
                assert(set[j] == (name, Some(value)));
            } else {
                assert(set[set.len() - 1] == (name, Some(value)));
            }
        }
        if set.contains((name, Some(value))) {
            let j = choose|j: int| 0 <= j < set.len() && set[j] == (name, Some(value));
            if j < init.len() {
                assert(init[j] == (name, Some(value)));
                let i = choose|i: int| 0 <= i < before && attached(init)[i] == (name, value);
                assert(sent[i] == (name, value));
            } else {
                assert(sent[before] == (name, value));
            }
        }
    }
}

/// A parameter that is not set never goes out, and one that is set always
/// does, whatever its value.
pub proof fn lemma_absent_omitted_present_sent(
    set: Seq<(Seq<char>, Option<Seq<char>>)>,
    name: Seq<char>,
)
    ensures
        sends(attached(set), name) <==> sets(set, name),
{
    let sent = attached(set);
    if sends(sent, name) {
        let i = choose|i: int| 0 <= i < sent.len() && (#[trigger] sent[i]).0 == name;
        let value = sent[i].1;
        assert(sent.contains((name, value)));
        lemma_attached_exactly_the_set(set, name, value);
        let j = choose|j: int| 0 <= j < set.len() && set[j] == (name, Some(value));
        assert(set[j].0 == name && set[j].1 is Some);
    }
    if sets(set, name) {
        let j = choose|j: int|
            0 <= j < set.len() && (#[trigger] set[j]).0 == name && set[j].1 is Some;
        let value = set[j].1->0;
        assert(set.contains((name, Some(value))));
        lemma_attached_exactly_the_set(set, name, value);
        let i = choose|i: int| 0 <= i < sent.len() && sent[i] == (name, value);
        assert(sent[i].0 == name);
    }
}

/// Whether no two parameters of `set` have the same name.
pub open spec fn distinct_names(set: Seq<(Seq<char>, Option<Seq<char>>)>) -> bool {
    forall|i: int, j: int|
        0 <= i < j < set.len() ==> (#[trigger] set[i]).0 != (#[trigger] set[j]).0
}

/// In a set that names no parameter twice, each parameter goes out exactly
/// when it is set, and then with its value.
pub proof fn lemma_sent_iff_set(set: Seq<(Seq<char>, Option<Seq<char>>)>, i: int)
    requires
        distinct_names(set),
        0 <= i < set.len(),
    ensures
        sends(attached(set), set[i].0) <==> set[i].1 is Some,
        set[i].1 matches Some(value) ==> attached(set).contains((set[i].0, value)),
{
    let name = set[i].0;
    lemma_absent_omitted_present_sent(set, name);
    if sets(set, name) {
        let j = choose|j: int|
            0 <= j < set.len() && (#[trigger] set[j]).0 == name && set[j].1 is Some;
        assert(j == i);
    }
    if set[i].1 is Some {
        let value = set[i].1->0;
        assert(set.contains((name, Some(value))));
        lemma_attached_exactly_the_set(set, name, value);
    }
}

/// Whether no two parameters of `query` have the same name.
pub open spec fn sent_once(query: Seq<(Seq<char>, Seq<char>)>) -> bool {
    forall|i: int, j: int|
        0 <= i < j < query.len() ==> (#[trigger] query[i]).0 != (#[trigger] query[j]).0
}

/// A set that names no parameter twice sends no name twice.
pub proof fn lemma_sent_once(set: Seq<(Seq<char>, Option<Seq<char>>)>)
    requires
        distinct_names(set),
    ensures
        sent_once(attached(set)),
    decreases set.len(),
{
    if set.len() > 0 {
        let init = set.drop_last();
        let sent = attached(set);
        let before = attached(init).len() as int;
        assert(distinct_names(init)) by {
            assert forall|i: int, j: int| 0 <= i < j < init.len() implies (#[trigger] init[i]).0
                != (#[trigger] init[j]).0 by {
                assert(init[i] == set[i] && init[j] == set[j]);
            }
        }
        lemma_sent_once(init);
        assert forall|i: int, j: int| 0 <= i < j < sent.len() implies (#[trigger] sent[i]).0
            != (#[trigger] sent[j]).0 by {
            if j < before {
                assert(sent[i] == attached(init)[i] && sent[j] == attached(init)[j]);
            } else {
                // `sent[j]` is the last parameter of the set; `sent[i]` comes from
                // an earlier one, which has another name.
                assert(attached(init).contains(sent[i]));
                lemma_attached_exactly_the_set(init, sent[i].0, sent[i].1);
                let k = choose|k: int|
                    0 <= k < init.len() && init[k] == (sent[i].0, Some(sent[i].1));
                assert(set[k].0 == sent[i].0);
                assert(set[set.len() - 1].0 == sent[j].0);
            }
        }
    }
}

/// Adds the parameter `name` with `value`.
pub fn attach(params: &mut Vec<Param>, name: &str, value: String)
    ensures
        pairs(final(params)@) == pairs(old(params)@).push((name@, value@)),
{
    params.push(Param { name: name.to_owned(), value });
    assert(pairs(params@) =~= pairs(old(params)@).push((name@, value@)));
}

/// A set of optional parameters under construction: each parameter is
/// named, and either set to a value or left unset.
pub struct ParamSet {
    params: Vec<Param>,
    set: Ghost<Seq<(Seq<char>, Option<Seq<char>>)>>,
}

impl View for ParamSet {
    type V = Seq<(Seq<char>, Option<Seq<char>>)>;

    /// The parameters of the set, in the order in which they were named,
    /// each with its value if it is set.
    closed spec fn view(&self) -> Seq<(Seq<char>, Option<Seq<char>>)> {
        self.set@
    }
}

impl ParamSet {
    #[verifier::type_invariant]
    spec fn faithful(self) -> bool {
        pairs(self.params@) == attached(self.set@)
    }

    /// The empty set.
    pub fn new() -> (r: ParamSet)
        ensures
            r@ == Seq::<(Seq<char>, Option<Seq<char>>)>::empty(),
    {
        let params: Vec<Param> = Vec::new();
        assert(pairs(params@) =~= attached(Seq::empty()));
        ParamSet { params, set: Ghost(Seq::empty()) }
    }

    /// Names a parameter that is always set.
    pub fn required(self, name: &str, value: &str) -> (r: ParamSet)
        ensures
            r@ == self@.push((name@, Some(value@))),
    {
        self.optional(name, Some(value.to_owned()))
    }

    /// Names a text parameter, set when `value` is.
    pub fn text(self, name: &str, value: Option<&str>) -> (r: ParamSet)
        ensures
            r@ == self@.push((name@, text(value))),
    {
        match value {
            Some(v) => self.optional(name, Some(v.to_owned())),
            None => self.optional(name, None),
        }
    }

    /// Names an integer parameter, set when `value` is; it is sent in
    /// decimal notation.
    pub fn i64(self, name: &str, value: Option<i64>) -> (r: ParamSet)
        ensures
            r@ == self@.push((name@, number(value))),
    {
        match value {
            Some(n) => self.optional(name, Some(decimal_text(n))),
            None => self.optional(name, None),
        }
    }

    /// Names a 32-bit integer parameter, set when `value` is; it is sent in
    /// decimal notation.
    pub fn i32(self, name: &str, value: Option<i32>) -> (r: ParamSet)
        ensures
            r@ == self@.push((name@, number32(value))),
    {
        match value {
            Some(n) => self.optional(name, Some(decimal_text(n as i64))),
            None => self.optional(name, None),
        }
    }

    fn optional(self, name: &str, value: Option<String>) -> (r: ParamSet)
        ensures
            r@ == self@.push((name@, owned(value))),
    {
        proof {
            use_type_invariant(&self);
        }
        let ghost entry = (name@, owned(value));
        let ParamSet { params: mut params, set: Ghost(set) } = self;
        match value {
            Some(v) => {
                attach(&mut params, name, v);
            },
            None => {},
        }
        proof {
            lemma_attached_push(set, entry.0, entry.1);
            assert(pairs(params@) =~= attached(set.push(entry)));
        }
        ParamSet { params, set: Ghost(set.push(entry)) }
    }

    /// The parameters that go out: those that are set.
    pub fn into_params(self) -> (r: Vec<Param>)
        ensures
            pairs(r@) == attached(self@),
    {
        proof {
            use_type_invariant(&self);
        }
        self.params
    }
}

} // verus!
