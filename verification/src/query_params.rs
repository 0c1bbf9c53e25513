//! The query parameters of a request, kept in a `hashbrown::HashMap` from names
//! to values.
use vstd::prelude::*;

verus! {

/// The query parameters of a stats request: names mapped to their values.
#[verifier::external_body]
pub struct QueryParams {
    inner: hashbrown::HashMap<String, String>,
}

/// What a `QueryParams` holds: each parameter name mapped to its value.
pub uninterp spec fn query_params_contents(p: QueryParams) -> Map<Seq<char>, Seq<char>>;

impl View for QueryParams {
    type V = Map<Seq<char>, Seq<char>>;

    open spec fn view(&self) -> Map<Seq<char>, Seq<char>> {
        query_params_contents(*self)
    }
}

/// The value given for `key`, if any.
pub open spec fn param(p: Map<Seq<char>, Seq<char>>, key: Seq<char>) -> Option<Seq<char>> {
    if p.contains_key(key) {
        Some(p[key])
    } else {
        None
    }
}

impl QueryParams {
    /// An empty set of parameters (`hashbrown::HashMap::new`, which holds no entry).
    #[verifier::external_body]
    pub(crate) fn new() -> (p: Self)
        ensures
            query_params_contents(p).dom() == Set::<Seq<char>>::empty(),
    {
        QueryParams { inner: hashbrown::HashMap::new() }
    }

    /// Sets `key` to `value` (`hashbrown::HashMap::insert`): the map afterwards
    /// holds `value` under `key` and is otherwise unchanged; the value that `key`
    /// held before, if any, is returned.
    #[verifier::external_body]
    pub(crate) fn insert(&mut self, key: String, value: String) -> (previous: Option<String>)
        ensures
            query_params_contents(*final(self)) == query_params_contents(*old(self)).insert(
                key@,
                value@,
            ),
            previous is Some <==> query_params_contents(*old(self)).contains_key(key@),
            previous matches Some(v) ==> v@ == query_params_contents(*old(self))[key@],
    {
        self.inner.insert(key, value)
    }

    /// The value held under `key` (`hashbrown::HashMap::get`), `None` when there is none.
    #[verifier::external_body]
    pub(crate) fn get(&self, key: &str) -> (value: Option<&String>)
        ensures
            value is Some <==> query_params_contents(*self).contains_key(key@),
            value matches Some(v) ==> v@ == query_params_contents(*self)[key@],
    {
        self.inner.get(key)
    }
}

/// The parameters that a list of name and value pairs gives, a later pair
/// replacing an earlier one of the same name.
pub open spec fn pairs_map(pairs: Seq<(String, String)>) -> Map<Seq<char>, Seq<char>>
    decreases pairs.len(),
{
    if pairs.len() == 0 {
        Map::empty()
    } else {
        pairs_map(pairs.drop_last()).insert(pairs.last().0@, pairs.last().1@)
    }
}

impl QueryParams {
    /// The parameters given by `pairs` of names and values, in order.
    pub fn from_pairs(pairs: &Vec<(String, String)>) -> (p: Self)
        ensures
            p@ == pairs_map(pairs@),
    {
        let mut p = QueryParams::new();
        assert(p@ =~= pairs_map(pairs@.take(0)));
        let mut i: usize = 0;
        while i < pairs.len()
            invariant
                i <= pairs.len(),
                p@ == pairs_map(pairs@.take(i as int)),
            decreases pairs.len() - i,
        {
            let key = pairs[i].0.clone();
            let value = pairs[i].1.clone();
            let _ = p.insert(key, value);
            assert(pairs@.take(i + 1).drop_last() =~= pairs@.take(i as int));
            i = i + 1;
        }
        assert(pairs@.take(i as int) =~= pairs@);
        p
    }
}

} // verus!
