use vstd::prelude::*;

verus! {

/// A request URL, modeled as a path plus an ordered list of query
/// parameters. The path carries everything up to the `?`; each parameter
/// is a `(key, value)` pair, kept in the order in which it will appear in
/// the query string.
#[derive(Debug, PartialEq, Eq)]
pub struct QueryUrl {
    pub path: String,
    pub params: Vec<(String, String)>,
}

/// The abstract value of one query parameter.
pub open spec fn pair_view(p: (String, String)) -> (Seq<char>, Seq<char>) {
    (p.0@, p.1@)
}

/// The query-parameter key used to request the page after a given
/// continuation token.
pub open spec fn pagination_key() -> Seq<char> {
    "pagination_token"@
}

impl QueryUrl {
    /// The abstract value of the whole parameter list.
    pub open spec fn params_view(self) -> Seq<(Seq<char>, Seq<char>)> {
        self.params@.map_values(|p: (String, String)| pair_view(p))
    }

    /// A URL with the given path and no query parameters yet.
    pub fn new(path: String) -> (r: QueryUrl)
        ensures
            r.path@ == path@,
            r.params_view().len() == 0,
    {
        QueryUrl { path, params: Vec::new() }
    }

    /// Append one query parameter at the end of the list.
    pub fn append_pair(&mut self, key: String, value: String)
        ensures
            final(self).path@ == old(self).path@,
            final(self).params_view() == old(self).params_view().push((key@, value@)),
    {
        let ghost before = self.params_view();
        self.params.push((key, value));
        proof {
            assert(self.params_view() =~= before.push((key@, value@)));
        }
    }

    /// An exact copy of this URL.
    pub fn dup(&self) -> (r: QueryUrl)
        ensures
            r.path@ == self.path@,
            r.params_view() == self.params_view(),
    {
        let mut params: Vec<(String, String)> = Vec::new();
        let mut i: usize = 0;
        while i < self.params.len()
            invariant
                i <= self.params.len(),
                params@.map_values(|p: (String, String)| pair_view(p))
                    == self.params_view().take(i as int),
            decreases self.params.len() - i,
        {
            let ghost before = params@.map_values(|p: (String, String)| pair_view(p));
            let (k, v) = (self.params[i].0.clone(), self.params[i].1.clone());
            params.push((k, v));
            proof {
                assert(params@.map_values(|p: (String, String)| pair_view(p))
                    =~= before.push(pair_view(self.params@[i as int])));
                assert(self.params_view().take(i + 1 as int)
                    =~= self.params_view().take(i as int).push(pair_view(self.params@[i as int])));
            }
            i = i + 1;
        }
        proof {
            assert(self.params_view().take(self.params.len() as int) =~= self.params_view());
        }
        QueryUrl { path: self.path.clone(), params }
    }

    /// A copy of this URL with `pagination_token=<token>` appended as a
    /// fresh query parameter; the receiver is left untouched.
    pub fn with_token(&self, token: &String) -> (r: QueryUrl)
        ensures
            r.path@ == self.path@,
            r.params_view() == self.params_view().push((pagination_key(), token@)),
    {
        let mut r = self.dup();
        r.append_pair("pagination_token".to_owned(), token.clone());
        r
    }
}

} // verus!
