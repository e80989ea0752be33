//! Plain data bindings for the remote HTTP API, plus the pure helpers that
//! the request builders share. The HTTP calls themselves are stateless
//! request/response plumbing and live with the embedding code; this module
//! holds the shapes they exchange and the query-string construction.

pub mod channel;
pub mod gateway;
pub mod guild;
pub mod id;
pub mod user;

use vstd::prelude::*;
use vstd::string::StringExecFns;

verus! {

/// An error body returned by the remote API.
#[derive(Debug, Clone, PartialEq, Eq)]
pub struct ApiError {
    pub code: u64,
    pub message: String,
}

/// The text of the query pairs `q[0], ..., q[i-1]`, each rendered as
/// `&key=value`.
pub open spec fn query_pairs_prefix(q: Seq<(String, String)>, i: int) -> Seq<char>
    decreases i,
{
    if i <= 0 {
        Seq::empty()
    } else {
        query_pairs_prefix(q, i - 1) + seq!['&'] + q[i - 1].0@ + seq!['='] + q[i - 1].1@
    }
}

/// The query string for a nonempty list of pairs: a `?`, the first pair
/// bare, then every pair again prefixed with `&`. (The first pair therefore
/// appears twice; callers that mind pass it only once.)
pub open spec fn formatted_query(q: Seq<(String, String)>) -> Seq<char> {
    if q.len() == 0 {
        Seq::empty()
    } else {
        seq!['?'] + q[0].0@ + seq!['='] + q[0].1@ + query_pairs_prefix(q, q.len() as int)
    }
}

/// Renders query parameters as the suffix appended to a request URL.
/// `None` and an empty list both yield the empty string.
pub fn format_query(query: Option<Vec<(String, String)>>) -> (r: String)
    ensures
        match query {
            None => r@ == Seq::<char>::empty(),
            Some(q) => r@ == formatted_query(q@),
        },
{
    match query {
        None => String::new(),
        Some(q) => {
            if q.len() == 0 {
                String::new()
            } else {
                proof {
                    reveal_strlit("?");
                    reveal_strlit("=");
                    reveal_strlit("&");
                }
                let mut s = String::new();
                s.append("?");
                s.append(q[0].0.as_str());
                s.append("=");
                s.append(q[0].1.as_str());
                assert(s@ =~= seq!['?'] + q@[0].0@ + seq!['='] + q@[0].1@ + query_pairs_prefix(
                    q@,
                    0,
                ));
                let mut i: usize = 0;
                while i < q.len()
                    invariant
                        0 <= i <= q@.len(),
                        q@.len() > 0,
                        s@ == seq!['?'] + q@[0].0@ + seq!['='] + q@[0].1@ + query_pairs_prefix(
                            q@,
                            i as int,
                        ),
                    decreases q@.len() - i,
                {
                    proof {
                        reveal_strlit("=");
                        reveal_strlit("&");
                    }
                    s.append("&");
                    s.append(q[i].0.as_str());
                    s.append("=");
                    s.append(q[i].1.as_str());
                    assert(s@ =~= seq!['?'] + q@[0].0@ + seq!['='] + q@[0].1@ + query_pairs_prefix(
                        q@,
                        i + 1,
                    ));
                    i = i + 1;
                }
                s
            }
        },
    }
}

} // verus!
