//! Typed search requests and their exact query-string serialization.

use vstd::prelude::*;
use vstd::string::StringExecFns;
use vstd::utf8::encode_utf8;

use crate::encoding::bytes_without_question_marks;
use crate::encoding::form_encode;
use crate::encoding::form_encoded_bytes;
use crate::encoding::strip_question_marks;
use crate::strutil::dec_str;
use crate::strutil::push_decimal;

verus! {

/// The kinds of catalog item a search can ask for.
#[derive(Clone, Copy, PartialEq, Eq, Structural, Debug)]
pub enum SearchType {
    Album,
    Artist,
}

impl SearchType {
    /// The kind's name inside the `type` parameter.
    pub open spec fn spec_name(&self) -> Seq<char> {
        match self {
            SearchType::Album => "album"@,
            SearchType::Artist => "artist"@,
        }
    }

    /// The kind's name as text.
    pub fn name(&self) -> (r: &'static str)
        ensures
            r@ == self.spec_name(),
    {
        match self {
            SearchType::Album => "album",
            SearchType::Artist => "artist",
        }
    }
}

/// The names of the requested kinds, joined by commas.
pub open spec fn joined_types(ts: Seq<SearchType>) -> Seq<char>
    decreases ts.len(),
{
    if ts.len() == 0 {
        Seq::empty()
    } else if ts.len() == 1 {
        ts[0].spec_name()
    } else {
        ts[0].spec_name() + ","@ + joined_types(ts.drop_first())
    }
}

/// Extending the list appends one more name, with a comma once the
/// list was not empty.
proof fn lemma_joined_types_push(ts: Seq<SearchType>, t: SearchType)
    ensures
        joined_types(ts.push(t)) == if ts.len() == 0 {
            t.spec_name()
        } else {
            joined_types(ts) + ","@ + t.spec_name()
        },
    decreases ts.len(),
{
    if ts.len() == 0 {
        assert(ts.push(t)[0] == t);
        assert(joined_types(ts.push(t)) == t.spec_name());
    } else if ts.len() == 1 {
        assert(ts.push(t)[0] == ts[0]);
        assert(ts.push(t).drop_first() =~= seq![t]);
        assert(seq![t][0] == t);
        assert(joined_types(seq![t]) == t.spec_name());
        assert(joined_types(ts.push(t)) =~= joined_types(ts) + ","@ + t.spec_name());
    } else {
        assert(ts.push(t)[0] == ts[0]);
        assert(ts.push(t).drop_first() =~= ts.drop_first().push(t));
        lemma_joined_types_push(ts.drop_first(), t);
        assert(joined_types(ts.push(t)) =~= joined_types(ts) + ","@ + t.spec_name());
    }
}

/// One typed search request: free text, the kinds asked for, and a
/// paging window.
pub struct SearchQuery {
    pub query: String,
    pub types: Vec<SearchType>,
    pub limit: usize,
    pub offset: usize,
}

/// The exact serialization of a search: fixed key order `type`, `q`,
/// `offset`, `limit`, `market`, with the kinds joined by commas, the
/// free text form-encoded after literal `?` are dropped, and the
/// market pinned to the token's country.
pub open spec fn spec_search_query_string(q: SearchQuery) -> Seq<char> {
    "type="@ + joined_types(q.types@) + "&q="@ + form_encoded_bytes(
        strip_question_marks(encode_utf8(q.query@)),
    ) + "&offset="@ + dec_str(q.offset as nat) + "&limit="@ + dec_str(q.limit as nat)
        + "&market=from_token"@
}

impl SearchQuery {
    /// Serializes the search into its query string.
    pub fn into_query_string(self) -> (r: String)
        ensures
            r@ == spec_search_query_string(self),
    {
        let mut out = String::new();
        out.append("type=");
        let n = self.types.len();
        let mut i: usize = 0;
        proof {
            assert(self.types@.take(0) =~= Seq::<SearchType>::empty());
            assert(out@ =~= "type="@ + joined_types(self.types@.take(0)));
        }
        while i < n
            invariant
                i <= n,
                n == self.types@.len(),
                out@ == "type="@ + joined_types(self.types@.take(i as int)),
        decreases n - i,
        {
            if i > 0 {
                out.append(",");
            }
            let t = self.types[i];
            out.append(t.name());
            proof {
                assert(self.types@.take(i as int).push(t) =~= self.types@.take(i + 1));
                lemma_joined_types_push(self.types@.take(i as int), t);
                assert(out@ =~= "type="@ + joined_types(self.types@.take(i + 1)));
            }
            i = i + 1;
        }
        proof {
            assert(self.types@.take(n as int) =~= self.types@);
        }
        out.append("&q=");
        let stripped = bytes_without_question_marks(self.query.as_str());
        let encoded = form_encode(stripped.as_slice());
        out.append(encoded.as_str());
        out.append("&offset=");
        push_decimal(&mut out, self.offset);
        out.append("&limit=");
        push_decimal(&mut out, self.limit);
        out.append("&market=from_token");
        proof {
            assert(out@ =~= spec_search_query_string(self));
        }
        out
    }
}

} // verus!
