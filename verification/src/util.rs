//! The request metadata every gRPC call carries: the `authorization` bearer
//! header and the `x-goog-request-params` routing header.

use vstd::prelude::*;
use vstd::string::*;
use crate::encoding::push_str_chars;
use crate::encoding::string_from_chars;

verus! {

/// The two metadata values attached to a gRPC request.
pub struct RequestMetadata {
    /// The `authorization` value: `Bearer ` followed by the token.
    pub authorization: String,
    /// The `x-goog-request-params` value: the routing pairs as
    /// `key=value`, joined with `&`.
    pub request_params: String,
}

/// A gRPC call, described by its metadata and its request message.
pub struct GrpcCall<T> {
    /// The metadata the call carries.
    pub metadata: RequestMetadata,
    /// The request message it sends.
    pub message: T,
}

/// The `authorization` header value for a bearer token.
pub open spec fn spec_bearer(token: Seq<char>) -> Seq<char> {
    "Bearer "@ + token
}

/// One routing pair, written `key=value`.
pub open spec fn spec_kv(p: (Seq<char>, Seq<char>)) -> Seq<char> {
    p.0 + seq!['='] + p.1
}

/// The routing pairs joined with `&`; empty when there are none.
pub open spec fn spec_request_params(headers: Seq<(Seq<char>, Seq<char>)>) -> Seq<char>
    decreases headers.len(),
{
    if headers.len() == 0 {
        Seq::empty()
    } else if headers.len() == 1 {
        spec_kv(headers[0])
    } else {
        spec_kv(headers[0]) + seq!['&'] + spec_request_params(headers.drop_first())
    }
}

/// The views of a list of routing pairs.
pub open spec fn spec_header_views(headers: Seq<(String, String)>) -> Seq<(Seq<char>, Seq<char>)> {
    headers.map_values(|p: (String, String)| (p.0@, p.1@))
}

/// Appending one more pair extends the joined params by `&` and the pair
/// (or is the pair itself, when there were none).
proof fn lemma_request_params_snoc(headers: Seq<(Seq<char>, Seq<char>)>, p: (Seq<char>, Seq<char>))
    ensures
        spec_request_params(headers.push(p)) == if headers.len() == 0 {
            spec_kv(p)
        } else {
            spec_request_params(headers) + seq!['&'] + spec_kv(p)
        },
    decreases headers.len(),
{
    if headers.len() == 0 {
        assert(headers.push(p)[0] == p);
        assert(headers.push(p).len() == 1);
    } else {
        assert(headers.push(p).drop_first() =~= headers.drop_first().push(p));
        lemma_request_params_snoc(headers.drop_first(), p);
        if headers.len() == 1 {
            assert(spec_request_params(headers) == spec_kv(headers[0]));
            assert(headers.push(p)[0] == headers[0]);
        } else {
            assert(spec_request_params(headers.push(p)) =~= spec_request_params(headers)
                + seq!['&'] + spec_kv(p));
        }
    }
}

/// Build the metadata of one gRPC request: the bearer value for `token` and
/// the routing pairs of `headers` joined as `key=value&key=value`.
pub fn construct_request(token: &str, headers: &Vec<(String, String)>) -> (r: RequestMetadata)
    ensures
        r.authorization@ == spec_bearer(token@),
        r.request_params@ == spec_request_params(spec_header_views(headers@)),
{
    let mut auth: Vec<char> = Vec::new();
    push_str_chars(&mut auth, "Bearer ");
    push_str_chars(&mut auth, token);

    let mut params: Vec<char> = Vec::new();
    let mut i: usize = 0;
    while i < headers.len()
        invariant
            i <= headers.len(),
            params@ == spec_request_params(spec_header_views(headers@.subrange(0, i as int))),
        decreases headers.len() - i,
    {
        if i > 0 {
            params.push('&');
        }
        push_str_chars(&mut params, headers[i].0.as_str());
        params.push('=');
        push_str_chars(&mut params, headers[i].1.as_str());
        proof {
            let prefix = spec_header_views(headers@.subrange(0, i as int));
            let pair = (headers@[i as int].0@, headers@[i as int].1@);
            assert(spec_header_views(headers@.subrange(0, i + 1 as int)) =~= prefix.push(pair));
            lemma_request_params_snoc(prefix, pair);
            if i == 0 {
                assert(params@ =~= spec_kv(pair));
            } else {
                assert(params@ =~= spec_request_params(prefix) + seq!['&'] + spec_kv(pair));
            }
        }
        i = i + 1;
    }
    proof {
        assert(headers@.subrange(0, headers@.len() as int) =~= headers@);
    }

    RequestMetadata {
        authorization: string_from_chars(auth),
        request_params: string_from_chars(params),
    }
}

} // verus!
