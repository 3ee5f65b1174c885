use crate::http::RequestError;
use crate::redirect::RedirectParams;
use vstd::prelude::*;

verus! {

#[verifier::external_type_specification]
#[verifier::external_body]
pub struct ExQueryPayloadError(actix_web::error::QueryPayloadError);

/// The name/value pairs that URL-encoded form decoding yields for a query
/// string, in order, or `None` where decoding fails.
pub uninterp spec fn decoded_query(q: Seq<char>) -> Option<Seq<(Seq<char>, Seq<char>)>>;

/// The decoded pairs as character sequences.
pub open spec fn pairs_view(v: Seq<(String, String)>) -> Seq<(Seq<char>, Seq<char>)> {
    v.map_values(|p: (String, String)| (p.0@, p.1@))
}

/// The values given for `key`, in the order in which they appear.
pub open spec fn values_of(pairs: Seq<(Seq<char>, Seq<char>)>, key: Seq<char>) -> Seq<Seq<char>>
    decreases pairs.len(),
{
    if pairs.len() == 0 {
        Seq::empty()
    } else {
        let rest = values_of(pairs.drop_last(), key);
        if pairs.last().0 == key {
            rest.push(pairs.last().1)
        } else {
            rest
        }
    }
}

/// The name of the parameter that both redirect endpoints require.
pub open spec fn redirect_key() -> Seq<char> {
    "redirect_url"@
}

/// The parameters of a redirect, read from decoded pairs: present when the
/// required name occurs exactly once (other names are ignored).
pub open spec fn params_from_pairs_spec(pairs: Seq<(Seq<char>, Seq<char>)>) -> Option<Seq<char>> {
    let vs = values_of(pairs, redirect_key());
    if vs.len() == 1 {
        Some(vs[0])
    } else {
        None
    }
}

/// The parameters of a redirect, read from a raw query string.
pub open spec fn params_from_query_spec(q: Seq<char>) -> Option<Seq<char>> {
    match decoded_query(q) {
        Some(pairs) => params_from_pairs_spec(pairs),
        None => None,
    }
}

/// Relies on `actix_web::web::Query::from_query`, which hands the query string
/// to `serde_urlencoded` and deserializes the pairs in order; an empty query
/// string holds no pairs.
#[verifier::external_body]
fn decode_query(q: &str) -> (r: Result<Vec<(String, String)>, actix_web::error::QueryPayloadError>)
    ensures
        r is Ok ==> decoded_query(q@) == Some(pairs_view(r->Ok_0@)),
        r is Err ==> decoded_query(q@) is None,
        q@.len() == 0 ==> r is Ok && r->Ok_0@.len() == 0,
{
    actix_web::web::Query::<Vec<(String, String)>>::from_query(q).map(|p| p.into_inner())
}

/// Reads the redirect parameters from decoded pairs: `BadRequest` when
/// `redirect_url` is missing or given more than once.
pub fn redirect_params_from_pairs(pairs: &Vec<(String, String)>) -> (r: Result<
    RedirectParams,
    RequestError,
>)
    ensures
        match params_from_pairs_spec(pairs_view(pairs@)) {
            Some(url) => r matches Ok(p) && p.redirect_url@ == url,
            None => r == Err::<RedirectParams, RequestError>(RequestError::BadRequest),
        },
{
    let key: String = "redirect_url".to_owned();
    let ghost pv = pairs_view(pairs@);
    let mut count: usize = 0;
    let mut first: Option<String> = None;
    let mut i: usize = 0;
    while i < pairs.len()
        invariant
            0 <= i <= pairs.len(),
            pv == pairs_view(pairs@),
            key@ == redirect_key(),
            count <= i,
            count == values_of(pv.take(i as int), key@).len(),
            count > 0 ==> (first matches Some(f) && f@ == values_of(pv.take(i as int), key@)[0]),
        decreases pairs.len() - i,
    {
        let pair = &pairs[i];
        proof {
            assert(pv.take(i + 1).drop_last() =~= pv.take(i as int));
            assert(pv.take(i + 1).last() == (pair.0@, pair.1@));
        }
        if pair.0 == key {
            if count == 0 {
                first = Some(pair.1.clone());
            }
            count = count + 1;
        }
        i = i + 1;
    }
    assert(pv.take(i as int) =~= pv);
    if count == 1 {
        match first {
            Some(url) => Ok(RedirectParams { redirect_url: url }),
            None => Err(RequestError::BadRequest),
        }
    } else {
        Err(RequestError::BadRequest)
    }
}

/// Reads the redirect parameters from a raw query string: `BadRequest` when
/// it cannot be decoded, or `redirect_url` is missing or repeated.
pub fn redirect_params(query: &str) -> (r: Result<RedirectParams, RequestError>)
    ensures
        match params_from_query_spec(query@) {
            Some(url) => r matches Ok(p) && p.redirect_url@ == url,
            None => r == Err::<RedirectParams, RequestError>(RequestError::BadRequest),
        },
{
    match decode_query(query) {
        Ok(pairs) => redirect_params_from_pairs(&pairs),
        Err(_) => Err(RequestError::BadRequest),
    }
}

} // verus!
