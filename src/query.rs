//! Query strings of the flow: encoding the authorization request's
//! parameters, and reading the code and state out of the redirect.
//!
//! The percent-encoding and -decoding are serde_qs's, and the URL grammar is
//! http's (through httpclient); this module composes them.
use vstd::prelude::*;

use crate::step2_exchange::RedirectData;
use crate::FlowError;

verus! {

#[verifier::external_type_specification]
#[verifier::external_body]
pub struct ExQsError(serde_qs::Error);

#[verifier::external_type_specification]
#[verifier::external_body]
pub struct ExUri(httpclient::Uri);

/// `key=value` as serde_qs writes a one-entry query, or `None` where it
/// refuses the pair.
pub uninterp spec fn query_pair(key: Seq<char>, value: Seq<char>) -> Option<Seq<char>>;

/// The entries that serde_qs reads out of a query into a map of strings,
/// ordered by key, or `None` where it refuses the query.
pub uninterp spec fn query_entries(query: Seq<char>) -> Option<Seq<(Seq<char>, Seq<char>)>>;

/// Whether http's URI parser accepts the text.
pub uninterp spec fn uri_parses(text: Seq<char>) -> bool;

/// The URI that http's parser makes of the text, where it accepts it.
pub uninterp spec fn parsed_uri(text: Seq<char>) -> httpclient::Uri;

/// The query component of the text as http's URI parser reads it, or `None`
/// where the text is no URI or has no query.
pub uninterp spec fn uri_query(text: Seq<char>) -> Option<Seq<char>>;

/// Relies on serde_qs::to_string: the encoding of a map with one entry.
#[verifier::external_body]
fn encode_pair(key: &str, value: &str) -> (r: Result<String, serde_qs::Error>)
    ensures
        match r {
            Ok(s) => query_pair(key@, value@) == Some(s@),
            Err(_) => query_pair(key@, value@) is None,
        },
{
    serde_qs::to_string(&std::collections::BTreeMap::from([(key, value)]))
}

/// Relies on serde_qs::from_str: a query read into a map of strings.
#[verifier::external_body]
fn decode_entries(query: &str) -> (r: Result<Vec<(String, String)>, serde_qs::Error>)
    ensures
        match r {
            Ok(v) => query_entries(query@) == Some(pairs_view(v@)),
            Err(_) => query_entries(query@) is None,
        },
{
    serde_qs::from_str::<std::collections::BTreeMap<String, String>>(query).map(
        |m| m.into_iter().collect(),
    )
}

/// Relies on `Uri as FromStr` (http, re-exported by httpclient).
#[verifier::external_body]
pub(crate) fn parse_uri(text: &str) -> (r: Option<httpclient::Uri>)
    ensures
        r is Some == uri_parses(text@),
        r matches Some(u) ==> u == parsed_uri(text@),
{
    text.parse::<httpclient::Uri>().ok()
}

/// Relies on `Uri as FromStr` and `Uri::query` (http, re-exported by
/// httpclient): the query component of a parsed URI.
#[verifier::external_body]
fn query_of_uri(text: &str) -> (r: Option<String>)
    ensures
        match r {
            Some(q) => uri_query(text@) == Some(q@),
            None => uri_query(text@) is None,
        },
{
    text.parse::<httpclient::Uri>().ok().and_then(|u| u.query().map(|q| q.to_string()))
}

/// The views of a list of string pairs.
pub open spec fn pairs_view(v: Seq<(String, String)>) -> Seq<(Seq<char>, Seq<char>)> {
    v.map_values(|p: (String, String)| (p.0@, p.1@))
}

/// The views of a list of strings.
pub open spec fn strings_view(v: Seq<String>) -> Seq<Seq<char>> {
    v.map_values(|s: String| s@)
}

/// The parts joined by `&`.
pub open spec fn joined(parts: Seq<Seq<char>>) -> Seq<char>
    decreases parts.len(),
{
    if parts.len() == 0 {
        Seq::empty()
    } else if parts.len() == 1 {
        parts[0]
    } else {
        joined(parts.drop_last()) + "&"@ + parts.last()
    }
}

/// Every pair is one that serde_qs encodes.
pub open spec fn all_encodable(ps: Seq<(Seq<char>, Seq<char>)>) -> bool {
    forall|i: int| 0 <= i < ps.len() ==> (#[trigger] query_pair(ps[i].0, ps[i].1)) is Some
}

/// The encodings of the pairs, in order.
pub open spec fn encodings(ps: Seq<(Seq<char>, Seq<char>)>) -> Seq<Seq<char>> {
    ps.map_values(|p: (Seq<char>, Seq<char>)| query_pair(p.0, p.1)->Some_0)
}

/// The query string of the pairs: each encoded, joined by `&`; `None` where
/// one of them cannot be encoded.
pub open spec fn encoded_query(ps: Seq<(Seq<char>, Seq<char>)>) -> Option<Seq<char>> {
    if all_encodable(ps) {
        Some(joined(encodings(ps)))
    } else {
        None
    }
}

/// Joins encoded `key=value` parts into a query string.
pub fn join_query(parts: &Vec<String>) -> (r: String)
    ensures
        r@ == joined(strings_view(parts@)),
{
    let ghost views = strings_view(parts@);
    let mut out = String::new();
    let mut i: usize = 0;
    while i < parts.len()
        invariant
            i <= parts.len(),
            views == strings_view(parts@),
            out@ == joined(views.take(i as int)),
        decreases parts.len() - i,
    {
        assert(views.take(i + 1).drop_last() =~= views.take(i as int));
        if i > 0 {
            out.append("&");
        }
        out.append(parts[i].as_str());
        i = i + 1;
    }
    assert(views.take(i as int) =~= views);
    out
}

/// Encodes the pairs as a query string, in the order given.
pub fn encode_query(params: &Vec<(String, String)>) -> (r: Result<String, FlowError>)
    ensures
        match r {
            Ok(s) => encoded_query(pairs_view(params@)) == Some(s@),
            Err(e) => encoded_query(pairs_view(params@)) is None && e == FlowError::Config,
        },
{
    let ghost ps = pairs_view(params@);
    let mut parts: Vec<String> = Vec::new();
    let mut i: usize = 0;
    while i < params.len()
        invariant
            i <= params.len(),
            ps == pairs_view(params@),
            parts@.len() == i,
            all_encodable(ps.take(i as int)),
            strings_view(parts@) =~= encodings(ps.take(i as int)),
        decreases params.len() - i,
    {
        let (key, value) = &params[i];
        assert(ps[i as int] == (key@, value@));
        match encode_pair(key.as_str(), value.as_str()) {
            Ok(p) => {
                let ghost prev = parts@;
                parts.push(p);
                assert(ps.take(i + 1) =~= ps.take(i as int).push(ps[i as int]));
                assert forall|j: int| 0 <= j < i + 1 implies #[trigger] strings_view(parts@)[j] == encodings(ps.take(i + 1))[j] by {
                    if j < i {
                        assert(parts@[j] == prev[j]);
                        assert(strings_view(prev)[j] == encodings(
                            ps.take(i as int),
                        )[j]);
                    }
                }
                assert(all_encodable(ps.take(i + 1))) by {
                    assert forall|j: int| 0 <= j < i + 1 implies (#[trigger] query_pair(
                        ps.take(i + 1)[j].0,
                        ps.take(i + 1)[j].1,
                    )) is Some by {
                        if j < i {
                            assert(ps.take(i + 1)[j] == ps.take(i as int)[j]);
                        }
                    }
                }
            },
            Err(_) => {
                assert(query_pair(ps[i as int].0, ps[i as int].1) is None);
                return Err(FlowError::Config);
            },
        }
        i = i + 1;
    }
    assert(ps.take(i as int) =~= ps);
    Ok(join_query(&parts))
}

/// The value of the first entry whose key is `key`.
pub open spec fn lookup(es: Seq<(Seq<char>, Seq<char>)>, key: Seq<char>) -> Option<Seq<char>>
    decreases es.len(),
{
    if es.len() == 0 {
        None
    } else {
        match lookup(es.drop_last(), key) {
            Some(v) => Some(v),
            None => if es.last().0 == key {
                Some(es.last().1)
            } else {
                None
            },
        }
    }
}

fn find_entry(entries: &Vec<(String, String)>, key: &String) -> (r: Option<String>)
    ensures
        match r {
            Some(v) => lookup(pairs_view(entries@), key@) == Some(v@),
            None => lookup(pairs_view(entries@), key@) is None,
        },
{
    let ghost es = pairs_view(entries@);
    let mut found: Option<String> = None;
    let mut i: usize = 0;
    assert(es.take(0) =~= Seq::<(Seq<char>, Seq<char>)>::empty());
    while i < entries.len()
        invariant
            i <= entries.len(),
            es == pairs_view(entries@),
            match found {
                Some(v) => lookup(es.take(i as int), key@) == Some(v@),
                None => lookup(es.take(i as int), key@) is None,
            },
        decreases entries.len() - i,
    {
        assert(es.take(i + 1).drop_last() =~= es.take(i as int));
        assert(es[i as int] == (entries[i as int].0@, entries[i as int].1@));
        if found.is_none() && entries[i].0.eq(key) {
            found = Some(entries[i].1.clone());
        }
        i = i + 1;
    }
    assert(es.take(i as int) =~= es);
    found
}

/// The grant that the redirect's query entries `es` carry: its `code`, which
/// must be there, and its `state`, if any.
pub open spec fn grant_of(es: Seq<(Seq<char>, Seq<char>)>) -> Option<(Seq<char>, Option<Seq<char>>)> {
    match lookup(es, "code"@) {
        Some(code) => Some((code, lookup(es, "state"@))),
        None => None,
    }
}

/// `r` is the grant that `g` describes.
pub open spec fn is_grant(r: RedirectData, g: (Seq<char>, Option<Seq<char>>)) -> bool {
    &&& r.code@ == g.0
    &&& match r.state {
        Some(s) => g.1 == Some(s@),
        None => g.1 is None,
    }
}

/// Reads the grant out of a redirect's decoded query entries.
pub fn grant_from_entries(entries: &Vec<(String, String)>) -> (r: Result<RedirectData, FlowError>)
    ensures
        match r {
            Ok(d) => grant_of(pairs_view(entries@)) matches Some(g) && is_grant(d, g),
            Err(e) => grant_of(pairs_view(entries@)) is None && e == FlowError::MalformedRedirect,
        },
{
    let code = find_entry(entries, &String::from_str("code"));
    let state = find_entry(entries, &String::from_str("state"));
    match code {
        Some(code) => Ok(RedirectData { code, state }),
        None => Err(FlowError::MalformedRedirect),
    }
}

/// The grant that a redirect URL carries: the entries of its query, as
/// serde_qs reads them, must hold a `code`.
pub open spec fn redirect_grant(url: Seq<char>) -> Option<(Seq<char>, Option<Seq<char>>)> {
    match uri_query(url) {
        Some(q) => match query_entries(q) {
            Some(es) => grant_of(es),
            None => None,
        },
        None => None,
    }
}

/// Reads the grant out of a redirect URL.
pub fn grant_from_url(url: &str) -> (r: Result<RedirectData, FlowError>)
    ensures
        match r {
            Ok(d) => redirect_grant(url@) matches Some(g) && is_grant(d, g),
            Err(e) => redirect_grant(url@) is None && e == FlowError::MalformedRedirect,
        },
{
    match query_of_uri(url) {
        Some(q) => match decode_entries(q.as_str()) {
            Ok(entries) => grant_from_entries(&entries),
            Err(_) => Err(FlowError::MalformedRedirect),
        },
        None => Err(FlowError::MalformedRedirect),
    }
}

} // verus!
