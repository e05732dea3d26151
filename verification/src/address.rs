use crate::error_handling::UrlErrorKind;
use url::ParseError;
use vstd::prelude::*;

verus! {

/// The text of the URL that the `url` crate forms from an absolute address
/// and an ordered list of query parameters, or the reason it gives for
/// forming none.
pub uninterp spec fn parsed_url(input: Seq<char>, params: Seq<(Seq<char>, Seq<char>)>) -> Result<
    Seq<char>,
    UrlErrorKind,
>;

/// A URL or a failure, with the URL taken as the characters it is made of.
pub open spec fn outcome_view(r: Result<String, UrlErrorKind>) -> Result<Seq<char>, UrlErrorKind> {
    match r {
        Ok(text) => Ok(text@),
        Err(kind) => Err(kind),
    }
}

/// The largest number of characters (see [`url_weight`]) that may go into one
/// URL.
pub const URL_WEIGHT_LIMIT: usize = 1_000_000;

/// The characters of all keys and values, and two more for each pair (the
/// `=` and the `&` or `?` that go with it).
pub open spec fn params_weight(params: Seq<(Seq<char>, Seq<char>)>) -> nat
    decreases params.len(),
{
    if params.len() == 0 {
        0
    } else {
        params_weight(params.drop_last()) + params.last().0.len() + params.last().1.len() + 2
    }
}

/// The number of characters that are handed to the URL parser.
pub open spec fn url_weight(input: Seq<char>, params: Seq<(Seq<char>, Seq<char>)>) -> nat {
    input.len() + params_weight(params)
}

/// Calls `url::Url::parse_with_params` and hands back the text of the URL it
/// returns, or its error under the name this library has for it. Nothing of
/// this is proved. The contract claims that the outcome depends on the
/// address and the parameters alone: it is the one [`parsed_url`] names for
/// them. What the text of the URL looks like is not claimed.
///
/// The parser keeps positions in 32 bits and panics when, with a fragment to
/// put back behind the query, the URL has outgrown them. The precondition
/// keeps the input at [`URL_WEIGHT_LIMIT`] characters, of which no escaping
/// makes four gigabytes.
#[verifier::external_body]
fn parse_with_params(input: &str, params: &Vec<(String, String)>) -> (r: Result<String, UrlErrorKind>)
    requires
        url_weight(input@, params.deep_view()) <= URL_WEIGHT_LIMIT,
    ensures
        outcome_view(r) == parsed_url(input@, params.deep_view()),
{
    match url::Url::parse_with_params(input, params) {
        Ok(u) => Ok(String::from(u)),
        Err(ParseError::EmptyHost) => Err(UrlErrorKind::EmptyHost),
        Err(ParseError::IdnaError) => Err(UrlErrorKind::IdnaError),
        Err(ParseError::InvalidPort) => Err(UrlErrorKind::InvalidPort),
        Err(ParseError::InvalidIpv4Address) => Err(UrlErrorKind::InvalidIpv4Address),
        Err(ParseError::InvalidIpv6Address) => Err(UrlErrorKind::InvalidIpv6Address),
        Err(ParseError::InvalidDomainCharacter) => Err(UrlErrorKind::InvalidDomainCharacter),
        Err(ParseError::RelativeUrlWithoutBase) => Err(UrlErrorKind::RelativeUrlWithoutBase),
        Err(ParseError::RelativeUrlWithCannotBeABaseBase) => Err(UrlErrorKind::RelativeUrlWithCannotBeABaseBase),
        Err(ParseError::SetHostOnCannotBeABaseUrl) => Err(UrlErrorKind::SetHostOnCannotBeABaseUrl),
        Err(ParseError::Overflow) => Err(UrlErrorKind::Overflow),
        Err(_) => Err(UrlErrorKind::Other),
    }
}

/// What [`build_url`] returns: an overflow for input above the limit, and
/// otherwise whatever the URL parser makes of it.
pub open spec fn url_for(input: Seq<char>, params: Seq<(Seq<char>, Seq<char>)>) -> Result<
    Seq<char>,
    UrlErrorKind,
> {
    if url_weight(input, params) > URL_WEIGHT_LIMIT {
        Err(UrlErrorKind::Overflow)
    } else {
        parsed_url(input, params)
    }
}

/// A prefix of a parameter list weighs no more than the whole list.
pub proof fn lemma_weight_of_prefix(params: Seq<(Seq<char>, Seq<char>)>, n: int)
    requires
        0 <= n <= params.len(),
    ensures
        params_weight(params.take(n)) <= params_weight(params),
    decreases params.len(),
{
    if n == params.len() {
        assert(params.take(n) =~= params);
    } else {
        assert(params.drop_last().take(n) =~= params.take(n));
        lemma_weight_of_prefix(params.drop_last(), n);
    }
}

/// Counts the characters that [`url_weight`] counts, and gives up as soon as
/// they pass the limit.
fn within_limit(input: &str, params: &Vec<(String, String)>) -> (r: bool)
    ensures
        r == (url_weight(input@, params.deep_view()) <= URL_WEIGHT_LIMIT),
{
    let ghost all = params.deep_view();
    let mut total: usize = input.unicode_len();
    if total > URL_WEIGHT_LIMIT {
        return false;
    }
    let mut i: usize = 0;
    while i < params.len()
        invariant
            i <= params.len(),
            all == params.deep_view(),
            total == input@.len() + params_weight(all.take(i as int)),
            total <= URL_WEIGHT_LIMIT,
        decreases params.len() - i,
    {
        let key: usize = params[i].0.as_str().unicode_len();
        let value: usize = params[i].1.as_str().unicode_len();
        proof {
            assert(all.take(i + 1).drop_last() =~= all.take(i as int));
            assert(all.take(i + 1).last() == (params[i as int].0@, params[i as int].1@));
            lemma_weight_of_prefix(all, i + 1);
        }
        if key > URL_WEIGHT_LIMIT || value > URL_WEIGHT_LIMIT || total + key + value + 2
            > URL_WEIGHT_LIMIT {
            return false;
        }
        total = total + key + value + 2;
        i = i + 1;
    }
    proof {
        assert(all.take(i as int) =~= all);
    }
    true
}

/// Forms the URL for an absolute address and an ordered list of query
/// parameters. Nothing is reordered and nothing is dropped before the
/// parameters reach the URL parser: it sees `params` as the caller gave them.
pub fn build_url(input: &str, params: &Vec<(String, String)>) -> (r: Result<String, UrlErrorKind>)
    ensures
        outcome_view(r) == url_for(input@, params.deep_view()),
{
    if within_limit(input, params) {
        parse_with_params(input, params)
    } else {
        Err(UrlErrorKind::Overflow)
    }
}

} // verus!
