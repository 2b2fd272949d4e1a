//! The address of a request: an absolute URL, and the parameters attached to
//! it as its query.

use vstd::prelude::*;
use vstd::string::*;
use crate::error::Error;
use crate::query::QueryParameterSet;

verus! {

/// What `url::Url::parse` makes of a text: the URL in its normal form, or the
/// words in which the text is refused.
pub uninterp spec fn parsed_url(input: Seq<char>) -> Result<Seq<char>, Seq<char>>;

/// What `url::Url::parse_with_params` makes of a text and a list of pairs: the
/// URL with the pairs added to its query, or the words in which the text is
/// refused.
pub uninterp spec fn url_with_params(
    input: Seq<char>,
    pairs: Seq<(Seq<char>, Seq<char>)>,
) -> Result<Seq<char>, Seq<char>>;

/// The most characters that an address and its parameters may have together,
/// so that the finished URL stays below the four gigabytes that a URL can
/// have even where every character takes twelve bytes.
pub const COMPOSE_LIMIT: usize = 0x0fff_ffff;

/// The characters of all names and values, and one more for each pair.
pub open spec fn pairs_weight(pairs: Seq<(Seq<char>, Seq<char>)>) -> nat
    decreases pairs.len(),
{
    if pairs.len() == 0 {
        0
    } else {
        pairs_weight(pairs.drop_last()) + pairs.last().0.len() + pairs.last().1.len() + 1
    }
}

/// Whether an address and its parameters are short enough to be composed.
pub open spec fn fits(base: Seq<char>, pairs: Seq<(Seq<char>, Seq<char>)>) -> bool {
    base.len() + pairs_weight(pairs) <= COMPOSE_LIMIT
}

/// Whether a request can be sent to an address with parameters: the address
/// is an absolute URL, and with parameters the two are short enough.
pub open spec fn sendable(base: Seq<char>, pairs: Seq<(Seq<char>, Seq<char>)>) -> bool {
    parsed_url(base) is Ok && (pairs.len() == 0 || fits(base, pairs))
}

/// The words in which too long an address is refused.
pub open spec fn too_long_text() -> Seq<char> {
    "address and query are too long"@
}

/// The URL of a request, or the words in which it is refused. The address
/// must be an absolute URL. Without parameters the URL is the address in its
/// normal form; with parameters they become its query.
pub open spec fn composed_url(base: Seq<char>, pairs: Seq<(Seq<char>, Seq<char>)>) -> Result<
    Seq<char>,
    Seq<char>,
> {
    match parsed_url(base) {
        Err(words) => Err(words),
        Ok(url) => if pairs.len() == 0 {
            Ok(url)
        } else if !fits(base, pairs) {
            Err(too_long_text())
        } else {
            url_with_params(base, pairs)
        },
    }
}

/// Calls `url::Url::parse` and hands back the URL as text, or the error in
/// its own words. The contract only names the outcome: nothing is claimed
/// about which texts are URLs.
#[verifier::external_body]
fn parse_url(input: &str) -> (r: Result<String, String>)
    ensures
        match r {
            Ok(url) => parsed_url(input@) == Ok::<Seq<char>, Seq<char>>(url@),
            Err(words) => parsed_url(input@) == Err::<Seq<char>, Seq<char>>(words@),
        },
{
    match url::Url::parse(input) {
        Ok(url) => Ok(String::from(url)),
        Err(e) => Err(e.to_string()),
    }
}

/// Calls `url::Url::parse_with_params` with the parameters as pairs of name
/// and value. The contract names the outcome and adds what the function's
/// source shows: it fails exactly where `url::Url::parse` fails on the same
/// text, and with the same error. The bound keeps the finished URL below the
/// size at which the outside code stops.
#[verifier::external_body]
fn parse_url_with_params(input: &str, set: &QueryParameterSet) -> (r: Result<String, String>)
    requires
        fits(input@, set@),
    ensures
        match r {
            Ok(url) => url_with_params(input@, set@) == Ok::<Seq<char>, Seq<char>>(url@),
            Err(words) => url_with_params(input@, set@) == Err::<Seq<char>, Seq<char>>(words@),
        },
        r is Err ==> parsed_url(input@) == Err::<Seq<char>, Seq<char>>(r->Err_0@),
        r is Ok ==> parsed_url(input@) is Ok,
{
    let pairs = set.entries.iter().map(|p| (p.name.as_str(), p.value.as_str()));
    match url::Url::parse_with_params(input, pairs) {
        Ok(url) => Ok(String::from(url)),
        Err(e) => Err(e.to_string()),
    }
}

/// Whether the address and the parameters are short enough to be composed.
pub fn within_limit(base: &str, set: &QueryParameterSet) -> (r: bool)
    ensures
        r == fits(base@, set@),
{
    let base_len: usize = base.unicode_len();
    if base_len > COMPOSE_LIMIT {
        return false;
    }
    let mut total: usize = base_len;
    let mut i: usize = 0;
    while i < set.entries.len()
        invariant
            i <= set.entries@.len(),
            set@.len() == set.entries@.len(),
            base_len == base@.len(),
            total == base_len + pairs_weight(set@.take(i as int)),
            total <= COMPOSE_LIMIT,
        decreases set.entries@.len() - i,
    {
        let name_len: usize = set.entries[i].name.as_str().unicode_len();
        let value_len: usize = set.entries[i].value.as_str().unicode_len();
        proof {
            let next = set@.take(i + 1);
            assert(next.drop_last() =~= set@.take(i as int));
            assert(next.last() == set@[i as int]);
            lemma_weight_grows(set@, i + 1);
        }
        if name_len > COMPOSE_LIMIT || value_len > COMPOSE_LIMIT {
            return false;
        }
        let step: usize = name_len + value_len + 1;
        if step > COMPOSE_LIMIT - total {
            return false;
        }
        total = total + step;
        i = i + 1;
    }
    proof {
        assert(set@.take(i as int) =~= set@);
    }
    true
}

/// The weight of the first pairs is never more than that of all.
pub proof fn lemma_weight_grows(pairs: Seq<(Seq<char>, Seq<char>)>, n: int)
    requires
        0 <= n <= pairs.len(),
    ensures
        pairs_weight(pairs.take(n)) <= pairs_weight(pairs),
    decreases pairs.len(),
{
    if n == pairs.len() {
        assert(pairs.take(n) =~= pairs);
    } else {
        assert(pairs.drop_last().take(n) =~= pairs.take(n));
        lemma_weight_grows(pairs.drop_last(), n);
    }
}

/// Whether a text is an absolute URL.
pub fn validate(text: &str) -> (r: bool)
    ensures
        r == (parsed_url(text@) is Ok),
{
    parse_url(text).is_ok()
}

/// Validates the address and attaches the parameters as its query. Nothing is
/// sent: an address that is no absolute URL is refused here, before any
/// exchange can begin.
pub fn compose(base: &str, set: &QueryParameterSet) -> (r: Result<String, Error>)
    ensures
        match r {
            Ok(url) => composed_url(base@, set@) == Ok::<Seq<char>, Seq<char>>(url@),
            Err(Error::Url { message }) => composed_url(base@, set@) == Err::<
                Seq<char>,
                Seq<char>,
            >(message@),
            Err(_) => false,
        },
        r is Ok <==> sendable(base@, set@),
{
    match parse_url(base) {
        Err(words) => Err(Error::Url { message: words }),
        Ok(url) => {
            if set.len() == 0 {
                Ok(url)
            } else if !within_limit(base, set) {
                Err(Error::Url { message: "address and query are too long".to_owned() })
            } else {
                match parse_url_with_params(base, set) {
                    Ok(full) => Ok(full),
                    Err(words) => Err(Error::Url { message: words }),
                }
            }
        },
    }
}

} // verus!
