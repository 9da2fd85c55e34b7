//! Assembly of the redirect location: the client's redirect URI with the
//! token material appended to its query.

use vstd::prelude::*;
use url::ParseError;
use url::Url;
use crate::error::ServerError;
use crate::error::ServerErrorView;
use crate::error::REDIRECT_URI_MALFORMED;
use crate::error::REDIRECT_URI_TOO_LONG;
use crate::text::utf8_len;

verus! {

/// `url::Url`, a parsed URL record. Nothing inside it is visible here but
/// its serialization, see [`url_text`].
#[verifier::external_type_specification]
#[verifier::external_body]
pub struct ExUrl(url::Url);

/// `url::ParseError`, the reason why an input is no absolute URL. It is
/// carried, never looked into.
#[verifier::external_type_specification]
#[verifier::external_body]
pub struct ExParseError(url::ParseError);

/// The serialization that a parsed URL holds: the string that it was
/// normalised to.
pub uninterp spec fn url_text(url: Url) -> Seq<char>;

/// What `Url::parse` makes of `input`: the serialization of the URL that it
/// parses to as an absolute URL, `None` where it does not parse.
pub uninterp spec fn parsed_text(input: Seq<char>) -> Option<Seq<char>>;

/// What appending one pair to the query makes of a URL: the serialization
/// that a URL serialized as `text` has once the pair `name`, `value` was
/// form-encoded and appended.
pub uninterp spec fn text_with_pair(text: Seq<char>, name: Seq<char>, value: Seq<char>) -> Seq<
    char,
>;

/// `Url::parse` parses an absolute URL from a string. Trusted: whether it
/// succeeds, and the serialization of the URL that it gives, depend on the
/// input alone. Nothing is said of which inputs parse, nor to what.
pub assume_specification[ Url::parse ](input: &str) -> (parsed: Result<Url, ParseError>)
    ensures
        match parsed {
            Ok(url) => parsed_text(input@) == Some(url_text(url)),
            Err(_) => parsed_text(input@) is None,
        },
;

/// `Url::as_str` returns the serialization of the URL. Trusted: it is the
/// one that [`url_text`] names.
pub assume_specification[ Url::as_str ](url: &Url) -> (text: &str)
    ensures
        text@ == url_text(*url),
;

/// Whether a URL serialized as `text` has room for the pair: with the pair
/// appended the serialization stays within the 4 GiB that a URL's offsets
/// can address, even if every byte of the pair is escaped to three and both
/// separators are needed.
pub open spec fn pair_fits(text: Seq<char>, name: Seq<char>, value: Seq<char>) -> bool {
    utf8_len(text) + 3 * utf8_len(name) + 3 * utf8_len(value) + 3 <= u32::MAX
}

/// `Url::query_pairs_mut` followed by `Serializer::append_pair` on what it
/// returns: the pair is form-encoded and appended to the URL's query, before
/// the fragment. Trusted: the new serialization depends on the old one and
/// on the pair alone (where the query and the fragment start is, by the
/// crate's invariant on every `Url`, what parsing the serialization gives).
/// Nothing is said of what the new serialization is. The calls panic where
/// an offset into the serialization does not fit in 32 bits, which
/// [`pair_fits`] excludes.
#[verifier::external_body]
fn append_query_pair(url: &mut Url, name: &str, value: &str)
    requires
        pair_fits(url_text(*old(url)), name@, value@),
    ensures
        url_text(*final(url)) == text_with_pair(url_text(*old(url)), name@, value@),
{
    url.query_pairs_mut().append_pair(name, value);
}

/// Whether the URL has room for the pair, see [`pair_fits`].
pub fn has_room_for(url: &Url, name: &str, value: &str) -> (fits: bool)
    ensures
        fits == pair_fits(url_text(*url), name@, value@),
{
    let text_len = url.as_str().as_bytes().len() as u128;
    let name_len = name.as_bytes().len() as u128;
    let value_len = value.as_bytes().len() as u128;
    text_len + 3 * name_len + 3 * value_len + 3 <= u32::MAX as u128
}

/// One name/value pair of a query.
#[derive(Clone, Copy, Debug)]
pub struct QueryPair<'a> {
    pub name: &'a str,
    pub value: &'a str,
}

impl<'a> View for QueryPair<'a> {
    type V = (Seq<char>, Seq<char>);

    open spec fn view(&self) -> (Seq<char>, Seq<char>) {
        (self.name@, self.value@)
    }
}

/// The pairs of a list as plain values, in the list's order.
pub open spec fn pairs_text(pairs: Seq<QueryPair>) -> Seq<(Seq<char>, Seq<char>)> {
    pairs.map_values(|pair: QueryPair| pair@)
}

/// Whether a URL serialized as `text` has room for each of `pairs` in its
/// turn, the ones before it appended.
pub open spec fn pairs_fit(text: Seq<char>, pairs: Seq<(Seq<char>, Seq<char>)>) -> bool
    decreases pairs.len(),
{
    pairs.len() == 0 || (pair_fits(text, pairs[0].0, pairs[0].1) && pairs_fit(
        text_with_pair(text, pairs[0].0, pairs[0].1),
        pairs.drop_first(),
    ))
}

/// The serialization of a URL serialized as `text` once `pairs` were appended
/// to its query, first pair first, up to the first pair that finds no room.
pub open spec fn text_with_pairs(text: Seq<char>, pairs: Seq<(Seq<char>, Seq<char>)>) -> Seq<char>
    decreases pairs.len(),
{
    if pairs.len() == 0 || !pair_fits(text, pairs[0].0, pairs[0].1) {
        text
    } else {
        text_with_pairs(text_with_pair(text, pairs[0].0, pairs[0].1), pairs.drop_first())
    }
}

/// Appends `pairs` to the URL's query in their order and stops at the first
/// pair that finds no room. Tells whether all were appended.
pub fn append_pairs(url: &mut Url, pairs: &Vec<QueryPair>) -> (appended: bool)
    ensures
        appended == pairs_fit(url_text(*old(url)), pairs_text(pairs@)),
        url_text(*final(url)) == text_with_pairs(url_text(*old(url)), pairs_text(pairs@)),
{
    let ghost all = pairs_text(pairs@);
    let ghost start = url_text(*url);
    let mut i: usize = 0;
    assert(all.skip(0) == all);
    while i < pairs.len()
        invariant
            i <= pairs.len(),
            all == pairs_text(pairs@),
            start == url_text(*old(url)),
            pairs_fit(start, all) == pairs_fit(url_text(*url), all.skip(i as int)),
            text_with_pairs(start, all) == text_with_pairs(url_text(*url), all.skip(i as int)),
        decreases pairs.len() - i,
    {
        let pair = &pairs[i];
        proof {
            assert(all.skip(i as int)[0] == pair@);
            assert(all.skip(i as int).drop_first() == all.skip(i as int + 1));
        }
        if !has_room_for(url, pair.name, pair.value) {
            return false;
        }
        append_query_pair(url, pair.name, pair.value);
        i += 1;
    }
    true
}

/// The serialization that a parse outcome holds, `None` for a failed parse.
pub open spec fn parse_outcome_text(parsed: Result<Url, ParseError>) -> Option<Seq<char>> {
    match parsed {
        Ok(url) => Some(url_text(url)),
        Err(_) => None,
    }
}

/// The location built on a parsed redirect URI: its serialization with
/// `pairs` appended. A redirect URI that did not parse, or that has no room
/// for a pair, is an input error.
pub open spec fn located(base: Option<Seq<char>>, pairs: Seq<(Seq<char>, Seq<char>)>) -> Result<
    Seq<char>,
    ServerErrorView,
> {
    match base {
        None => Err(ServerErrorView::InputError(REDIRECT_URI_MALFORMED@)),
        Some(text) => if pairs_fit(text, pairs) {
            Ok(text_with_pairs(text, pairs))
        } else {
            Err(ServerErrorView::InputError(REDIRECT_URI_TOO_LONG@))
        },
    }
}

/// The location for the redirect URI `redirect_uri` and the pairs `pairs`.
pub open spec fn redirect_location_spec(
    redirect_uri: Seq<char>,
    pairs: Seq<(Seq<char>, Seq<char>)>,
) -> Result<Seq<char>, ServerErrorView> {
    located(parsed_text(redirect_uri), pairs)
}

/// A location or a failure as plain text.
pub open spec fn location_text(location: Result<String, ServerError>) -> Result<
    Seq<char>,
    ServerErrorView,
> {
    match location {
        Ok(text) => Ok(text@),
        Err(error) => Err(error@),
    }
}

/// Builds the location on the outcome of parsing the redirect URI.
pub fn locate(parsed: Result<Url, ParseError>, pairs: &Vec<QueryPair>) -> (location: Result<
    String,
    ServerError<'static>,
>)
    ensures
        location_text(location) == located(parse_outcome_text(parsed), pairs_text(pairs@)),
{
    match parsed {
        Ok(mut url) => {
            if append_pairs(&mut url, pairs) {
                Ok(url.as_str().to_owned())
            } else {
                Err(ServerError::InputError(REDIRECT_URI_TOO_LONG))
            }
        },
        Err(_) => Err(ServerError::InputError(REDIRECT_URI_MALFORMED)),
    }
}

/// Parses `redirect_uri` as an absolute URL and appends `pairs` to its query.
pub fn redirect_location(redirect_uri: &str, pairs: &Vec<QueryPair>) -> (location: Result<
    String,
    ServerError<'static>,
>)
    ensures
        location_text(location) == redirect_location_spec(redirect_uri@, pairs_text(pairs@)),
{
    locate(Url::parse(redirect_uri), pairs)
}

} // verus!
