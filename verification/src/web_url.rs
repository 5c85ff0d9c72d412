use vstd::prelude::*;
use crate::text::option_text;

verus! {

/// What `url::Url::parse` makes of `input`: the serialization of the URL it
/// parsed, or `None` where it rejects the input.
pub uninterp spec fn parsed_url(input: Seq<char>) -> Option<Seq<char>>;

/// What `url::Url::join` makes of `reference` on the URL that
/// `url::Url::parse` reads from `base`: the serialization of the joined URL,
/// or `None` where either call rejects its input.
pub uninterp spec fn joined_url(base: Seq<char>, reference: Seq<char>) -> Option<Seq<char>>;

/// Calls `url::Url::parse` and hands back the serialization of the URL it
/// returns. The contract only gives that result its name: it depends on the
/// input alone.
#[verifier::external_body]
pub(crate) fn parse_url(input: &str) -> (canonical: Option<String>)
    ensures
        option_text(canonical) == parsed_url(input@),
{
    match url::Url::parse(input) {
        Ok(parsed) => Some(String::from(parsed)),
        Err(_) => None,
    }
}

/// Calls `url::Url::join` on the URL parsed from `base` and hands back the
/// serialization of the joined URL. The contract gives that result its name,
/// as it depends on the two inputs alone, and says that nothing is joined to
/// a base that `url::Url::parse` rejects.
#[verifier::external_body]
pub(crate) fn join_url(base: &str, reference: &str) -> (joined: Option<String>)
    ensures
        option_text(joined) == joined_url(base@, reference@),
        parsed_url(base@) is None ==> joined is None,
{
    match url::Url::parse(base) {
        Ok(parsed) => match parsed.join(reference) {
            Ok(target) => Some(String::from(target)),
            Err(_) => None,
        },
        Err(_) => None,
    }
}

/// The canonical form of a URL that may be missing.
pub open spec fn parsed_field(field: Option<Seq<char>>) -> Option<Seq<char>> {
    match field {
        Some(text) => parsed_url(text),
        None => None,
    }
}

/// The canonical form of a URL that may be missing.
pub(crate) fn parse_field(field: &Option<String>) -> (canonical: Option<String>)
    ensures
        option_text(canonical) == parsed_field(option_text(*field)),
{
    match field {
        Some(text) => parse_url(text.as_str()),
        None => None,
    }
}

} // verus!
