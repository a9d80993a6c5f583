use vstd::prelude::*;

verus! {

/// The `url` crate's parse error, carried through unchanged.
#[verifier::external_type_specification]
#[verifier::external_body]
pub struct ExUrlParseError(url::ParseError);

/// The serialization that `url::Url::parse` gives for `input`, or `None` where
/// it refuses the input. The WHATWG URL grammar that decides this is not
/// restated here; the name ties each use to the same input.
pub uninterp spec fn parsed_url(input: Seq<char>) -> Option<Seq<char>>;

/// Calls `url::Url::parse` and hands back the serialization of the parsed URL.
/// Claimed of it: it returns `Ok` exactly when `parsed_url` of the input is
/// `Some`, and then the string is that serialization. Which `ParseError` comes
/// back on a refusal is left unsaid.
#[verifier::external_body]
pub(crate) fn parse_url(input: &str) -> (res: Result<String, url::ParseError>)
    ensures
        res is Ok <==> parsed_url(input@) is Some,
        res matches Ok(s) ==> parsed_url(input@) == Some(s@),
{
    match url::Url::parse(input) {
        Ok(parsed) => Ok(String::from(parsed)),
        Err(e) => Err(e),
    }
}

/// An HTTP status code in the success class, as `StatusCode::is_success` of
/// the `http` crate decides it.
pub open spec fn is_success_status(code: u16) -> bool {
    200 <= code < 300
}

/// Whether an HTTP status code is in the 2xx class.
pub fn status_is_success(code: u16) -> (res: bool)
    ensures
        res == is_success_status(code),
{
    200 <= code && code < 300
}

} // verus!
