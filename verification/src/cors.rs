//! The cross-origin policy: four access-control headers, set on every
//! response whatever its status or body.

use vstd::prelude::*;

verus! {

/// `rocket::Request`. Of a request only its headers are read, through
/// [`request_headers`].
#[verifier::external_type_specification]
#[verifier::external_body]
pub struct ExRequest<'r>(rocket::Request<'r>);

/// `rocket::Response`. Of a response the headers and the status are spoken
/// of, through [`response_headers`] and [`response_status`]; its body is out
/// of sight.
#[verifier::external_type_specification]
#[verifier::external_body]
pub struct ExResponse<'r>(rocket::Response<'r>);

/// A collection of headers: under each name the values stored for it, in
/// order. Header names match without regard to ASCII case, so a name is
/// held as [`uncased`] gives it.
pub type Headers = Map<Seq<char>, Seq<Seq<char>>>;

/// The headers that a request holds: what `rocket::Request::headers`
/// returns.
pub uninterp spec fn request_headers(request: rocket::Request<'_>) -> Headers;

/// The headers that a response holds: what `rocket::Response::headers`
/// returns.
pub uninterp spec fn response_headers(response: rocket::Response<'_>) -> Headers;

/// The code of the status that a response holds: that of what
/// `rocket::Response::status` returns.
pub uninterp spec fn response_status(response: rocket::Response<'_>) -> u16;

/// A character with an ASCII capital letter turned into its small letter.
pub open spec fn lower(c: char) -> char {
    if 'A' <= c && c <= 'Z' {
        ((c as u32) + 32) as char
    } else {
        c
    }
}

/// A header name as the collection holds it: every ASCII capital letter
/// turned into its small letter.
pub open spec fn uncased(name: Seq<char>) -> Seq<char> {
    name.map_values(|c: char| lower(c))
}

/// The first value stored for a header name, if there is one.
pub open spec fn first_value(headers: Headers, name: Seq<char>) -> Option<Seq<char>> {
    if headers.contains_key(uncased(name)) && headers[uncased(name)].len() > 0 {
        Some(headers[uncased(name)][0])
    } else {
        None
    }
}

/// The headers after one header was set: the name now holds this one
/// value, whatever it held before, and every other name is as it was.
pub open spec fn with_header(headers: Headers, name: Seq<char>, value: Seq<char>) -> Headers {
    headers.insert(uncased(name), seq![value])
}

/// Calls `rocket::Request::headers` and `HeaderMap::get_one` on the result.
/// The contract claims that the value returned is the first one stored for
/// the name, compared without regard to ASCII case, and that `None` comes
/// back when the name holds no value.
#[verifier::external_body]
fn header_value<'r>(request: &'r rocket::Request<'_>, name: &str) -> (value: Option<&'r str>)
    ensures
        value.deep_view() == first_value(request_headers(*request), name@),
{
    request.headers().get_one(name)
}

/// Calls `rocket::http::Header::new` and `rocket::Response::set_header`.
/// The contract claims that afterwards the name, compared without regard to
/// ASCII case, holds exactly this one value, that every other header is as
/// it was, and that the status is as it was.
#[verifier::external_body]
fn set_header(response: &mut rocket::Response<'_>, name: &str, value: &str)
    ensures
        response_headers(*final(response)) == with_header(
            response_headers(*old(response)),
            name@,
            value@,
        ),
        response_status(*final(response)) == response_status(*old(response)),
{
    response.set_header(rocket::http::Header::new(name.to_string(), value.to_string()));
}

/// The value of `Access-Control-Allow-Origin`: the origin that the request
/// named, or `*` where it named none.
pub open spec fn allowed_origin(origin: Option<Seq<char>>) -> Seq<char> {
    match origin {
        Some(origin) => origin,
        None => "*"@,
    }
}

/// The headers of a response after the policy was applied to it.
pub open spec fn decorated(headers: Headers, origin: Option<Seq<char>>) -> Headers {
    with_header(
        with_header(
            with_header(
                with_header(headers, "Access-Control-Allow-Origin"@, allowed_origin(origin)),
                "Access-Control-Allow-Methods"@,
                "POST, GET, PATCH, OPTIONS"@,
            ),
            "Access-Control-Allow-Headers"@,
            "*"@,
        ),
        "Access-Control-Allow-Credentials"@,
        "true"@,
    )
}

/// Whether a header name is one of the four that the policy sets.
pub open spec fn is_policy_header(name: Seq<char>) -> bool {
    ||| uncased(name) == uncased("Access-Control-Allow-Origin"@)
    ||| uncased(name) == uncased("Access-Control-Allow-Methods"@)
    ||| uncased(name) == uncased("Access-Control-Allow-Headers"@)
    ||| uncased(name) == uncased("Access-Control-Allow-Credentials"@)
}

/// The cross-origin policy of the service.
#[derive(Debug, Clone, Copy, PartialEq, Eq)]
pub struct CORS;

impl CORS {
    /// Sets the four access-control headers on a response, given the origin
    /// that the request named, if any.
    pub fn decorate(&self, origin: Option<&str>, response: &mut rocket::Response<'_>)
        ensures
            response_headers(*final(response)) == decorated(
                response_headers(*old(response)),
                origin.deep_view(),
            ),
            response_status(*final(response)) == response_status(*old(response)),
    {
        match origin {
            Some(origin) => set_header(response, "Access-Control-Allow-Origin", origin),
            None => set_header(response, "Access-Control-Allow-Origin", "*"),
        }
        set_header(response, "Access-Control-Allow-Methods", "POST, GET, PATCH, OPTIONS");
        set_header(response, "Access-Control-Allow-Headers", "*");
        set_header(response, "Access-Control-Allow-Credentials", "true");
    }

    /// Applies the policy to the response to a request: the origin allowed
    /// is the first `Origin` header of the request.
    pub fn on_response(&self, request: &rocket::Request<'_>, response: &mut rocket::Response<'_>)
        ensures
            response_headers(*final(response)) == decorated(
                response_headers(*old(response)),
                first_value(request_headers(*request), "Origin"@),
            ),
            response_status(*final(response)) == response_status(*old(response)),
    {
        let origin = header_value(request, "Origin");
        self.decorate(origin, response);
    }
}

/// The four names that the policy sets are four different headers.
proof fn lemma_policy_names_differ()
    ensures
        uncased("Access-Control-Allow-Origin"@) != uncased("Access-Control-Allow-Methods"@),
        uncased("Access-Control-Allow-Origin"@) != uncased("Access-Control-Allow-Headers"@),
        uncased("Access-Control-Allow-Origin"@) != uncased("Access-Control-Allow-Credentials"@),
        uncased("Access-Control-Allow-Methods"@) != uncased("Access-Control-Allow-Headers"@),
        uncased("Access-Control-Allow-Methods"@) != uncased("Access-Control-Allow-Credentials"@),
        uncased("Access-Control-Allow-Headers"@) != uncased("Access-Control-Allow-Credentials"@),
{
    reveal_strlit("Access-Control-Allow-Origin");
    reveal_strlit("Access-Control-Allow-Methods");
    reveal_strlit("Access-Control-Allow-Headers");
    reveal_strlit("Access-Control-Allow-Credentials");
    assert(uncased("Access-Control-Allow-Origin"@).len() == 27);
    assert(uncased("Access-Control-Allow-Methods"@).len() == 28);
    assert(uncased("Access-Control-Allow-Headers"@).len() == 28);
    assert(uncased("Access-Control-Allow-Credentials"@).len() == 32);
    assert(uncased("Access-Control-Allow-Methods"@)[21] == 'm');
    assert(uncased("Access-Control-Allow-Headers"@)[21] == 'h');
}

/// Every response to which the policy was applied carries the four
/// access-control headers, each with exactly one value: the origin that
/// the request named, or `*` where it named none; the fixed list of
/// methods; `*` for the headers; `true` for the credentials. This holds
/// whatever headers the response had before.
pub proof fn lemma_policy_is_carried(headers: Headers, origin: Option<Seq<char>>)
    ensures
        first_value(decorated(headers, origin), "Access-Control-Allow-Origin"@) == Some(
            allowed_origin(origin),
        ),
        first_value(decorated(headers, origin), "Access-Control-Allow-Methods"@) == Some(
            "POST, GET, PATCH, OPTIONS"@,
        ),
        first_value(decorated(headers, origin), "Access-Control-Allow-Headers"@) == Some("*"@),
        first_value(decorated(headers, origin), "Access-Control-Allow-Credentials"@) == Some(
            "true"@,
        ),
        decorated(headers, origin)[uncased("Access-Control-Allow-Origin"@)].len() == 1,
        decorated(headers, origin)[uncased("Access-Control-Allow-Methods"@)].len() == 1,
        decorated(headers, origin)[uncased("Access-Control-Allow-Headers"@)].len() == 1,
        decorated(headers, origin)[uncased("Access-Control-Allow-Credentials"@)].len() == 1,
{
    lemma_policy_names_differ();
}

/// Applying the policy twice gives what applying it once gives.
pub proof fn lemma_policy_is_idempotent(headers: Headers, origin: Option<Seq<char>>)
    ensures
        decorated(decorated(headers, origin), origin) == decorated(headers, origin),
{
}

/// The policy leaves every header that is not one of its four as it was:
/// present or not, and with the same values.
pub proof fn lemma_policy_keeps_other_headers(
    headers: Headers,
    origin: Option<Seq<char>>,
    name: Seq<char>,
)
    requires
        !is_policy_header(name),
    ensures
        decorated(headers, origin).contains_key(uncased(name)) == headers.contains_key(
            uncased(name),
        ),
        headers.contains_key(uncased(name)) ==> decorated(headers, origin)[uncased(name)]
            == headers[uncased(name)],
{
}

} // verus!
