//! The guard that stands before every protected route: it admits a request
//! that carries a readable Basic credential and rejects every other one. It
//! keeps no state and compares the credential with no account.

use crate::basic_auth::{
    credential_of_header, joined, lemma_header_round_trip, scheme_token, BasicAuth,
    CredentialView, SEPARATOR,
};
use crate::encoding::base64_standard_decode;
use vstd::prelude::*;
use vstd::std_specs::iter::IteratorSpec;
use vstd::utf8::*;

verus! {

/// The status that answers a rejected request, whatever the reason.
pub const UNAUTHORIZED: u16 = 401;

/// One header of a request.
#[derive(Debug, Clone, PartialEq, Eq)]
pub struct Header {
    pub name: String,
    pub value: String,
}

/// Why a request was rejected. The reason stays inside: both are answered
/// with [`UNAUTHORIZED`] and nothing else.
#[derive(Debug, Clone, Copy, PartialEq, Eq, Structural)]
pub enum Rejection {
    /// The request has no `Authorization` header.
    MissingHeader,
    /// The header is there, but no credential can be read from its value:
    /// it is no base64, its bytes are no UTF-8, or the text has no separator.
    MalformedHeader,
}

/// The guard's verdict on one request.
#[derive(Debug, Clone)]
pub enum Authorization {
    /// The request carried this credential and goes on to its route.
    Authorized(BasicAuth),
    /// The request stops here.
    Rejected(Rejection),
}

/// What a verdict is in contracts.
pub enum Verdict {
    Authorized(CredentialView),
    Rejected(Rejection),
}

impl View for Authorization {
    type V = Verdict;

    open spec fn view(&self) -> Verdict {
        match self {
            Authorization::Authorized(auth) => Verdict::Authorized(auth@),
            Authorization::Rejected(reason) => Verdict::Rejected(*reason),
        }
    }
}

/// The code of `c`, with the capital letters of ASCII moved onto the small
/// ones.
pub open spec fn fold_ascii(c: char) -> int {
    if 'A' <= c <= 'Z' {
        c as int + 32
    } else {
        c as int
    }
}

/// Whether two texts are equal but for the case of their ASCII letters.
pub open spec fn same_ignoring_ascii_case(a: Seq<char>, b: Seq<char>) -> bool {
    &&& a.len() == b.len()
    &&& forall|i: int| 0 <= i < a.len() ==> fold_ascii(a[i]) == fold_ascii(b[i])
}

/// Whether `name` names the `Authorization` header, in any case.
pub open spec fn names_authorization(name: Seq<char>) -> bool {
    same_ignoring_ascii_case(name, "authorization"@)
}

/// The value of the first header of `headers` that is named `Authorization`.
pub open spec fn authorization_value(headers: Seq<Header>) -> Option<Seq<char>>
    decreases headers.len(),
{
    if headers.len() == 0 {
        None
    } else if names_authorization(headers[0].name@) {
        Some(headers[0].value@)
    } else {
        authorization_value(headers.drop_first())
    }
}

/// The verdict on a request whose `Authorization` header has this value, or
/// has none.
pub open spec fn verdict(value: Option<Seq<char>>) -> Verdict {
    match value {
        None => Verdict::Rejected(Rejection::MissingHeader),
        Some(value) => match credential_of_header(value) {
            Some(credential) => Verdict::Authorized(credential),
            None => Verdict::Rejected(Rejection::MalformedHeader),
        },
    }
}

/// The status that a verdict answers the request with: none where the
/// request goes on to its route.
pub open spec fn status_of(verdict: Verdict) -> Option<u16> {
    match verdict {
        Verdict::Authorized(_) => None,
        Verdict::Rejected(_) => Some(UNAUTHORIZED),
    }
}

/// The text of a header value that may be absent.
pub open spec fn text_of(value: Option<&str>) -> Option<Seq<char>> {
    match value {
        Some(value) => Some(value@),
        None => None,
    }
}

/// Whether the header at `at` is the first of `headers` that is named
/// `Authorization`.
pub open spec fn first_authorization_at(headers: Seq<Header>, at: int) -> bool {
    &&& 0 <= at < headers.len()
    &&& names_authorization(headers[at].name@)
    &&& forall|j: int| 0 <= j < at ==> !names_authorization(#[trigger] headers[j].name@)
}

/// Which header the guard reads: none where no header is named
/// `Authorization`, and else the first that is so named.
pub proof fn lemma_authorization_value(headers: Seq<Header>)
    ensures
        authorization_value(headers) is None <==> forall|i: int|
            0 <= i < headers.len() ==> !names_authorization(#[trigger] headers[i].name@),
        authorization_value(headers) matches Some(value) ==> exists|at: int|
            first_authorization_at(headers, at) && headers[at].value@ == value,
    decreases headers.len(),
{
    if headers.len() == 0 {
    } else if names_authorization(headers[0].name@) {
        assert(first_authorization_at(headers, 0));
    } else {
        let rest = headers.drop_first();
        lemma_authorization_value(rest);
        if authorization_value(rest) is Some {
            let at = choose|at: int|
                first_authorization_at(rest, at) && rest[at].value@ == authorization_value(
                    rest,
                )->0;
            assert forall|j: int| 0 <= j < at + 1 implies !names_authorization(
                #[trigger] headers[j].name@,
            ) by {
                if j > 0 {
                    assert(rest[j - 1] == headers[j]);
                }
            }
            assert(first_authorization_at(headers, at + 1));
        } else {
            assert forall|i: int| 0 <= i < headers.len() implies !names_authorization(
                #[trigger] headers[i].name@,
            ) by {
                if i > 0 {
                    assert(rest[i - 1] == headers[i]);
                }
            }
        }
    }
}

/// The guard reads one header and no other: where the first header named
/// `Authorization` stands at `at`, its value is what the guard judges,
/// whatever the other headers are.
pub proof fn lemma_guard_reads_one_header(headers: Seq<Header>, at: int)
    requires
        first_authorization_at(headers, at),
    ensures
        authorization_value(headers) == Some(headers[at].value@),
    decreases headers.len(),
{
    if at > 0 {
        let rest = headers.drop_first();
        lemma_guard_reads_one_header(rest, at - 1);
    }
}

/// The guard asks for a readable credential and for nothing more. A request
/// without an `Authorization` header is rejected. A request whose header is
/// the scheme token and the base64 of a joined pair is admitted with that
/// pair, whichever pair it is: no account is looked up.
pub proof fn lemma_guard_admits_any_credential(
    headers: Seq<Header>,
    payload: Seq<char>,
    username: Seq<char>,
    password: Seq<char>,
)
    requires
        !username.contains(SEPARATOR),
    ensures
        (forall|i: int| 0 <= i < headers.len() ==> !names_authorization(#[trigger] headers[i].name@))
            ==> verdict(authorization_value(headers)) == Verdict::Rejected(
            Rejection::MissingHeader,
        ),
        authorization_value(headers) == Some(scheme_token() + payload) && base64_standard_decode(
            payload,
        ) == Some(encode_utf8(joined(username, password))) ==> verdict(
            authorization_value(headers),
        ) == Verdict::Authorized(CredentialView { username, password }),
{
    lemma_authorization_value(headers);
    lemma_header_round_trip(payload, username, password);
}

/// Each request is judged once and for good: a verdict either admits, and
/// then answers with no status of its own, or rejects, and then answers
/// with [`UNAUTHORIZED`] whatever the reason was.
pub proof fn lemma_rejections_look_alike(value: Option<Seq<char>>)
    ensures
        verdict(value) is Rejected <==> status_of(verdict(value)) == Some(UNAUTHORIZED),
        verdict(value) is Authorized <==> status_of(verdict(value)) is None,
        verdict(value) is Authorized <==> value is Some && credential_of_header(value->0) is Some,
{
}

fn fold(c: char) -> (code: u32)
    ensures
        code == fold_ascii(c),
{
    let code: u32 = c as u32;
    if 65 <= code && code <= 90 {
        code + 32
    } else {
        code
    }
}

/// Says whether two texts are equal but for the case of their ASCII letters.
pub fn eq_ignore_ascii_case(a: &str, b: &str) -> (same: bool)
    ensures
        same == same_ignoring_ascii_case(a@, b@),
{
    let mut left = a.chars();
    let mut right = b.chars();
    let ghost mut seen: int = 0;
    loop
        invariant
            0 <= seen <= a@.len(),
            seen <= b@.len(),
            left.remaining() == a@.skip(seen),
            right.remaining() == b@.skip(seen),
            forall|i: int| 0 <= i < seen ==> fold_ascii(a@[i]) == fold_ascii(b@[i]),
        decreases a@.len() - seen,
    {
        match (left.next(), right.next()) {
            (Some(x), Some(y)) => {
                if fold(x) != fold(y) {
                    return false;
                }
            },
            (None, None) => {
                return true;
            },
            _ => {
                return false;
            },
        }
        proof {
            seen = seen + 1;
        }
    }
}

/// Says whether `name` names the `Authorization` header, in any case.
pub fn is_authorization(name: &str) -> (hit: bool)
    ensures
        hit == names_authorization(name@),
{
    eq_ignore_ascii_case(name, "authorization")
}

/// Finds the value of the first header that is named `Authorization`.
pub fn find_authorization(headers: &[Header]) -> (value: Option<&str>)
    ensures
        text_of(value) == authorization_value(headers@),
{
    let mut at: usize = 0;
    assert(headers@.skip(0) =~= headers@);
    while at < headers.len()
        invariant
            at <= headers.len(),
            authorization_value(headers@) == authorization_value(headers@.skip(at as int)),
        decreases headers.len() - at,
    {
        if is_authorization(headers[at].name.as_str()) {
            return Some(headers[at].value.as_str());
        }
        assert(headers@.skip(at as int).drop_first() =~= headers@.skip(at + 1));
        at = at + 1;
    }
    None
}

/// Judges a request by the value of its `Authorization` header, `None` where
/// it has no such header. A request without the header is rejected, and so
/// is one whose header carries no readable credential; every other request
/// is admitted with the credential it carries, whatever that credential is.
pub fn authorize_header(value: Option<&str>) -> (outcome: Authorization)
    ensures
        outcome@ == verdict(text_of(value)),
        value is None ==> outcome@ == Verdict::Rejected(Rejection::MissingHeader),
{
    match value {
        Some(value) => match BasicAuth::from_header(value) {
            Some(auth) => Authorization::Authorized(auth),
            None => Authorization::Rejected(Rejection::MalformedHeader),
        },
        None => Authorization::Rejected(Rejection::MissingHeader),
    }
}

/// Judges a request by its headers: it reads the first header named
/// `Authorization`, in any case, and no other.
pub fn authorize(headers: &[Header]) -> (outcome: Authorization)
    ensures
        outcome@ == verdict(authorization_value(headers@)),
        authorization_value(headers@) is None ==> outcome@ == Verdict::Rejected(
            Rejection::MissingHeader,
        ),
{
    authorize_header(find_authorization(headers))
}

impl Authorization {
    /// The status that answers the request, if the guard stopped it.
    pub fn status(&self) -> (code: Option<u16>)
        ensures
            code == status_of(self@),
    {
        match self {
            Authorization::Authorized(_) => None,
            Authorization::Rejected(_) => Some(UNAUTHORIZED),
        }
    }
}

} // verus!
