//! Credentials of the HTTP Basic scheme: `Basic base64(username:password)`.

use crate::encoding::{base64_decode, base64_standard_decode};
use std::str::Chars;
use vstd::prelude::*;
use vstd::std_specs::iter::IteratorSpec;
use vstd::utf8::*;

verus! {

/// What a credential is in contracts: the two texts, character by character.
pub struct CredentialView {
    pub username: Seq<char>,
    pub password: Seq<char>,
}

/// A username and a password as a client sent them. Nothing here says that
/// the pair belongs to an account.
#[derive(Debug, Clone)]
pub struct BasicAuth {
    pub username: String,
    pub password: String,
}

impl View for BasicAuth {
    type V = CredentialView;

    open spec fn view(&self) -> CredentialView {
        CredentialView { username: self.username@, password: self.password@ }
    }
}

/// The character that parts the username from the password.
pub const SEPARATOR: char = ':';

/// The scheme token that may open a header value, with the space that ends it.
pub open spec fn scheme_token() -> Seq<char> {
    seq!['B', 'a', 's', 'i', 'c', ' ']
}

/// Whether `text` opens with the scheme token, in exactly this case.
pub open spec fn has_scheme(text: Seq<char>) -> bool {
    scheme_token().is_prefix_of(text)
}

/// `text` without the scheme token that opens it, where one does. One token
/// is taken off, not more, and a text without the token is left whole.
pub open spec fn strip_scheme(text: Seq<char>) -> Seq<char> {
    if has_scheme(text) {
        text.skip(6)
    } else {
        text
    }
}

/// Whether the first separator of `text` stands at `at`.
pub open spec fn first_separator_at(text: Seq<char>, at: int) -> bool {
    &&& 0 <= at < text.len()
    &&& text[at] == SEPARATOR
    &&& forall|j: int| 0 <= j < at ==> text[j] != SEPARATOR
}

/// The credential that `text` spells: what stands before its first separator
/// is the username, all that follows it is the password. A text without a
/// separator spells none.
pub open spec fn parse_credential(text: Seq<char>) -> Option<CredentialView> {
    if text.contains(SEPARATOR) {
        let at = choose|at: int| first_separator_at(text, at);
        Some(CredentialView { username: text.take(at), password: text.skip(at + 1) })
    } else {
        None
    }
}

/// The credential that decoded bytes hold: they are read as UTF-8, and the
/// text as a credential. Bytes that are no UTF-8 hold none.
pub open spec fn credential_of_bytes(bytes: Seq<u8>) -> Option<CredentialView> {
    if valid_utf8(bytes) {
        parse_credential(decode_utf8(bytes))
    } else {
        None
    }
}

/// The credential that a header value carries: the scheme token is taken
/// off its front, the rest is decoded from base64, and the bytes are read as
/// a credential.
pub open spec fn credential_of_header(header: Seq<char>) -> Option<CredentialView> {
    match base64_standard_decode(strip_scheme(header)) {
        Some(bytes) => credential_of_bytes(bytes),
        None => None,
    }
}

/// The view of a credential that may be absent.
pub open spec fn view_of(auth: Option<BasicAuth>) -> Option<CredentialView> {
    match auth {
        Some(auth) => Some(auth@),
        None => None,
    }
}

/// The text that spells a credential: the username, one separator, the
/// password.
pub open spec fn joined(username: Seq<char>, password: Seq<char>) -> Seq<char> {
    username + seq![SEPARATOR] + password
}

/// At most one position is that of the first separator.
pub proof fn lemma_first_separator_unique(text: Seq<char>, a: int, b: int)
    requires
        first_separator_at(text, a),
        first_separator_at(text, b),
    ensures
        a == b,
{
}

/// A credential read from a text spells that text back, and its username
/// holds no separator. With [`lemma_parse_joined`] this pins the reading down:
/// a text spells `(username, password)` exactly when it is the two joined and
/// the username is free of separators.
pub proof fn lemma_parse_sound(text: Seq<char>)
    ensures
        parse_credential(text) is Some <==> text.contains(SEPARATOR),
        parse_credential(text) matches Some(found) ==> text == joined(
            found.username,
            found.password,
        ),
        parse_credential(text) matches Some(found) ==> !found.username.contains(SEPARATOR),
{
    if text.contains(SEPARATOR) {
        lemma_first_separator_exists(text);
    }
}

/// A text that holds a separator has a first one.
pub proof fn lemma_first_separator_exists(text: Seq<char>)
    requires
        text.contains(SEPARATOR),
    ensures
        exists|at: int| first_separator_at(text, at),
    decreases text.len(),
{
    if text[0] == SEPARATOR {
        assert(first_separator_at(text, 0));
    } else {
        let rest = text.drop_first();
        let i = choose|i: int| 0 <= i < text.len() && text[i] == SEPARATOR;
        assert(rest[i - 1] == SEPARATOR);
        lemma_first_separator_exists(rest);
        let at = choose|at: int| first_separator_at(rest, at);
        assert forall|j: int| 0 <= j < at + 1 implies text[j] != SEPARATOR by {
            if j > 0 {
                assert(rest[j - 1] == text[j]);
            }
        }
        assert(first_separator_at(text, at + 1));
    }
}

/// Joining and reading are inverse: where the username holds no separator,
/// the joined text spells exactly the pair it was made of, whatever the
/// password holds, separators included.
pub proof fn lemma_parse_joined(username: Seq<char>, password: Seq<char>)
    requires
        !username.contains(SEPARATOR),
    ensures
        parse_credential(joined(username, password)) == Some(
            CredentialView { username, password },
        ),
{
    let text = joined(username, password);
    let cut = username.len() as int;
    assert(first_separator_at(text, cut));
    let at = choose|at: int| first_separator_at(text, at);
    lemma_first_separator_unique(text, at, cut);
    assert(text.take(cut) =~= username);
    assert(text.skip(cut + 1) =~= password);
}

/// The bytes that encode a joined pair hold that pair again, where the
/// username holds no separator.
pub proof fn lemma_decoded_round_trip(username: Seq<char>, password: Seq<char>)
    requires
        !username.contains(SEPARATOR),
    ensures
        credential_of_bytes(encode_utf8(joined(username, password))) == Some(
            CredentialView { username, password },
        ),
{
    let text = joined(username, password);
    encode_utf8_valid_utf8(text);
    encode_utf8_decode_utf8(text);
    lemma_parse_joined(username, password);
}

/// The round trip of a header: where the username holds no separator and
/// `payload` is base64 for the bytes that encode the joined pair, the header
/// made of the scheme token and `payload` carries exactly that pair, and so
/// does `payload` alone unless it opens with the token itself. The password
/// may hold separators.
pub proof fn lemma_header_round_trip(
    payload: Seq<char>,
    username: Seq<char>,
    password: Seq<char>,
)
    requires
        !username.contains(SEPARATOR),
    ensures
        base64_standard_decode(payload) == Some(encode_utf8(joined(username, password)))
            ==> credential_of_header(scheme_token() + payload) == Some(
            CredentialView { username, password },
        ),
        base64_standard_decode(payload) == Some(encode_utf8(joined(username, password)))
            && !has_scheme(payload) ==> credential_of_header(payload) == Some(
            CredentialView { username, password },
        ),
{
    let header = scheme_token() + payload;
    assert(header.skip(6) =~= payload);
    lemma_decoded_round_trip(username, password);
}

/// Takes the next character off `chars` and says whether it is `expected`.
fn next_is(chars: &mut Chars<'_>, expected: char) -> (hit: bool)
    ensures
        hit <==> (*old(chars)).remaining().len() > 0 && (*old(chars)).remaining()[0] == expected,
        (*old(chars)).remaining().len() > 0 ==> (*final(chars)).remaining() == (*old(
            chars,
        )).remaining().drop_first(),
{
    match chars.next() {
        Some(c) => c == expected,
        None => false,
    }
}

/// Takes the scheme token off the front of `header`, where it stands there.
pub fn trim_scheme(header: &str) -> (payload: &str)
    ensures
        payload@ == strip_scheme(header@),
{
    let mut chars = header.chars();
    let hit = next_is(&mut chars, 'B') && next_is(&mut chars, 'a') && next_is(&mut chars, 's')
        && next_is(&mut chars, 'i') && next_is(&mut chars, 'c') && next_is(&mut chars, ' ');
    if hit {
        header.substring_char(6, header.unicode_len())
    } else {
        header
    }
}

/// Reads the credential that `text` spells: the username ends at the first
/// separator, and the password is all that follows it.
pub fn split_credential(text: &str) -> (auth: Option<BasicAuth>)
    ensures
        view_of(auth) == parse_credential(text@),
        auth is Some <==> text@.contains(SEPARATOR),
        auth matches Some(found) ==> text@ == joined(found.username@, found.password@),
        auth matches Some(found) ==> !found.username@.contains(SEPARATOR),
{
    proof {
        lemma_parse_sound(text@);
    }
    let total: usize = text.unicode_len();
    let mut chars = text.chars();
    let mut at: usize = 0;
    while at < total
        invariant
            total == text@.len(),
            at <= total,
            chars.remaining() == text@.skip(at as int),
            forall|j: int| 0 <= j < at ==> text@[j] != SEPARATOR,
            parse_credential(text@) matches Some(found) ==> text@ == joined(
                found.username,
                found.password,
            ) && !found.username.contains(SEPARATOR),
        decreases total - at,
    {
        if next_is(&mut chars, SEPARATOR) {
            let username = text.substring_char(0, at).to_owned();
            let password = text.substring_char(at + 1, total).to_owned();
            proof {
                assert(first_separator_at(text@, at as int));
                let chosen = choose|i: int| first_separator_at(text@, i);
                lemma_first_separator_unique(text@, chosen, at as int);
            }
            return Some(BasicAuth::new(username, password));
        }
        at = at + 1;
    }
    None
}

impl BasicAuth {
    /// Pairs the two texts as they are.
    pub fn new(username: String, password: String) -> (auth: Self)
        ensures
            auth.username == username,
            auth.password == password,
            auth@ == (CredentialView { username: username@, password: password@ }),
    {
        Self { username, password }
    }

    /// Reads a credential from the bytes that a header's payload decoded to.
    pub fn from_decoded(decoded: Vec<u8>) -> (auth: Option<Self>)
        ensures
            view_of(auth) == credential_of_bytes(decoded@),
            auth is Some <==> valid_utf8(decoded@) && decode_utf8(decoded@).contains(SEPARATOR),
            auth matches Some(found) ==> decode_utf8(decoded@) == joined(
                found.username@,
                found.password@,
            ),
            auth matches Some(found) ==> !found.username@.contains(SEPARATOR),
    {
        match String::from_utf8(decoded) {
            Ok(text) => split_credential(text.as_str()),
            Err(_) => None,
        }
    }

    /// Reads a credential from the value of an `Authorization` header: the
    /// scheme token is taken off its front if it stands there, the rest is
    /// decoded from base64, the bytes are read as UTF-8, and the text is split
    /// at its first separator. Where any of these steps fails there is no
    /// credential.
    pub fn from_header(header: &str) -> (auth: Option<Self>)
        ensures
            view_of(auth) == credential_of_header(header@),
            auth is Some <==> (base64_standard_decode(strip_scheme(header@)) matches Some(bytes)
                && valid_utf8(bytes) && decode_utf8(bytes).contains(SEPARATOR)),
            auth matches Some(found) ==> base64_standard_decode(strip_scheme(header@)) == Some(
                encode_utf8(joined(found.username@, found.password@)),
            ),
            auth matches Some(found) ==> !found.username@.contains(SEPARATOR),
    {
        match base64_decode(trim_scheme(header)) {
            Some(decoded) => {
                proof {
                    if valid_utf8(decoded@) {
                        decode_utf8_encode_utf8(decoded@);
                    }
                }
                Self::from_decoded(decoded)
            },
            None => None,
        }
    }
}

} // verus!
