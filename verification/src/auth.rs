//! Access tokens and the form and header texts that carry them.

use crate::error::{view_of, SdkError, SdkErrorView, SdkResult};
use crate::text::{digit, digit_char, trimmed};
use vstd::prelude::*;
use vstd::utf8::encode_utf8;

verus! {

/// An access token as the service issued it.
#[derive(Debug, Clone)]
pub struct AuthToken {
    pub access_token: String,
    pub token_type: String,
    pub expires_in: u64,
    pub refresh_token: Option<String>,
}

/// Where a client keeps its current token.
pub trait AuthTokenStore: Send + Sync {
    /// The token that is kept, if any.
    fn get(&self) -> Option<AuthToken>;

    /// Keeps `token` in place of any earlier one.
    fn set(&mut self, token: AuthToken);
}

/// The credentials of a password grant.
#[derive(Debug, Clone)]
pub struct PasswordGrantRequest {
    pub username: String,
    pub password: String,
}

/// Whether a byte stands for itself in a form: an ASCII letter or digit, or
/// one of `-`, `_`, `.`, `~`.
pub open spec fn is_unreserved(b: u8) -> bool {
    ||| 0x41 <= b <= 0x5a
    ||| 0x61 <= b <= 0x7a
    ||| 0x30 <= b <= 0x39
    ||| b == 0x2d
    ||| b == 0x5f
    ||| b == 0x2e
    ||| b == 0x7e
}

/// One byte in a form: itself, `+` for a space, or `%` and its two
/// hexadecimal digits in upper case.
pub open spec fn encoded_byte(b: u8) -> Seq<char> {
    if is_unreserved(b) {
        seq![b as char]
    } else if b == 0x20 {
        seq!['+']
    } else {
        seq!['%', digit_char(b / 16), digit_char(b % 16)]
    }
}

/// A byte string in a form: its bytes encoded one after the other.
pub open spec fn url_encoded(bytes: Seq<u8>) -> Seq<char>
    decreases bytes.len(),
{
    if bytes.len() == 0 {
        Seq::empty()
    } else {
        url_encoded(bytes.drop_last()) + encoded_byte(bytes.last())
    }
}

/// Encodes the UTF-8 bytes of `input` for a form.
pub fn url_encode(input: &str) -> (out: String)
    ensures
        out@ == url_encoded(encode_utf8(input@)),
{
    let bytes = input.as_bytes();
    let mut out = String::new();
    let mut i: usize = 0;
    while i < bytes.len()
        invariant
            i <= bytes.len(),
            out@ == url_encoded(bytes@.take(i as int)),
        decreases bytes.len() - i,
    {
        let b = bytes[i];
        proof {
            assert(bytes@.take(i + 1).drop_last() =~= bytes@.take(i as int));
            assert(bytes@.take(i + 1).last() == b);
        }
        if (0x41 <= b && b <= 0x5a) || (0x61 <= b && b <= 0x7a) || (0x30 <= b && b <= 0x39) || b
            == 0x2d || b == 0x5f || b == 0x2e || b == 0x7e {
            out.push(b as char);
        } else if b == 0x20 {
            out.push('+');
        } else {
            out.push('%');
            out.push(digit(b / 16));
            out.push(digit(b % 16));
        }
        assert(out@ =~= url_encoded(bytes@.take(i as int)) + encoded_byte(b));
        i += 1;
    }
    assert(bytes@.take(i as int) =~= bytes@);
    out
}

/// The form body of a password grant.
pub open spec fn password_form(username: Seq<char>, password: Seq<char>) -> Seq<char> {
    "grant_type=password&username="@ + url_encoded(encode_utf8(username)) + "&password="@
        + url_encoded(encode_utf8(password))
}

impl PasswordGrantRequest {
    /// The request as a form body, with user name and password encoded.
    pub fn to_form_encoded(&self) -> (form: String)
        ensures
            form@ == password_form(self.username@, self.password@),
    {
        let mut form = "grant_type=password&username=".to_owned();
        form.append(url_encode(self.username.as_str()).as_str());
        form.append("&password=");
        form.append(url_encode(self.password.as_str()).as_str());
        form
    }
}

/// The value of the authorization header for a token, given the token and
/// its type without surrounding white space: the type, `Bearer` where none
/// is left, a space, and the token as it was issued. A token of white space
/// alone is refused.
pub open spec fn bearer_value(
    access_token: Seq<char>,
    trimmed_token: Seq<char>,
    trimmed_type: Seq<char>,
) -> Result<Seq<char>, SdkErrorView> {
    if trimmed_token.len() == 0 {
        Err(SdkErrorView::Auth("empty access token"@))
    } else if trimmed_type.len() == 0 {
        Ok("Bearer"@ + " "@ + access_token)
    } else {
        Ok(trimmed_type + " "@ + access_token)
    }
}

/// Composes the authorization header from a token and the trimmed forms of
/// the token and of its type.
pub fn compose_bearer_header(access_token: &str, trimmed_token: &str, trimmed_type: &str) -> (r:
    SdkResult<String>)
    ensures
        view_of(r) == bearer_value(access_token@, trimmed_token@, trimmed_type@),
{
    if trimmed_token.is_empty() {
        return Err(SdkError::Auth("empty access token".to_owned()));
    }
    let token_type = if trimmed_type.is_empty() {
        "Bearer"
    } else {
        trimmed_type
    };
    let mut header = token_type.to_owned();
    header.append(" ");
    header.append(access_token);
    Ok(header)
}

/// The value of the authorization header for `token`.
pub fn bearer_header(token: &AuthToken) -> (r: SdkResult<String>)
    ensures
        view_of(r) == bearer_value(
            token.access_token@,
            trimmed(token.access_token@),
            trimmed(token.token_type@),
        ),
{
    compose_bearer_header(
        token.access_token.as_str(),
        token.access_token.as_str().trim(),
        token.token_type.as_str().trim(),
    )
}

} // verus!
