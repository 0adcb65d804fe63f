//! The plain values that the web front-end exchanges, and the tokens it
//! hands out.

use vstd::prelude::*;
use crate::text::{opt_text, push_char};

verus! {

/// The answer to a request of the web front-end.
#[derive(Clone, Debug, PartialEq, Eq)]
pub struct APIResponse {
    pub done: bool,
    pub reason: String,
    pub context: Option<String>,
}

pub struct ResponseView {
    pub done: bool,
    pub reason: Seq<char>,
    pub context: Option<Seq<char>>,
}

impl View for APIResponse {
    type V = ResponseView;

    open spec fn view(&self) -> ResponseView {
        ResponseView { done: self.done, reason: self.reason@, context: opt_text(self.context) }
    }
}

/// What the login provider sends back to the callback.
#[derive(Clone, Debug, PartialEq, Eq)]
pub struct OauthReq {
    pub code: String,
    pub state: String,
}

/// What the login provider answers to a code.
#[derive(Clone, Debug, PartialEq, Eq)]
pub struct OauthRes {
    pub access_token: String,
}

/// The user that an access token stands for.
#[derive(Clone, Debug, PartialEq, Eq)]
pub struct OauthUser {
    pub id: String,
    pub username: String,
    pub avatar: Option<String>,
    pub discriminator: String,
}

/// The byte is an ASCII letter or digit.
pub open spec fn is_symbol(b: u8) -> bool {
    (0x30 <= b && b <= 0x39) || (0x41 <= b && b <= 0x5a) || (0x61 <= b && b <= 0x7a)
}

/// Every character of the text is an ASCII letter or digit.
pub open spec fn is_token(s: Seq<char>) -> bool {
    forall|i: int| 0 <= i < s.len() ==> (#[trigger] s[i]) as int <= 0x7a && is_symbol(s[i] as u8)
}

/// Draws one byte from `rand::distributions::Alphanumeric` with the
/// generator of `rand::thread_rng`. The distribution picks from the letters
/// `A` to `Z` and `a` to `z` and the digits `0` to `9`, so the byte is one
/// of these; which one is left open.
#[verifier::external_body]
fn sample_symbol() -> (out: u8)
    ensures
        is_symbol(out),
{
    rand::Rng::sample(&mut rand::thread_rng(), rand::distributions::Alphanumeric)
}

/// The token with one more symbol at its end.
pub fn with_symbol(token: String, symbol: u8) -> (out: String)
    ensures
        out@ == token@.push(symbol as char),
{
    let mut out = token;
    push_char(&mut out, symbol as char);
    out
}

/// A random token of `length` ASCII letters and digits.
pub fn create_token(length: usize) -> (out: String)
    ensures
        out@.len() == length,
        is_token(out@),
{
    let mut out = String::new();
    let mut i: usize = 0;
    while i < length
        invariant
            i <= length,
            out@.len() == i,
            is_token(out@),
        decreases length - i,
    {
        let symbol = sample_symbol();
        out = with_symbol(out, symbol);
        i += 1;
    }
    out
}

} // verus!
