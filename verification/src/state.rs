//! The configuration a running service answers from: the bots that may be
//! checked and the callers that may ask.

use vstd::prelude::*;
use crate::digest::{sha256_digest, sha256_hex};
use crate::message::{Message, MessageSchema, BAD_REQUEST, FORBIDDEN};
use crate::text::{contains_text, lowercase_of, strip_leading, texts, trim_start_at, trimmed};

verus! {

/// The form in which a bot name is kept and compared: without leading `@`,
/// without surrounding white space, in lower case.
pub open spec fn clean_bot(raw: Seq<char>) -> Seq<char> {
    lowercase_of(trimmed(strip_leading(raw, '@')))
}

/// The form in which a caller token is kept and compared: the SHA-256 digest,
/// in hexadecimal, of the token without surrounding white space.
pub open spec fn token_digest(raw: Seq<char>) -> Seq<char> {
    sha256_hex(trimmed(raw))
}

/// What a request carries under `Authorization`.
#[derive(Debug)]
pub enum AuthHeader {
    /// The request has no such header.
    Missing,
    /// The header is there, but its value is not visible ASCII text.
    Invalid,
    /// The header's value.
    Value(String),
}

/// The answer that turns a request away, or `None` where the request may
/// pass: a request passes exactly if it carries a token whose digest is one
/// of `tokens`.
pub open spec fn auth_rejection(tokens: Seq<Seq<char>>, header: AuthHeader) -> Option<Message> {
    match header {
        AuthHeader::Missing => Some(
            Message {
                message: "Missing `Authorization` header"@,
                status: false,
                status_code: FORBIDDEN,
            },
        ),
        AuthHeader::Invalid => Some(
            Message { message: "Invalid token value"@, status: false, status_code: BAD_REQUEST },
        ),
        AuthHeader::Value(token) => if tokens.contains(token_digest(token@)) {
            None
        } else {
            Some(Message { message: "Unauthorized"@, status: false, status_code: FORBIDDEN })
        },
    }
}

/// The bots that may be checked and the tokens that may be used.
#[derive(Debug)]
pub struct AppState {
    /// Bot names, each in the form of [`clean_bot`].
    pub bots: Vec<String>,
    /// Token digests, each in the form of [`token_digest`].
    pub tokens: Vec<String>,
}

impl AppState {
    /// The state for the given bot names and caller tokens, as they were
    /// configured: every name is brought into the form of [`clean_bot`], every
    /// token is replaced by its digest, and the order of both lists is kept.
    pub fn new(bots: Vec<String>, tokens: Vec<String>) -> (state: Self)
        ensures
            texts(state.bots@) == texts(bots@).map_values(|raw: Seq<char>| clean_bot(raw)),
            texts(state.tokens@) == texts(tokens@).map_values(|raw: Seq<char>| token_digest(raw)),
    {
        let mut clean: Vec<String> = Vec::new();
        let mut i: usize = 0;
        while i < bots.len()
            invariant
                i <= bots@.len(),
                clean@.len() == i,
                forall|j: int| 0 <= j < i ==> clean@[j]@ == clean_bot(bots@[j]@),
            decreases bots@.len() - i,
        {
            clean.push(trim_start_at(bots[i].as_str()).trim().to_lowercase());
            i += 1;
        }
        let mut digests: Vec<String> = Vec::new();
        let mut k: usize = 0;
        while k < tokens.len()
            invariant
                k <= tokens@.len(),
                digests@.len() == k,
                forall|j: int| 0 <= j < k ==> digests@[j]@ == token_digest(tokens@[j]@),
            decreases tokens@.len() - k,
        {
            digests.push(sha256_digest(tokens[k].as_str().trim()));
            k += 1;
        }
        assert(texts(clean@) =~= texts(bots@).map_values(|raw: Seq<char>| clean_bot(raw)));
        assert(texts(digests@) =~= texts(tokens@).map_values(|raw: Seq<char>| token_digest(raw)));
        AppState { bots: clean, tokens: digests }
    }

    /// Whether `name`, taken as it is, is one of the bots that may be checked.
    pub fn has_bot(&self, name: &str) -> (listed: bool)
        ensures
            listed == texts(self.bots@).contains(name@),
    {
        contains_text(&self.bots, name)
    }

    /// Whether the bot called `handle` may be checked: the handle is compared
    /// in lower case, and must then equal a listed name as a whole.
    pub fn allows(&self, handle: &str) -> (listed: bool)
        ensures
            listed == texts(self.bots@).contains(lowercase_of(handle@)),
    {
        let lower = handle.to_lowercase();
        self.has_bot(lower.as_str())
    }

    /// Whether `digest`, taken as it is, is the digest of a token that may be used.
    pub fn has_token(&self, digest: &str) -> (known: bool)
        ensures
            known == texts(self.tokens@).contains(digest@),
    {
        contains_text(&self.tokens, digest)
    }

    /// Judges the `Authorization` header of a request. `None` lets the request
    /// pass; otherwise the answer to send in place of handling it.
    pub fn auth(&self, header: &AuthHeader) -> (rejection: Option<MessageSchema<'static>>)
        ensures
            match rejection {
                Some(msg) => auth_rejection(texts(self.tokens@), *header) == Some(msg@),
                None => auth_rejection(texts(self.tokens@), *header).is_none(),
            },
    {
        match header {
            AuthHeader::Missing => Some(
                MessageSchema::new("Missing `Authorization` header").code(FORBIDDEN),
            ),
            AuthHeader::Invalid => Some(MessageSchema::new("Invalid token value").code(BAD_REQUEST)),
            AuthHeader::Value(token) => {
                let digest = sha256_digest(token.as_str().trim());
                if self.has_token(digest.as_str()) {
                    None
                } else {
                    Some(MessageSchema::new("Unauthorized").code(FORBIDDEN))
                }
            },
        }
    }
}

} // verus!
