//! Refusals that are sent back over a socket.
use vstd::prelude::*;
use crate::text;

verus! {

/// The longest nonce that a refusal repeats, in bytes.
pub const MAX_NONCE_BYTES: usize = 64;

/// The nonce that a refusal repeats: trimmed, not empty and at most 64 bytes long.
pub open spec fn usable_nonce(nonce: Option<Seq<char>>) -> Option<Seq<char>> {
    match nonce {
        Some(n) => {
            let t = text::trimmed(n);
            if t.len() > 0 && text::byte_len(t) <= MAX_NONCE_BYTES {
                Some(t)
            } else {
                None
            }
        },
        None => None,
    }
}

/// The nonce that a refusal repeats, out of what the client sent.
pub fn payload_client_nonce(nonce: &Option<String>) -> (r: Option<String>)
    ensures
        text::opt_text(r) == usable_nonce(text::opt_text(*nonce)),
{
    match nonce {
        Some(n) => {
            let t = text::trim(n);
            if !t.is_empty() && text::len_bytes(t) <= MAX_NONCE_BYTES {
                Some(t.to_owned())
            } else {
                None
            }
        },
        None => None,
    }
}

/// The client nonce in a refusal.
pub enum NonceField {
    /// The refusal has no such field.
    Omitted,
    /// The field is there, as the client sent it or null.
    Sent(Option<String>),
    /// The field is there, cleaned.
    Clean(String),
}

/// What the client nonce in a refusal says.
pub enum NonceView {
    Omitted,
    Sent(Option<Seq<char>>),
    Clean(Seq<char>),
}

impl View for NonceField {
    type V = NonceView;

    open spec fn view(&self) -> NonceView {
        match *self {
            NonceField::Omitted => NonceView::Omitted,
            NonceField::Sent(n) => NonceView::Sent(text::opt_text(n)),
            NonceField::Clean(n) => NonceView::Clean(n@),
        }
    }
}

/// The nonce field of a general refusal: the cleaned nonce if there is a usable one.
pub open spec fn clean_nonce_view(nonce: Option<Seq<char>>) -> NonceView {
    match usable_nonce(nonce) {
        Some(t) => NonceView::Clean(t),
        None => NonceView::Omitted,
    }
}

/// The nonce field of a general refusal.
pub fn clean_nonce_field(nonce: &Option<String>) -> (r: NonceField)
    ensures
        r@ == clean_nonce_view(text::opt_text(*nonce)),
{
    match payload_client_nonce(nonce) {
        Some(t) => NonceField::Clean(t),
        None => NonceField::Omitted,
    }
}

/// The fixed part of a refusal: the event it is sent as, a code and a text for people.
#[derive(Clone, Copy, Debug)]
pub struct RefusalText {
    pub event: &'static str,
    pub code: &'static str,
    pub message: &'static str,
}

/// An `error` event without a nonce: a code, a text for people, and whether the field that
/// invites to try again is there.
#[derive(Clone, Copy, Debug)]
pub struct FailureText {
    pub code: &'static str,
    pub message: &'static str,
    pub retryable: bool,
}

/// A refusal with the nonce of the request that it answers.
pub struct Refusal {
    pub text: RefusalText,
    pub client_nonce: NonceField,
}

/// The refusal of a frame that comes too soon after others.
pub open spec fn rate_limit_text() -> RefusalText {
    RefusalText { event: "error", code: "RATE_LIMITED", message: "Rate limit exceeded" }
}

/// The refusal of a frame for which the user's queue has no room.
pub open spec fn queue_full_text() -> RefusalText {
    RefusalText {
        event: "error",
        code: "QUEUE_FULL",
        message: "Zbyt wiele operacji naraz. Spróbuj ponownie.",
    }
}

/// The refusal of a frame that comes too soon after others.
pub fn emit_rate_limit_error(nonce: &Option<String>) -> (r: Refusal)
    ensures
        r.text == rate_limit_text(),
        r.client_nonce@ == clean_nonce_view(text::opt_text(*nonce)),
{
    Refusal {
        text: RefusalText {
            event: "error",
            code: "RATE_LIMITED",
            message: "Rate limit exceeded",
        },
        client_nonce: clean_nonce_field(nonce),
    }
}

/// The refusal of a frame for which the user's queue has no room.
pub fn emit_queue_full_error(nonce: &Option<String>) -> (r: Refusal)
    ensures
        r.text == queue_full_text(),
        r.client_nonce@ == clean_nonce_view(text::opt_text(*nonce)),
{
    Refusal {
        text: RefusalText {
            event: "error",
            code: "QUEUE_FULL",
            message: "Zbyt wiele operacji naraz. Spróbuj ponownie.",
        },
        client_nonce: clean_nonce_field(nonce),
    }
}

/// A general refusal: an `error` event with a code, a text and the cleaned nonce.
pub fn emit_send_error(code: &'static str, message: &'static str, nonce: &Option<String>) -> (r:
    Refusal)
    ensures
        r.text == (RefusalText { event: "error", code, message }),
        r.client_nonce@ == clean_nonce_view(text::opt_text(*nonce)),
{
    Refusal {
        text: RefusalText { event: "error", code, message },
        client_nonce: clean_nonce_field(nonce),
    }
}

/// A repeated nonce is never empty, never longer than 64 bytes and has no white space
/// around it.
pub proof fn usable_nonce_is_clean(nonce: Option<Seq<char>>)
    ensures
        usable_nonce(nonce) matches Some(t) ==> t.len() > 0 && text::byte_len(t) <= MAX_NONCE_BYTES
            && text::trimmed(t) == t,
{
    if let Some(n) = nonce {
        text::trimmed_is_idempotent(n);
    }
}

/// A nonce is repeated if and only if something is left of it without the white space around it and
/// that takes at most 64 bytes; and it is repeated without that white space.
pub proof fn short_nonces_are_repeated(nonce: Option<Seq<char>>, t: Seq<char>)
    ensures
        usable_nonce(nonce) == Some(t) <==> nonce is Some && text::trimmed(nonce->0) == t && t.len()
            > 0 && text::byte_len(t) <= 64,
        clean_nonce_view(nonce) == NonceView::Clean(t) <==> usable_nonce(nonce) == Some(t),
        clean_nonce_view(nonce) == NonceView::Omitted <==> usable_nonce(nonce) is None,
{
}

/// A frame that comes too soon and one for which there is no room are refused by different codes, as
/// errors.
pub proof fn refused_frames_say_why()
    ensures
        rate_limit_text().event == "error",
        rate_limit_text().code == "RATE_LIMITED",
        queue_full_text().event == "error",
        queue_full_text().code == "QUEUE_FULL",
{
}

/// A nonce has at most 64 bytes.
pub proof fn nonces_are_short()
    ensures
        MAX_NONCE_BYTES == 64,
{
}

/// Whoever sends too fast is told so in these words.
pub proof fn rate_limit_text_is_worded()
    ensures
        rate_limit_text().message == "Rate limit exceeded",
{
}

/// Whoever sends too much at once is told so in these words.
pub proof fn queue_full_text_is_worded()
    ensures
        queue_full_text().message == "Zbyt wiele operacji naraz. Spróbuj ponownie.",
{
}

} // verus!
