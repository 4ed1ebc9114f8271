//! Chat messages as they are handed to the store.
use vstd::prelude::*;
use crate::ids::ObjectId;
use crate::text::{self, ascii_upper};

verus! {

/// The kinds of chat message.
#[derive(Clone, Copy, Debug, PartialEq, Eq, Structural)]
pub enum MessageType {
    Text,
    File,
    Image,
    Video,
    Audio,
    Sticker,
    Call,
}

/// How far the check of an attached file has come.
#[derive(Clone, Copy, Debug, PartialEq, Eq, Structural)]
pub enum ScanStatus {
    Clean,
    Pending,
    Other,
}

/// The kind that an upper-case name stands for; any other name means a text message.
pub open spec fn message_type_named(upper: Seq<char>) -> MessageType {
    if upper == "FILE"@ {
        MessageType::File
    } else if upper == "IMAGE"@ {
        MessageType::Image
    } else if upper == "VIDEO"@ {
        MessageType::Video
    } else if upper == "AUDIO"@ {
        MessageType::Audio
    } else if upper == "STICKER"@ {
        MessageType::Sticker
    } else {
        MessageType::Text
    }
}

/// The kind that an upper-case name stands for; any other name means a text message.
pub fn message_type_of(upper: &str) -> (r: MessageType)
    ensures
        r == message_type_named(upper@),
{
    if text::same_text(upper, "FILE") {
        MessageType::File
    } else if text::same_text(upper, "IMAGE") {
        MessageType::Image
    } else if text::same_text(upper, "VIDEO") {
        MessageType::Video
    } else if text::same_text(upper, "AUDIO") {
        MessageType::Audio
    } else if text::same_text(upper, "STICKER") {
        MessageType::Sticker
    } else {
        MessageType::Text
    }
}

/// The kind that a name of any case stands for.
pub fn parse_message_type(s: &str) -> (r: MessageType)
    ensures
        r == message_type_named(text::uppercase(s@)),
        text::all_ascii(s@) ==> r == message_type_named(ascii_upper(s@)),
{
    let upper = text::to_uppercase(s);
    message_type_of(&upper)
}

/// The kind that an optional name stands for; no name means a text message.
pub open spec fn message_type_or_text(name: Option<String>) -> MessageType {
    message_type_named(
        text::uppercase(
            match name {
                Some(n) => n@,
                None => "TEXT"@,
            },
        ),
    )
}

/// The kind that an optional name stands for; no name means a text message.
pub fn parse_message_type_or_text(name: &Option<String>) -> (r: MessageType)
    ensures
        r == message_type_or_text(*name),
{
    match name {
        Some(n) => parse_message_type(n),
        None => parse_message_type("TEXT"),
    }
}

/// A message to be stored.
pub struct CreateMessageInput {
    pub sender: ObjectId,
    pub recipient: Option<ObjectId>,
    pub channel: Option<ObjectId>,
    pub content: String,
    pub message_type: MessageType,
    pub file_url: Option<String>,
    pub file_type: Option<String>,
    pub file_size: Option<u64>,
    pub file_name: Option<String>,
    pub scan_status: ScanStatus,
    pub duration_ms: Option<u32>,
    pub quoted_message: Option<ObjectId>,
    pub mentions: Option<Vec<ObjectId>>,
    pub mentions_everyone: Option<bool>,
    pub client_nonce: Option<String>,
    pub read: Option<bool>,
}

/// What a message to be stored says.
#[verifier::ext_equal]
pub struct CreateMessageView {
    pub sender: ObjectId,
    pub recipient: Option<ObjectId>,
    pub channel: Option<ObjectId>,
    pub content: Seq<char>,
    pub message_type: MessageType,
    pub file_url: Option<Seq<char>>,
    pub file_type: Option<Seq<char>>,
    pub file_size: Option<u64>,
    pub file_name: Option<Seq<char>>,
    pub scan_status: ScanStatus,
    pub duration_ms: Option<u32>,
    pub quoted_message: Option<ObjectId>,
    pub mentions: Option<Seq<ObjectId>>,
    pub mentions_everyone: Option<bool>,
    pub client_nonce: Option<Seq<char>>,
    pub read: Option<bool>,
}

impl View for CreateMessageInput {
    type V = CreateMessageView;

    open spec fn view(&self) -> CreateMessageView {
        CreateMessageView {
            sender: self.sender,
            recipient: self.recipient,
            channel: self.channel,
            content: self.content@,
            message_type: self.message_type,
            file_url: text::opt_text(self.file_url),
            file_type: text::opt_text(self.file_type),
            file_size: self.file_size,
            file_name: text::opt_text(self.file_name),
            scan_status: self.scan_status,
            duration_ms: self.duration_ms,
            quoted_message: self.quoted_message,
            mentions: match self.mentions {
                Some(v) => Some(v@),
                None => None,
            },
            mentions_everyone: self.mentions_everyone,
            client_nonce: text::opt_text(self.client_nonce),
            read: self.read,
        }
    }
}

/// What became of storing a message.
#[derive(Clone, Copy, Debug, PartialEq, Eq, Structural)]
pub enum Creation {
    /// The message is new.
    Created,
    /// The same message had been stored before under this nonce.
    Replay,
    /// Another message had been stored before under this nonce.
    NonceConflict,
    Failed,
}

/// Whether a stored message has a file that waits for its check.
pub open spec fn needs_scan_of(scan_status: ScanStatus, has_file: bool) -> bool {
    scan_status == ScanStatus::Pending && has_file
}

/// Whether a stored message has a file that waits for its check, and so has to be queued.
pub fn needs_scan(scan_status: ScanStatus, has_file: bool) -> (r: bool)
    ensures
        r == needs_scan_of(scan_status, has_file),
{
    scan_status == ScanStatus::Pending && has_file
}

/// The longest preview of a mention, in characters.
pub const MENTION_PREVIEW_CHARS: usize = 140;

/// The preview of a message in a mention: its trimmed content, cut after 140 characters
/// with an ellipsis.
pub open spec fn mention_preview_of(content: Seq<char>) -> Seq<char> {
    let t = text::trimmed(content);
    if t.len() > MENTION_PREVIEW_CHARS {
        t.take(MENTION_PREVIEW_CHARS as int).push('…')
    } else {
        t
    }
}

/// The preview of a message in a mention.
pub fn mention_preview(content: &str) -> (r: String)
    ensures
        r@ == mention_preview_of(content@),
{
    let t = text::trim(content);
    if t.unicode_len() > MENTION_PREVIEW_CHARS {
        let head = t.substring_char(0, MENTION_PREVIEW_CHARS);
        let mut out = head.to_owned();
        out.push('…');
        proof {
            assert(t@.subrange(0, MENTION_PREVIEW_CHARS as int) =~= t@.take(
                MENTION_PREVIEW_CHARS as int,
            ));
        }
        out
    } else {
        t.to_owned()
    }
}

/// A mention preview has at most 141 characters.
pub proof fn mention_preview_is_short(content: Seq<char>)
    ensures
        mention_preview_of(content).len() <= MENTION_PREVIEW_CHARS + 1,
{
}

/// The kinds of message go by their names; any other name, and none, stands for a text.
pub proof fn message_kinds_go_by_name(upper: Seq<char>)
    ensures
        message_type_named(upper) == MessageType::File <==> upper == "FILE"@,
        message_type_named(upper) == MessageType::Image <==> upper == "IMAGE"@,
        message_type_named(upper) == MessageType::Video <==> upper == "VIDEO"@,
        message_type_named(upper) == MessageType::Audio <==> upper == "AUDIO"@,
        message_type_named(upper) == MessageType::Sticker <==> upper == "STICKER"@,
        message_type_named(upper) != MessageType::Call,
{
    reveal_strlit("FILE");
    reveal_strlit("IMAGE");
    reveal_strlit("VIDEO");
    reveal_strlit("AUDIO");
    reveal_strlit("STICKER");
    assert("FILE"@.len() == 4 && "STICKER"@.len() == 7 && "IMAGE"@.len() == 5);
    assert("IMAGE"@[0] == 'I' && "VIDEO"@[0] == 'V' && "AUDIO"@[0] == 'A');
}

/// A preview is the whole text, without the white space around it, up to 140 characters, and else the
/// first 140 of them with an ellipsis.
pub proof fn previews_begin_as_the_text(content: Seq<char>)
    ensures
        ({
            let t = text::trimmed(content);
            let p = mention_preview_of(content);
            &&& t.len() <= 140 ==> p == t
            &&& t.len() > 140 ==> p.len() == 141 && p.take(140) == t.take(140) && p[140] == '…'
        }),
{
    let t = text::trimmed(content);
    if t.len() > 140 {
        assert(t.take(140).push('…').take(140) =~= t.take(140));
    }
}

/// A file waits for its check exactly if it is there and its check is pending.
pub proof fn pending_files_wait(scan_status: ScanStatus, has_file: bool)
    ensures
        needs_scan_of(scan_status, has_file) <==> scan_status == ScanStatus::Pending && has_file,
{
}

/// A message without a type is a text, and a type is named in capitals, however it is written.
pub proof fn types_are_named_in_capitals(name: Option<String>)
    ensures
        name is None ==> message_type_or_text(name) == message_type_named(text::uppercase("TEXT"@)),
        name is Some ==> message_type_or_text(name) == message_type_named(text::uppercase(name->0@)),
{
}

/// A preview has at most 140 characters.
pub proof fn previews_are_short()
    ensures
        MENTION_PREVIEW_CHARS == 140,
{
}

} // verus!
