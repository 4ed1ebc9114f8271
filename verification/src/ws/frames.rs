//! Frames that go out over the sockets: what they are called, who gets them, what stands in them.
use vstd::prelude::*;
use crate::lists::texts;
use crate::text;
use crate::ws::events::{FailureText, NonceField, NonceView, Refusal, RefusalText};
use crate::ws::message::{mention_preview, mention_preview_of};
use crate::ws::reaction::ShownReaction;

verus! {

/// What stands in a field of a frame.
pub enum FrameValue {
    Text(String),
    /// A text or null.
    MaybeText(Option<String>),
    Flag(bool),
    Number(u64),
    Texts(Vec<String>),
    /// Every reaction with those who gave it.
    Reactions(Vec<ShownReaction>),
    /// The `sender` of the message as it is shown. Where that has none, an object with this
    /// identifier stands for it, or null.
    Sender(Option<String>),
    Person(Person),
}

/// Somebody as they are shown: by their identifier, and by their names if they are known.
pub struct Person {
    pub id: String,
    pub names: Option<PersonNames>,
}

/// The names of somebody, and how they look.
pub struct PersonNames {
    pub username: String,
    pub display_name: Option<String>,
    pub image: Option<String>,
    pub color: Option<i32>,
}

/// Somebody as they are shown.
#[verifier::ext_equal]
pub struct PersonView {
    pub id: Seq<char>,
    pub names: Option<PersonNamesView>,
}

/// The names of somebody, and how they look.
#[verifier::ext_equal]
pub struct PersonNamesView {
    pub username: Seq<char>,
    pub display_name: Option<Seq<char>>,
    pub image: Option<Seq<char>>,
    pub color: Option<i32>,
}

impl View for Person {
    type V = PersonView;

    open spec fn view(&self) -> PersonView {
        PersonView {
            id: self.id@,
            names: match self.names {
                Some(n) => Some(
                    PersonNamesView {
                        username: n.username@,
                        display_name: text::opt_text(n.display_name),
                        image: text::opt_text(n.image),
                        color: n.color,
                    },
                ),
                None => None,
            },
        }
    }
}

/// A reaction as it is shown: the emoji and the texts of those who gave it.
#[verifier::ext_equal]
pub struct ReactionView {
    pub emoji: Seq<char>,
    pub users: Seq<Seq<char>>,
}

/// What stands in a field of a frame.
#[verifier::ext_equal]
pub enum FrameValueView {
    Text(Seq<char>),
    MaybeText(Option<Seq<char>>),
    Flag(bool),
    Number(u64),
    Texts(Seq<Seq<char>>),
    Reactions(Seq<ReactionView>),
    Sender(Option<Seq<char>>),
    Person(PersonView),
}

/// Reactions as they are shown.
pub open spec fn reaction_views(v: Seq<ShownReaction>) -> Seq<ReactionView> {
    v.map_values(|s: ShownReaction| ReactionView { emoji: s.emoji@, users: texts(s.users@) })
}

impl View for FrameValue {
    type V = FrameValueView;

    open spec fn view(&self) -> FrameValueView {
        match *self {
            FrameValue::Text(s) => FrameValueView::Text(s@),
            FrameValue::MaybeText(s) => FrameValueView::MaybeText(text::opt_text(s)),
            FrameValue::Flag(b) => FrameValueView::Flag(b),
            FrameValue::Number(n) => FrameValueView::Number(n),
            FrameValue::Texts(v) => FrameValueView::Texts(texts(v@)),
            FrameValue::Reactions(v) => FrameValueView::Reactions(reaction_views(v@)),
            FrameValue::Sender(s) => FrameValueView::Sender(text::opt_text(s)),
            FrameValue::Person(p) => FrameValueView::Person(p@),
        }
    }
}

/// A field of a frame.
pub struct FrameField {
    pub key: &'static str,
    pub value: FrameValue,
}

/// A field of a frame.
#[verifier::ext_equal]
pub struct FrameFieldView {
    pub key: Seq<char>,
    pub value: FrameValueView,
}

impl View for FrameField {
    type V = FrameFieldView;

    open spec fn view(&self) -> FrameFieldView {
        FrameFieldView { key: self.key@, value: self.value@ }
    }
}

/// A frame: who gets it, in this order, what it is called and what stands in it. `message`: its
/// body is the message as it is shown, and the fields are put into that.
pub struct Frame {
    pub to: Vec<String>,
    pub event: &'static str,
    pub message: bool,
    pub fields: Vec<FrameField>,
}

/// A frame: who gets it, what it is called and what stands in it.
#[verifier::ext_equal]
pub struct FrameView {
    pub to: Seq<Seq<char>>,
    pub event: Seq<char>,
    pub message: bool,
    pub fields: Seq<FrameFieldView>,
}

/// The fields of a frame.
pub open spec fn field_views(v: Seq<FrameField>) -> Seq<FrameFieldView> {
    v.map_values(|f: FrameField| f@)
}

impl View for Frame {
    type V = FrameView;

    open spec fn view(&self) -> FrameView {
        FrameView {
            to: texts(self.to@),
            event: self.event@,
            message: self.message,
            fields: field_views(self.fields@),
        }
    }
}

impl FrameView {
    /// What stands under a key that occurs once.
    pub open spec fn says(self, key: Seq<char>, value: FrameValueView) -> bool {
        &&& self.fields.contains(FrameFieldView { key, value })
        &&& forall|i: int|
            0 <= i < self.fields.len() && (#[trigger] self.fields[i]).key == key
                ==> self.fields[i].value == value
    }
}

/// A field with a text.
pub open spec fn text_field(key: Seq<char>, s: Seq<char>) -> FrameFieldView {
    FrameFieldView { key, value: FrameValueView::Text(s) }
}

/// A field with a text or null.
pub open spec fn maybe_field(key: Seq<char>, s: Option<Seq<char>>) -> FrameFieldView {
    FrameFieldView { key, value: FrameValueView::MaybeText(s) }
}

/// A field with a truth value.
pub open spec fn flag_field(key: Seq<char>, b: bool) -> FrameFieldView {
    FrameFieldView { key, value: FrameValueView::Flag(b) }
}

/// A field with texts.
pub open spec fn texts_field(key: Seq<char>, s: Seq<Seq<char>>) -> FrameFieldView {
    FrameFieldView { key, value: FrameValueView::Texts(s) }
}

/// A frame with nothing but these fields.
pub open spec fn plain_frame(to: Seq<Seq<char>>, event: Seq<char>, fields: Seq<FrameFieldView>) -> FrameView {
    FrameView { to, event, message: false, fields }
}

/// A frame with a message as it is shown.
pub open spec fn message_frame(to: Seq<Seq<char>>, event: Seq<char>) -> FrameView {
    FrameView { to, event, message: true, fields: Seq::empty() }
}

/// One text.
pub fn one_text(a: &str) -> (r: Vec<String>)
    ensures
        texts(r@) == seq![a@],
{
    let mut v: Vec<String> = Vec::new();
    v.push(a.to_owned());
    proof {
        assert(texts(v@) =~= seq![a@]);
    }
    v
}

/// Two texts.
pub fn two_texts(a: &str, b: &str) -> (r: Vec<String>)
    ensures
        texts(r@) == seq![a@, b@],
{
    let mut v = one_text(a);
    let ghost before = v@;
    v.push(b.to_owned());
    proof {
        assert(texts(v@) =~= texts(before).push(b@));
        assert(texts(v@) =~= seq![a@, b@]);
    }
    v
}

/// A frame with nothing in it yet.
pub fn empty_frame(to: Vec<String>, event: &'static str) -> (r: Frame)
    ensures
        r@ == plain_frame(texts(to@), event@, Seq::empty()),
{
    let r = Frame { to, event, message: false, fields: Vec::new() };
    proof {
        assert(r@.fields =~= Seq::<FrameFieldView>::empty());
    }
    r
}

/// A frame with a message as it is shown.
pub fn shown_frame(to: Vec<String>, event: &'static str) -> (r: Frame)
    ensures
        r@ == message_frame(texts(to@), event@),
{
    let r = Frame { to, event, message: true, fields: Vec::new() };
    proof {
        assert(r@.fields =~= Seq::<FrameFieldView>::empty());
    }
    r
}

impl Frame {
    /// The frame with one field more.
    pub fn with(self, key: &'static str, value: FrameValue) -> (r: Frame)
        ensures
            r@ == (FrameView {
                fields: self@.fields.push(FrameFieldView { key: key@, value: value@ }),
                ..self@
            }),
    {
        let ghost before = self@;
        let mut fields = self.fields;
        fields.push(FrameField { key, value });
        let r = Frame { to: self.to, event: self.event, message: self.message, fields };
        proof {
            assert(r@.fields =~= before.fields.push(FrameFieldView { key: key@, value: value@ }));
        }
        r
    }

    /// The frame with a text more.
    pub fn with_text(self, key: &'static str, s: &str) -> (r: Frame)
        ensures
            r@ == (FrameView { fields: self@.fields.push(text_field(key@, s@)), ..self@ }),
    {
        self.with(key, FrameValue::Text(s.to_owned()))
    }

    /// The frame with a truth value more.
    pub fn with_flag(self, key: &'static str, b: bool) -> (r: Frame)
        ensures
            r@ == (FrameView { fields: self@.fields.push(flag_field(key@, b)), ..self@ }),
    {
        self.with(key, FrameValue::Flag(b))
    }
}

/// What somebody is told who is mentioned. `scope` is `dm` or `channel`, and `source` is who
/// wrote or which channel it is in; `sender` stands in where the message shows no sender.
pub struct MentionNews {
    pub scope: &'static str,
    pub source: String,
    pub source_name: Option<String>,
    pub message: String,
    pub sender: Option<String>,
}

/// What somebody is told who is mentioned.
#[verifier::ext_equal]
pub struct MentionView {
    pub scope: Seq<char>,
    pub source: Seq<char>,
    pub source_name: Option<Seq<char>>,
    pub message: Seq<char>,
    pub sender: Option<Seq<char>>,
}

impl View for MentionNews {
    type V = MentionView;

    open spec fn view(&self) -> MentionView {
        MentionView {
            scope: self.scope@,
            source: self.source@,
            source_name: text::opt_text(self.source_name),
            message: self.message@,
            sender: text::opt_text(self.sender),
        }
    }
}

/// The frame that tells somebody that they are mentioned.
pub open spec fn mention_frame_of(to: Seq<char>, news: MentionView, content: Seq<char>) -> FrameView {
    plain_frame(
        seq![to],
        "message-mention"@,
        seq![
            text_field("scope"@, news.scope),
            text_field("sourceId"@, news.source),
            maybe_field("sourceName"@, news.source_name),
            text_field("messageId"@, news.message),
            FrameFieldView { key: "from"@, value: FrameValueView::Sender(news.sender) },
            text_field("preview"@, mention_preview_of(content)),
        ],
    )
}

/// The frame that tells somebody that they are mentioned.
pub fn emit_mention(to: &str, news: &MentionNews, content: &str) -> (r: Frame)
    ensures
        r@ == mention_frame_of(to@, news@, content@),
{
    let r = empty_frame(one_text(to), "message-mention")
        .with_text("scope", news.scope)
        .with_text("sourceId", &news.source)
        .with("sourceName", FrameValue::MaybeText(text::copy_opt(&news.source_name)))
        .with_text("messageId", &news.message)
        .with("from", FrameValue::Sender(text::copy_opt(&news.sender)))
        .with_text("preview", &mention_preview(content));
    proof {
        assert(r@.fields =~= mention_frame_of(to@, news@, content@).fields);
    }
    r
}

/// The field that invites to try again, if it is there.
pub open spec fn retry_fields(retryable: bool) -> Seq<FrameFieldView> {
    if retryable {
        seq![flag_field("retryable"@, true)]
    } else {
        Seq::empty()
    }
}

/// The field with the message that a failure is about, if it names one.
pub open spec fn about_fields(message_id: Option<Seq<char>>) -> Seq<FrameFieldView> {
    match message_id {
        Some(id) => seq![text_field("messageId"@, id)],
        None => Seq::empty(),
    }
}

/// The frame that tells a user that something they asked for failed.
pub open spec fn failure_frame_of(
    user: Seq<char>,
    t: FailureText,
    message_id: Option<Seq<char>>,
) -> FrameView {
    plain_frame(
        seq![user],
        "error"@,
        seq![text_field("code"@, t.code@), text_field("message"@, t.message@)] + retry_fields(
            t.retryable,
        ) + about_fields(message_id),
    )
}

/// The frame that tells a user that something they asked for failed.
pub fn failure_frame(user: &str, t: FailureText, message_id: Option<&str>) -> (r: Frame)
    ensures
        r@ == failure_frame_of(
            user@,
            t,
            match message_id {
                Some(id) => Some(id@),
                None => None,
            },
        ),
{
    let start = empty_frame(one_text(user), "error").with_text("code", t.code).with_text(
        "message",
        t.message,
    );
    let tried = if t.retryable {
        start.with_flag("retryable", true)
    } else {
        start
    };
    let r = match message_id {
        Some(id) => tried.with_text("messageId", id),
        None => tried,
    };
    proof {
        assert(r@.fields =~= seq![text_field("code"@, t.code@), text_field("message"@, t.message@)]
            + retry_fields(t.retryable) + about_fields(
            match message_id {
                Some(id) => Some(id@),
                None => None,
            },
        ));
    }
    r
}

/// The field with the nonce of what is refused, if it is there.
pub open spec fn nonce_fields(n: NonceView) -> Seq<FrameFieldView> {
    match n {
        NonceView::Omitted => Seq::empty(),
        NonceView::Sent(s) => seq![maybe_field("clientNonce"@, s)],
        NonceView::Clean(s) => seq![text_field("clientNonce"@, s)],
    }
}

/// The frame that tells a user that something they asked for is refused.
pub open spec fn refusal_frame_of(user: Seq<char>, t: RefusalText, nonce: NonceView) -> FrameView {
    plain_frame(
        seq![user],
        t.event@,
        seq![text_field("code"@, t.code@), text_field("message"@, t.message@)] + nonce_fields(nonce),
    )
}

/// The frame that tells a user that something they asked for is refused.
pub fn refusal_frame(user: &str, refusal: &Refusal) -> (r: Frame)
    ensures
        r@ == refusal_frame_of(user@, refusal.text, refusal.client_nonce@),
{
    let start = empty_frame(one_text(user), refusal.text.event).with_text(
        "code",
        refusal.text.code,
    ).with_text("message", refusal.text.message);
    let r = match &refusal.client_nonce {
        NonceField::Omitted => start,
        NonceField::Sent(s) => start.with("clientNonce", FrameValue::MaybeText(text::copy_opt(s))),
        NonceField::Clean(s) => start.with_text("clientNonce", s),
    };
    proof {
        assert(r@.fields =~= seq![
            text_field("code"@, refusal.text.code@),
            text_field("message"@, refusal.text.message@),
        ] + nonce_fields(refusal.client_nonce@));
    }
    r
}

/// What somebody is told whose request failed: the code, the text, that it may be tried again exactly
/// if it may, and the message that it is about exactly if it names one.
pub proof fn failures_say_what_and_about_what(
    user: Seq<char>,
    t: FailureText,
    message_id: Option<Seq<char>>,
)
    ensures
        ({
            let f = failure_frame_of(user, t, message_id);
            &&& f.to == seq![user] && f.event == "error"@ && !f.message
            &&& f.fields[0] == text_field("code"@, t.code@)
            &&& f.fields[1] == text_field("message"@, t.message@)
            &&& t.retryable ==> f.fields[2] == flag_field("retryable"@, true)
            &&& message_id matches Some(id) ==> f.fields.last() == text_field("messageId"@, id)
            &&& f.fields.len() == 2 + (if t.retryable {
                1int
            } else {
                0
            }) + (if message_id is Some {
                1int
            } else {
                0
            })
        }),
{
}

/// What somebody is told whose request is refused: by the event of the refusal, its code and text, and
/// the nonce exactly if there is one, null where none was sent.
pub proof fn refusals_say_what_and_repeat_the_nonce(
    user: Seq<char>,
    t: RefusalText,
    nonce: NonceView,
)
    ensures
        ({
            let f = refusal_frame_of(user, t, nonce);
            &&& f.to == seq![user] && f.event == t.event@ && !f.message
            &&& f.fields[0] == text_field("code"@, t.code@)
            &&& f.fields[1] == text_field("message"@, t.message@)
            &&& f.fields.len() == 3 <==> !(nonce is Omitted)
            &&& f.fields.len() == 2 <==> nonce is Omitted
            &&& nonce matches NonceView::Sent(s) ==> f.fields[2] == maybe_field("clientNonce"@, s)
            &&& nonce matches NonceView::Clean(s) ==> f.fields[2] == text_field("clientNonce"@, s)
        }),
{
}

/// The kinds of field keep what they are given under the key that they are given.
pub proof fn fields_keep_what_they_hold(
    key: Seq<char>,
    s: Seq<char>,
    m: Option<Seq<char>>,
    b: bool,
    l: Seq<Seq<char>>,
)
    ensures
        text_field(key, s).key == key && text_field(key, s).value == FrameValueView::Text(s),
        maybe_field(key, m).key == key && maybe_field(key, m).value == FrameValueView::MaybeText(m),
        flag_field(key, b).key == key && flag_field(key, b).value == FrameValueView::Flag(b),
        texts_field(key, l).key == key && texts_field(key, l).value == FrameValueView::Texts(l),
{
}

/// A frame with a message has nothing beside it; any other frame has its fields and no message.
pub proof fn frames_hold_a_message_or_fields(
    to: Seq<Seq<char>>,
    event: Seq<char>,
    fields: Seq<FrameFieldView>,
)
    ensures
        message_frame(to, event).message && message_frame(to, event).fields.len() == 0,
        message_frame(to, event).to == to && message_frame(to, event).event == event,
        !plain_frame(to, event, fields).message && plain_frame(to, event, fields).fields == fields,
        plain_frame(to, event, fields).to == to && plain_frame(to, event, fields).event == event,
{
}

/// A mention shows who wrote by the sender that it names.
pub proof fn mentions_show_their_sender(to: Seq<char>, news: MentionView, content: Seq<char>)
    ensures
        mention_frame_of(to, news, content).fields[4] == (FrameFieldView {
            key: "from"@,
            value: FrameValueView::Sender(news.sender),
        }),
{
}

/// A mention goes to the one who is mentioned and says where it stands, in which message, and how it
/// begins.
pub proof fn mentions_say_where_they_stand(to: Seq<char>, news: MentionView, content: Seq<char>)
    ensures
        ({
            let f = mention_frame_of(to, news, content);
            &&& f.to == seq![to] && f.event == "message-mention"@ && !f.message
            &&& f.fields.len() == 6
            &&& f.fields[0] == text_field("scope"@, news.scope)
            &&& f.fields[1] == text_field("sourceId"@, news.source)
            &&& f.fields[2] == maybe_field("sourceName"@, news.source_name)
            &&& f.fields[3] == text_field("messageId"@, news.message)
            &&& f.fields[5] == text_field("preview"@, mention_preview_of(content))
        }),
{
}

} // verus!
