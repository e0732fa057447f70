//! What the watcher makes of one incoming event: whether it is relayed, under
//! which heading, and the text that goes out.

use vstd::prelude::*;
use vstd::string::StringExecFns;
use crate::text::opt_text;
use crate::text::opt_str_text;
use crate::text::copy_opt_string;
use crate::names::DisplayInfo;
use crate::text::clip;
use crate::text::clipped;

verus! {

/// The kind of a plain note.
pub const TEXT_NOTE: u16 = 1;

/// The kind of a reaction.
pub const REACTION: u16 = 7;

/// The kind of a channel message.
pub const CHANNEL_MESSAGE: u16 = 42;

/// The longest text a webhook takes, in characters.
pub const WEBHOOK_LIMIT: usize = 2000;

/// How many characters of a longer text go to the webhook before the ellipsis.
pub const WEBHOOK_KEEP: usize = 1997;

/// How many characters of a reacted-to event are quoted.
pub const EXCERPT_LIMIT: usize = 200;

/// The role of a referenced event in a thread.
#[derive(Debug, Clone, Copy, PartialEq, Eq)]
pub enum Marker {
    Root,
    Reply,
    Mention,
}

/// One annotation of an event, as far as the watcher reads it.
#[derive(Debug)]
pub enum Tag {
    /// A reference to another event: its id in hex, its id in the form shown
    /// to people where that could be derived, and its role.
    Event { event_id: String, note_id: Option<String>, marker: Option<Marker> },
    /// A reference to an identity.
    PublicKey { public_key: String },
    /// Any other annotation.
    Custom,
}

/// One incoming event, as far as the watcher reads it.
#[derive(Debug)]
pub struct WatchEvent {
    /// The author's key in hex.
    pub author: String,
    /// The author's key in the form shown to people.
    pub author_npub: String,
    /// The event's id in the form shown to people.
    pub note_id: String,
    pub kind: u16,
    pub content: String,
    pub tags: Vec<Tag>,
}

/// What is sent to the webhook.
#[derive(Debug)]
pub struct WebhookPayload {
    pub content: String,
    pub username: String,
    pub avatar_url: Option<String>,
}

/// Under which heading an event is relayed, if at all.
#[derive(Debug, Clone, Copy, PartialEq, Eq)]
pub enum Class {
    Skip,
    Channel,
    Reply,
    Mention,
    Reaction,
}

/// Whether `tag` refers to `channel` as the root of a thread.
pub open spec fn is_root_ref(tag: Tag, channel: Seq<char>) -> bool {
    match tag {
        Tag::Event { event_id, marker, .. } => event_id@ == channel && marker == Some(
            Marker::Root,
        ),
        _ => false,
    }
}

/// Whether some tag refers to `channel` as the root of a thread.
pub open spec fn refers_to_root(tags: Seq<Tag>, channel: Seq<char>) -> bool {
    exists|i: int| 0 <= i < tags.len() && is_root_ref(#[trigger] tags[i], channel)
}

/// The position of the first reference to an event at or after `from`.
pub open spec fn first_event_ref(tags: Seq<Tag>, from: int) -> Option<int>
    decreases tags.len() - from,
{
    if from < 0 || from >= tags.len() {
        None
    } else if tags[from] is Event {
        Some(from)
    } else {
        first_event_ref(tags, from + 1)
    }
}

/// The heading of an event of `kind` with `tags`, for a watcher of `channel`.
///
/// A channel message is relayed only to a watcher of a channel, and only if
/// a tag refers to that channel as root. A plain note is a reply if it refers
/// to an event, else a mention. A reaction is relayed. Nothing else is.
pub open spec fn class_of(kind: u16, tags: Seq<Tag>, channel: Option<Seq<char>>) -> Class {
    if kind == CHANNEL_MESSAGE {
        match channel {
            Some(id) => if refers_to_root(tags, id) {
                Class::Channel
            } else {
                Class::Skip
            },
            None => Class::Skip,
        }
    } else if kind == TEXT_NOTE {
        if first_event_ref(tags, 0) is Some {
            Class::Reply
        } else {
            Class::Mention
        }
    } else if kind == REACTION {
        Class::Reaction
    } else {
        Class::Skip
    }
}

/// Whether an event is passed over because the operator wrote it: so is
/// every event of the operator's but a channel message.
pub open spec fn is_own_echo(author: Seq<char>, kind: u16, own: Seq<char>) -> bool {
    author == own && kind != CHANNEL_MESSAGE
}

/// The text for a channel message.
pub open spec fn channel_text(
    sender: Seq<char>,
    npub: Seq<char>,
    note_id: Seq<char>,
    content: Seq<char>,
) -> Seq<char> {
    "**"@ + sender + "**\nnpub: "@ + npub + "\nnote: "@ + note_id + "\n\n"@ + content
}

/// The label of a plain note.
pub open spec fn note_label(reply: bool) -> Seq<char> {
    if reply {
        "リプライ"@
    } else {
        "メンション"@
    }
}

/// The text for a plain note.
pub open spec fn note_text(
    reply: bool,
    sender: Seq<char>,
    content: Seq<char>,
    note_id: Seq<char>,
) -> Seq<char> {
    "📩 **"@ + note_label(reply) + "** from "@ + sender + "\n> "@ + content + "\n🔗 "@ + note_id
}

/// The glyph of a reaction: its content, or a thumbs-up when that is empty.
pub open spec fn reaction_glyph(content: Seq<char>) -> Seq<char> {
    if content.len() == 0 {
        "👍"@
    } else {
        content
    }
}

/// The quotation of the reacted-to event: its first characters up to the
/// excerpt limit, with the ellipsis if it is longer; nothing where the event
/// could not be had.
pub open spec fn excerpt_line(original: Option<Seq<char>>) -> Seq<char> {
    match original {
        Some(content) => "\n\n> "@ + clipped(
            content,
            EXCERPT_LIMIT as nat,
            EXCERPT_LIMIT as nat,
        ),
        None => Seq::<char>::empty(),
    }
}

/// How the reacted-to event is named: by the first event reference among the
/// tags, in the form shown to people; `unknown` without one.
pub open spec fn reacted_note(tags: Seq<Tag>) -> Seq<char> {
    match first_event_ref(tags, 0) {
        Some(i) => match tags[i] {
            Tag::Event { note_id: Some(note_id), .. } => note_id@,
            _ => "unknown"@,
        },
        None => "unknown"@,
    }
}

/// The text for a reaction.
pub open spec fn reaction_text(
    sender: Seq<char>,
    content: Seq<char>,
    npub: Seq<char>,
    original: Option<Seq<char>>,
    reacted: Seq<char>,
) -> Seq<char> {
    "**"@ + sender + "** reacted "@ + reaction_glyph(content) + "\nnpub: "@ + npub
        + excerpt_line(original) + "\nnote: "@ + reacted
}

/// The text that is relayed for `event` under the heading `class`, with the
/// sender shown as `sender` and, for a reaction, the content of the
/// reacted-to event where it could be had. Nothing is relayed under `Skip`.
pub open spec fn message_text(
    event: WatchEvent,
    class: Class,
    sender: Seq<char>,
    original: Option<Seq<char>>,
) -> Seq<char> {
    match class {
        Class::Skip => Seq::<char>::empty(),
        Class::Channel => channel_text(sender, event.author_npub@, event.note_id@, event.content@),
        Class::Reply => note_text(true, sender, event.content@, event.note_id@),
        Class::Mention => note_text(false, sender, event.content@, event.note_id@),
        Class::Reaction => reaction_text(
            sender,
            event.content@,
            event.author_npub@,
            original,
            reacted_note(event.tags@),
        ),
    }
}

/// Finds the first reference to an event among `tags`.
pub fn find_event_ref(tags: &Vec<Tag>) -> (found: Option<usize>)
    ensures
        match found {
            Some(i) => first_event_ref(tags@, 0) == Some(i as int) && i < tags@.len()
                && tags@[i as int] is Event,
            None => first_event_ref(tags@, 0) == None::<int>,
        },
{
    let mut found: Option<usize> = None;
    let mut j: usize = tags.len();
    while j > 0
        invariant
            j <= tags@.len(),
            match found {
                Some(i) => first_event_ref(tags@, j as int) == Some(i as int) && i < tags@.len()
                    && tags@[i as int] is Event,
                None => first_event_ref(tags@, j as int) == None::<int>,
            },
        decreases j,
    {
        j -= 1;
        match &tags[j] {
            Tag::Event { .. } => {
                found = Some(j);
            },
            _ => {},
        }
    }
    found
}

/// Whether some tag of `tags` refers to `channel` as the root of a thread.
pub fn has_root_ref(tags: &Vec<Tag>, channel: &String) -> (found: bool)
    ensures
        found == refers_to_root(tags@, channel@),
{
    let mut i: usize = 0;
    while i < tags.len()
        invariant
            i <= tags@.len(),
            forall|j: int| 0 <= j < i ==> !is_root_ref(#[trigger] tags@[j], channel@),
        decreases tags@.len() - i,
    {
        let hit = match &tags[i] {
            Tag::Event { event_id, marker, .. } => {
                let root = match marker {
                    Some(Marker::Root) => true,
                    _ => false,
                };
                root && *event_id == *channel
            },
            _ => false,
        };
        if hit {
            assert(is_root_ref(tags@[i as int], channel@));
            return true;
        }
        i += 1;
    }
    false
}

/// Decides under which heading `event` is relayed to a watcher of `channel`.
pub fn classify(event: &WatchEvent, channel: &Option<String>) -> (class: Class)
    ensures
        class == class_of(event.kind, event.tags@, opt_text(*channel)),
{
    if event.kind == CHANNEL_MESSAGE {
        match channel {
            Some(id) => {
                if has_root_ref(&event.tags, id) {
                    Class::Channel
                } else {
                    Class::Skip
                }
            },
            None => Class::Skip,
        }
    } else if event.kind == TEXT_NOTE {
        if find_event_ref(&event.tags).is_some() {
            Class::Reply
        } else {
            Class::Mention
        }
    } else if event.kind == REACTION {
        Class::Reaction
    } else {
        Class::Skip
    }
}

/// Decides whether `event` is passed over because the operator, whose key is
/// `own`, wrote it.
pub fn own_echo(event: &WatchEvent, own: &String) -> (echo: bool)
    ensures
        echo == is_own_echo(event.author@, event.kind, own@),
{
    event.kind != CHANNEL_MESSAGE && event.author == *own
}

/// Writes the text that is relayed for `event` under the heading `class`.
pub fn compose(event: &WatchEvent, class: Class, sender: &str, original: Option<&str>) -> (out:
    String)
    ensures
        out@ == message_text(*event, class, sender@, opt_str_text(original)),
{
    match class {
        Class::Skip => String::new(),
        Class::Channel => {
            let mut out = "**".to_owned();
            out.append(sender);
            out.append("**\nnpub: ");
            out.append(event.author_npub.as_str());
            out.append("\nnote: ");
            out.append(event.note_id.as_str());
            out.append("\n\n");
            out.append(event.content.as_str());
            out
        },
        Class::Reply | Class::Mention => {
            let mut out = "📩 **".to_owned();
            match class {
                Class::Reply => out.append("リプライ"),
                _ => out.append("メンション"),
            }
            out.append("** from ");
            out.append(sender);
            out.append("\n> ");
            out.append(event.content.as_str());
            out.append("\n🔗 ");
            out.append(event.note_id.as_str());
            out
        },
        Class::Reaction => {
            let mut out = "**".to_owned();
            out.append(sender);
            out.append("** reacted ");
            if event.content.as_str().is_empty() {
                out.append("👍");
            } else {
                out.append(event.content.as_str());
            }
            out.append("\nnpub: ");
            out.append(event.author_npub.as_str());
            match original {
                Some(content) => {
                    let quoted = clip(content, EXCERPT_LIMIT, EXCERPT_LIMIT);
                    let mut line = "\n\n> ".to_owned();
                    line.append(quoted.as_str());
                    out.append(line.as_str());
                },
                None => {
                    assert(out@ + Seq::<char>::empty() =~= out@);
                },
            }
            out.append("\nnote: ");
            match find_event_ref(&event.tags) {
                Some(i) => match &event.tags[i] {
                    Tag::Event { note_id: Some(note_id), .. } => out.append(note_id.as_str()),
                    _ => out.append("unknown"),
                },
                None => out.append("unknown"),
            }
            out
        },
    }
}

/// What goes to the webhook for `message`: the message cut to the webhook's
/// limit, under the sender's name and avatar.
pub open spec fn payload_matches(
    payload: WebhookPayload,
    message: Seq<char>,
    name: Seq<char>,
    avatar: Option<Seq<char>>,
) -> bool {
    &&& payload.content@ == clipped(message, WEBHOOK_KEEP as nat, WEBHOOK_LIMIT as nat)
    &&& payload.username@ == name
    &&& opt_text(payload.avatar_url) == avatar
}

/// Prepares what goes to the webhook for `message` from `sender`.
pub fn webhook_payload(message: &str, sender: &DisplayInfo) -> (payload: WebhookPayload)
    ensures
        payload_matches(payload, message@, sender@.name, sender@.avatar),
{
    WebhookPayload {
        content: clip(message, WEBHOOK_KEEP, WEBHOOK_LIMIT),
        username: sender.name.clone(),
        avatar_url: copy_opt_string(&sender.avatar),
    }
}

/// What one run of the watcher is asked to watch: an identity, by default the
/// operator's own, a channel, or both; and where the alerts go.
#[derive(Debug)]
pub struct WatchTarget {
    pub npub: Option<String>,
    pub channel_id: Option<String>,
    pub webhook_url: String,
}

impl WatchTarget {
    /// Whether channel messages are subscribed to: when a channel is named.
    pub fn watches_channel(&self) -> (watched: bool)
        ensures
            watched == (self.channel_id is Some),
    {
        self.channel_id.is_some()
    }

    /// Whether mentions, replies and reactions are subscribed to: always,
    /// except where a channel is named and no identity.
    pub fn watches_mentions(&self) -> (watched: bool)
        ensures
            watched == (self.channel_id is None || self.npub is Some),
    {
        self.channel_id.is_none() || self.npub.is_some()
    }
}

} // verus!
