//! The watch session as a state machine.
//!
//! The caller owns the network: it waits for notifications, fetches profiles
//! and events, and posts to the webhook. The session decides. Each answer of
//! the outside world goes in as a `WatchInput`, and what comes back is the
//! next thing to do, a `WatchAction`.

use vstd::prelude::*;
use vstd::string::StringExecFns;
use crate::cache::lookup;
use crate::text::opt_text;
use crate::names::remembered;
use crate::names::resolve_display;
use crate::names::shown;
use crate::names::DisplayInfo;
use crate::names::DisplayView;
use crate::names::ProfileDisplayCache;
use crate::names::ProfileMetadata;
use crate::text::clipped;
use crate::watch::class_of;
use crate::watch::classify;
use crate::watch::compose;
use crate::watch::find_event_ref;
use crate::watch::first_event_ref;
use crate::watch::is_own_echo;
use crate::watch::message_text;
use crate::watch::own_echo;
use crate::watch::reacted_note;
use crate::watch::refers_to_root;
use crate::watch::webhook_payload;
use crate::watch::Class;
use crate::watch::Tag;
use crate::watch::WatchEvent;
use crate::watch::WebhookPayload;
use crate::watch::CHANNEL_MESSAGE;
use crate::watch::REACTION;
use crate::watch::TEXT_NOTE;
use crate::watch::WEBHOOK_KEEP;
use crate::watch::WEBHOOK_LIMIT;

verus! {

/// What the outside world reports to the session.
#[derive(Debug)]
pub enum WatchInput {
    /// An event arrived on the subscription.
    Notification(WatchEvent),
    /// The answer to `FetchProfile`; `None` where the fetch failed or found
    /// nothing.
    Profile(Option<ProfileMetadata>),
    /// The answer to `FetchOriginal`: the content of the event; `None` where
    /// the fetch failed or found nothing.
    Original(Option<String>),
    /// The answer to `Deliver`: `None` after a success, the error's text
    /// after a failure.
    Delivered(Option<String>),
}

/// What the session asks of the outside world.
#[derive(Debug)]
pub enum WatchAction {
    /// Wait for the next notification.
    Next,
    /// Fetch the profile metadata of the author with this key.
    FetchProfile { pubkey: String },
    /// Fetch the event with this id.
    FetchOriginal { event_id: String },
    /// Show `message` to the operator and post `payload` to the webhook.
    Deliver { message: String, payload: WebhookPayload },
    /// Show `line` to the operator as an error, then wait for the next
    /// notification.
    Report { line: String },
}

/// What the session is waiting for.
#[derive(Debug)]
pub enum Pending {
    /// The next notification.
    Idle,
    /// The profile of the author of `event`.
    Naming { event: WatchEvent },
    /// The event that `event` reacts to.
    Excerpting { event: WatchEvent, sender: DisplayInfo },
    /// The outcome of a delivery.
    Delivering,
}

/// A `Pending` as mathematical values.
pub enum PendingView {
    Idle,
    Naming { event: WatchEvent },
    Excerpting { event: WatchEvent, sender: DisplayView },
    Delivering,
}

/// A `WatchAction` as mathematical values.
pub enum ActionView {
    Next,
    FetchProfile { pubkey: Seq<char> },
    FetchOriginal { event_id: Seq<char> },
    Deliver { message: Seq<char>, content: Seq<char>, username: Seq<char>, avatar_url: Option<Seq<char>> },
    Report { line: Seq<char> },
}

impl View for Pending {
    type V = PendingView;

    open spec fn view(&self) -> PendingView {
        match *self {
            Pending::Idle => PendingView::Idle,
            Pending::Naming { event } => PendingView::Naming { event },
            Pending::Excerpting { event, sender } => PendingView::Excerpting {
                event,
                sender: sender@,
            },
            Pending::Delivering => PendingView::Delivering,
        }
    }
}

impl View for WatchAction {
    type V = ActionView;

    open spec fn view(&self) -> ActionView {
        match *self {
            WatchAction::Next => ActionView::Next,
            WatchAction::FetchProfile { pubkey } => ActionView::FetchProfile { pubkey: pubkey@ },
            WatchAction::FetchOriginal { event_id } => ActionView::FetchOriginal {
                event_id: event_id@,
            },
            WatchAction::Deliver { message, payload } => ActionView::Deliver {
                message: message@,
                content: payload.content@,
                username: payload.username@,
                avatar_url: opt_text(payload.avatar_url),
            },
            WatchAction::Report { line } => ActionView::Report { line: line@ },
        }
    }
}

/// What a session is, as mathematical values: the operator's key, the
/// watched channel, the authors resolved so far, and what it is waiting for.
pub struct SessionView {
    pub own: Seq<char>,
    pub channel: Option<Seq<char>>,
    pub names: Map<Seq<char>, DisplayView>,
    pub pending: PendingView,
}

/// The delivery of `message` from `sender`: the message in full for the
/// operator, and cut to the webhook's limit for the webhook.
pub open spec fn delivery(message: Seq<char>, sender: DisplayView) -> ActionView {
    ActionView::Deliver {
        message,
        content: clipped(message, WEBHOOK_KEEP as nat, WEBHOOK_LIMIT as nat),
        username: sender.name,
        avatar_url: sender.avatar,
    }
}

/// What follows once the author of `event` is resolved to `sender`.
///
/// An event that is not relayed ends here. A reaction that refers to an
/// event asks for that event first. Everything else is delivered.
pub open spec fn after_named(
    channel: Option<Seq<char>>,
    event: WatchEvent,
    sender: DisplayView,
) -> (PendingView, ActionView) {
    let class = class_of(event.kind, event.tags@, channel);
    match class {
        Class::Skip => (PendingView::Idle, ActionView::Next),
        Class::Reaction => match first_event_ref(event.tags@, 0) {
            Some(i) => (
                PendingView::Excerpting { event, sender },
                ActionView::FetchOriginal { event_id: event.tags@[i]->event_id@ },
            ),
            None => (
                PendingView::Delivering,
                delivery(message_text(event, class, sender.name, None), sender),
            ),
        },
        _ => (
            PendingView::Delivering,
            delivery(message_text(event, class, sender.name, None), sender),
        ),
    }
}

/// The line shown to the operator after a failed delivery.
pub open spec fn failure_line(error: Seq<char>) -> Seq<char> {
    "Webhook error: "@ + error
}

/// One step of the session: the state after `input`, and what to do next.
///
/// A notification starts afresh, whatever was pending. An event that the
/// operator wrote, other than a channel message, is passed over, and so is
/// an event that is not relayed: neither costs a fetch. Only then is the
/// author resolved, from memory or by a fetch, and the event relayed. An
/// answer that was not asked for returns the session to idle. After a
/// delivery the session is idle again, whether it succeeded or not.
pub open spec fn step_of(state: SessionView, input: WatchInput) -> (SessionView, ActionView) {
    match input {
        WatchInput::Notification(event) => {
            if is_own_echo(event.author@, event.kind, state.own) {
                (SessionView { pending: PendingView::Idle, ..state }, ActionView::Next)
            } else if class_of(event.kind, event.tags@, state.channel) is Skip {
                (SessionView { pending: PendingView::Idle, ..state }, ActionView::Next)
            } else {
                match lookup(state.names, event.author@) {
                    Some(sender) => {
                        let (pending, action) = after_named(state.channel, event, sender);
                        (SessionView { pending, ..state }, action)
                    },
                    None => (
                        SessionView { pending: PendingView::Naming { event }, ..state },
                        ActionView::FetchProfile { pubkey: event.author@ },
                    ),
                }
            }
        },
        WatchInput::Profile(fetched) => match state.pending {
            PendingView::Naming { event } => {
                let sender = shown(event.author_npub@, fetched);
                let (pending, action) = after_named(state.channel, event, sender);
                (
                    SessionView {
                        names: remembered(state.names, event.author@, sender),
                        pending,
                        ..state
                    },
                    action,
                )
            },
            _ => (SessionView { pending: PendingView::Idle, ..state }, ActionView::Next),
        },
        WatchInput::Original(content) => match state.pending {
            PendingView::Excerpting { event, sender } => (
                SessionView { pending: PendingView::Delivering, ..state },
                delivery(
                    message_text(event, Class::Reaction, sender.name, opt_text(content)),
                    sender,
                ),
            ),
            _ => (SessionView { pending: PendingView::Idle, ..state }, ActionView::Next),
        },
        WatchInput::Delivered(outcome) => match (state.pending, outcome) {
            (PendingView::Delivering, Some(error)) => (
                SessionView { pending: PendingView::Idle, ..state },
                ActionView::Report { line: failure_line(error@) },
            ),
            _ => (SessionView { pending: PendingView::Idle, ..state }, ActionView::Next),
        },
    }
}

fn is_skipped(class: Class) -> (skipped: bool)
    ensures
        skipped == (class is Skip),
{
    match class {
        Class::Skip => true,
        _ => false,
    }
}

/// One run of the watcher.
pub struct WatchSession {
    own_pubkey: String,
    channel_id: Option<String>,
    names: ProfileDisplayCache,
    pending: Pending,
}

impl View for WatchSession {
    type V = SessionView;

    closed spec fn view(&self) -> SessionView {
        SessionView {
            own: self.own_pubkey@,
            channel: opt_text(self.channel_id),
            names: self.names@,
            pending: self.pending@,
        }
    }
}

impl WatchSession {
    /// The session's invariant: that of the memory of resolved authors.
    pub closed spec fn wf(&self) -> bool {
        self.names.wf()
    }

    /// A session of the operator with key `own_pubkey` that watches
    /// `channel_id`, with nothing resolved and nothing pending.
    pub fn new(own_pubkey: String, channel_id: Option<String>) -> (session: WatchSession)
        ensures
            session.wf(),
            session@ == (SessionView {
                own: own_pubkey@,
                channel: opt_text(channel_id),
                names: Map::<Seq<char>, DisplayView>::empty(),
                pending: PendingView::Idle,
            }),
    {
        WatchSession {
            own_pubkey,
            channel_id,
            names: ProfileDisplayCache::new(),
            pending: Pending::Idle,
        }
    }

    /// Whether the session waits for the next notification.
    pub fn is_idle(&self) -> (idle: bool)
        ensures
            idle == (self@.pending is Idle),
    {
        match &self.pending {
            Pending::Idle => true,
            _ => false,
        }
    }

    fn deliver(&mut self, message: String, sender: &DisplayInfo) -> (action: WatchAction)
        requires
            old(self).wf(),
        ensures
            final(self).wf(),
            final(self)@ == (SessionView { pending: PendingView::Delivering, ..old(self)@ }),
            action@ == delivery(message@, sender@),
    {
        let payload = webhook_payload(message.as_str(), sender);
        self.pending = Pending::Delivering;
        WatchAction::Deliver { message, payload }
    }

    fn relay(&mut self, event: WatchEvent, sender: DisplayInfo) -> (action: WatchAction)
        requires
            old(self).wf(),
        ensures
            final(self).wf(),
            final(self)@ == (SessionView {
                pending: after_named(old(self)@.channel, event, sender@).0,
                ..old(self)@
            }),
            action@ == after_named(old(self)@.channel, event, sender@).1,
    {
        let class = classify(&event, &self.channel_id);
        match class {
            Class::Skip => {
                self.pending = Pending::Idle;
                WatchAction::Next
            },
            Class::Reaction => {
                match find_event_ref(&event.tags) {
                    Some(i) => {
                        let event_id = match &event.tags[i] {
                            Tag::Event { event_id, .. } => event_id.clone(),
                            _ => String::new(),
                        };
                        self.pending = Pending::Excerpting { event, sender };
                        WatchAction::FetchOriginal { event_id }
                    },
                    None => {
                        let message = compose(&event, class, sender.name.as_str(), None);
                        self.deliver(message, &sender)
                    },
                }
            },
            _ => {
                let message = compose(&event, class, sender.name.as_str(), None);
                self.deliver(message, &sender)
            },
        }
    }

    /// Takes one report of the outside world and says what to do next.
    pub fn step(&mut self, input: WatchInput) -> (action: WatchAction)
        requires
            old(self).wf(),
        ensures
            final(self).wf(),
            final(self)@ == step_of(old(self)@, input).0,
            action@ == step_of(old(self)@, input).1,
    {
        let mut pending = Pending::Idle;
        std::mem::swap(&mut self.pending, &mut pending);
        match input {
            WatchInput::Notification(event) => {
                if own_echo(&event, &self.own_pubkey) {
                    WatchAction::Next
                } else if is_skipped(classify(&event, &self.channel_id)) {
                    WatchAction::Next
                } else {
                    match self.names.get(event.author.as_str()) {
                        Some(sender) => self.relay(event, sender),
                        None => {
                            let pubkey = event.author.clone();
                            self.pending = Pending::Naming { event };
                            WatchAction::FetchProfile { pubkey }
                        },
                    }
                }
            },
            WatchInput::Profile(fetched) => match pending {
                Pending::Naming { event } => {
                    let sender = resolve_display(event.author_npub.as_str(), &fetched);
                    let kept = sender.clone();
                    self.names.remember(event.author.as_str(), kept);
                    self.relay(event, sender)
                },
                _ => WatchAction::Next,
            },
            WatchInput::Original(content) => match pending {
                Pending::Excerpting { event, sender } => {
                    let message = match &content {
                        Some(text) => compose(
                            &event,
                            Class::Reaction,
                            sender.name.as_str(),
                            Some(text.as_str()),
                        ),
                        None => compose(&event, Class::Reaction, sender.name.as_str(), None),
                    };
                    self.deliver(message, &sender)
                },
                _ => WatchAction::Next,
            },
            WatchInput::Delivered(outcome) => match (pending, outcome) {
                (Pending::Delivering, Some(error)) => {
                    let mut line = "Webhook error: ".to_owned();
                    line.append(error.as_str());
                    WatchAction::Report { line }
                },
                _ => WatchAction::Next,
            },
        }
    }
}

/// Where one notification ends: the state and the action once the profile
/// fetch, if the session asks for one, is answered with `fetched`, and the
/// fetch of the reacted-to event, if it asks for one, with `original`.
pub open spec fn outcome_of(
    state: SessionView,
    event: WatchEvent,
    fetched: Option<ProfileMetadata>,
    original: Option<String>,
) -> (SessionView, ActionView) {
    let first = step_of(state, WatchInput::Notification(event));
    let second = if first.1 is FetchProfile {
        step_of(first.0, WatchInput::Profile(fetched))
    } else {
        first
    };
    if second.1 is FetchOriginal {
        step_of(second.0, WatchInput::Original(original))
    } else {
        second
    }
}

/// How the author of `event` is shown while it is processed: as remembered
/// from an earlier sighting, else as resolved from `fetched`.
pub open spec fn sender_of(
    state: SessionView,
    event: WatchEvent,
    fetched: Option<ProfileMetadata>,
) -> DisplayView {
    match lookup(state.names, event.author@) {
        Some(sender) => sender,
        None => shown(event.author_npub@, fetched),
    }
}

/// An event that is not relayed costs nothing: the session asks for no
/// profile and no event, delivers nothing, remembers nothing new, and waits
/// for the next notification.
pub proof fn skipped_event_asks_for_nothing(state: SessionView, event: WatchEvent)
    requires
        class_of(event.kind, event.tags@, state.channel) is Skip,
    ensures
        step_of(state, WatchInput::Notification(event)) == (
            SessionView { pending: PendingView::Idle, ..state },
            ActionView::Next,
        ),
{
}

/// A channel message is never delivered unless a channel is watched and a
/// tag of the message refers to that channel as root: the session passes
/// over it at once, without a fetch, and waits for the next notification.
pub proof fn foreign_channel_message_is_not_delivered(
    state: SessionView,
    event: WatchEvent,
    fetched: Option<ProfileMetadata>,
    original: Option<String>,
)
    requires
        event.kind == CHANNEL_MESSAGE,
        match state.channel {
            Some(id) => !refers_to_root(event.tags@, id),
            None => true,
        },
    ensures
        step_of(state, WatchInput::Notification(event)) == (
            SessionView { pending: PendingView::Idle, ..state },
            ActionView::Next,
        ),
        outcome_of(state, event, fetched, original) == step_of(
            state,
            WatchInput::Notification(event),
        ),
{
}

/// A reaction without content is relayed with the thumbs-up glyph; and where
/// the reacted-to event cannot be had, the message is delivered all the same,
/// without the quotation.
pub proof fn bare_reaction_is_delivered_with_thumbs_up(
    state: SessionView,
    event: WatchEvent,
    fetched: Option<ProfileMetadata>,
)
    requires
        event.kind == REACTION,
        event.content@.len() == 0,
        event.author@ != state.own,
    ensures
        ({
            let sender = sender_of(state, event, fetched);
            let end = outcome_of(state, event, fetched, None);
            &&& end.0.pending is Delivering
            &&& end.1 == delivery(
                "**"@ + sender.name + "** reacted "@ + "👍"@ + "\nnpub: "@ + event.author_npub@
                    + "\nnote: "@ + reacted_note(event.tags@),
                sender,
            )
        }),
{
    let sender = sender_of(state, event, fetched);
    let head = "**"@ + sender.name + "** reacted "@ + "👍"@ + "\nnpub: "@ + event.author_npub@;
    assert(head + Seq::<char>::empty() =~= head);
}

/// A plain note that the operator wrote is never delivered: the session
/// passes over it at once and stays idle.
pub proof fn own_note_is_not_delivered(state: SessionView, event: WatchEvent)
    requires
        event.kind == TEXT_NOTE,
        event.author@ == state.own,
    ensures
        step_of(state, WatchInput::Notification(event)).1 is Next,
        step_of(state, WatchInput::Notification(event)).0.pending is Idle,
        step_of(state, WatchInput::Notification(event)).0.names == state.names,
{
}

/// A channel message that the operator wrote is delivered like anyone
/// else's, where its channel is the watched one.
pub proof fn own_channel_message_is_delivered(
    state: SessionView,
    event: WatchEvent,
    fetched: Option<ProfileMetadata>,
    original: Option<String>,
)
    requires
        event.kind == CHANNEL_MESSAGE,
        event.author@ == state.own,
        state.channel is Some,
        refers_to_root(event.tags@, state.channel->0),
    ensures
        ({
            let sender = sender_of(state, event, fetched);
            let end = outcome_of(state, event, fetched, original);
            &&& end.0.pending is Delivering
            &&& end.1 == delivery(message_text(event, Class::Channel, sender.name, None), sender)
        }),
{
}

/// A delivery that failed is reported and nothing more: the session is idle
/// again with its memory untouched, and takes the next notification exactly
/// as it would after a delivery that succeeded.
pub proof fn failed_delivery_does_not_stop_the_session(
    state: SessionView,
    error: String,
    next: WatchEvent,
)
    requires
        state.pending is Delivering,
    ensures
        ({
            let failed = step_of(state, WatchInput::Delivered(Some(error)));
            let succeeded = step_of(state, WatchInput::Delivered(None));
            &&& failed.1 == (ActionView::Report { line: failure_line(error@) })
            &&& succeeded.1 is Next
            &&& failed.0 == succeeded.0
            &&& failed.0 == (SessionView { pending: PendingView::Idle, ..state })
            &&& step_of(failed.0, WatchInput::Notification(next)) == step_of(
                succeeded.0,
                WatchInput::Notification(next),
            )
        }),
{
}

/// What goes to the webhook is never longer than the webhook's limit.
pub proof fn delivered_content_fits(message: Seq<char>, sender: DisplayView)
    ensures
        delivery(message, sender)->content.len() <= WEBHOOK_LIMIT,
{
}

/// Whatever is reported to a session, it forgets no author and changes none:
/// what was resolved before the step is resolved the same way after it.
pub proof fn session_memory_only_grows(state: SessionView, input: WatchInput)
    ensures
        forall|author: Seq<char>|
            state.names.dom().contains(author) ==> step_of(state, input).0.names.dom().contains(
                author,
            ) && #[trigger] step_of(state, input).0.names[author] == state.names[author],
        step_of(state, input).0.own == state.own,
        step_of(state, input).0.channel == state.channel,
{
}

} // verus!
