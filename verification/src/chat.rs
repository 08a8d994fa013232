//! The chat session: the roster and the message log, and how each event
//! changes them.

use crate::protocol::{
    decode, decode_text, encode, wire_text, ChatError, ChatMessage, Envelope, EnvelopeView,
    MessageView,
};
use crate::roster::{build_roster, profile_of, profiles, roster_of, ProfileView, UserProfile};
use crate::text::{blank, ends_with, is_blank};
use vstd::prelude::*;

verus! {

/// The state of a session as a mathematical value.
pub struct ChatView {
    /// The name under which this client registered.
    pub username: Seq<char>,
    /// The profiles of the connected users, in the order the server gave.
    pub roster: Seq<ProfileView>,
    /// The chat messages received so far, oldest first.
    pub log: Seq<MessageView>,
    pub sidebar_visible: bool,
}

/// What the session asks of its surroundings after an event, as a
/// mathematical value.
pub struct OutcomeView {
    pub changed: bool,
    pub outgoing: Option<Seq<char>>,
    pub clear_input: bool,
    pub diagnostic: Option<ChatError>,
}

/// An event as a mathematical value.
pub enum MsgView {
    HandleMsg(Seq<char>),
    SubmitMessage(Seq<char>),
    ToggleSidebar,
}

/// The messages that a sequence holds, in order.
pub open spec fn messages_view(messages: Seq<ChatMessage>) -> Seq<MessageView> {
    Seq::new(messages.len(), |i: int| messages[i]@)
}

/// The session as it starts: nobody on the roster, nothing in the log, the
/// sidebar shown.
pub open spec fn initial(username: Seq<char>) -> ChatView {
    ChatView { username, roster: Seq::empty(), log: Seq::empty(), sidebar_visible: true }
}

/// The outcome of an event that asks for nothing.
pub open spec fn quiet() -> OutcomeView {
    OutcomeView { changed: false, outgoing: None, clear_input: false, diagnostic: None }
}

/// The outcome of a text that the transport did not take: a diagnostic, and
/// nothing to send again.
pub open spec fn send_failure() -> OutcomeView {
    OutcomeView { diagnostic: Some(ChatError::TransportSendFailure), ..quiet() }
}

/// The state after an envelope from the server. `Users` replaces the whole
/// roster, `Message` adds to the end of the log, `Register` changes nothing.
pub open spec fn apply(state: ChatView, envelope: EnvelopeView) -> ChatView {
    match envelope {
        EnvelopeView::Users { usernames } => ChatView { roster: roster_of(usernames), ..state },
        EnvelopeView::Message { from, body } => ChatView {
            log: state.log.push(MessageView { from, body }),
            ..state
        },
        EnvelopeView::Register { .. } => state,
    }
}

/// Whether an envelope from the server calls for drawing the screen again.
pub open spec fn redraws(envelope: EnvelopeView) -> bool {
    envelope is Users || envelope is Message
}

/// The state and the outcome after a text from the transport. A frame that
/// does not decode is dropped with a diagnostic, and a frame of an unknown
/// kind is passed over in silence.
pub open spec fn receive(state: ChatView, text: Seq<char>) -> (ChatView, OutcomeView) {
    match decode_text(text) {
        Ok(Some(envelope)) => (
            apply(state, envelope),
            OutcomeView { changed: redraws(envelope), ..quiet() },
        ),
        Ok(None) => (state, quiet()),
        Err(fault) => (state, OutcomeView { diagnostic: Some(fault), ..quiet() }),
    }
}

/// The outcome of submitting the text of the input field. A blank text asks
/// for nothing. Any other text is sent as it stands, as a message from this
/// client, and the input field is cleared.
pub open spec fn submit(state: ChatView, body: Seq<char>) -> OutcomeView {
    if blank(body) {
        quiet()
    } else {
        OutcomeView {
            outgoing: Some(wire_text(EnvelopeView::Message { from: state.username, body })),
            clear_input: true,
            ..quiet()
        }
    }
}

/// The state and the outcome after an event.
pub open spec fn step(state: ChatView, msg: MsgView) -> (ChatView, OutcomeView) {
    match msg {
        MsgView::HandleMsg(text) => receive(state, text),
        MsgView::SubmitMessage(body) => (state, submit(state, body)),
        MsgView::ToggleSidebar => (
            ChatView { sidebar_visible: !state.sidebar_visible, ..state },
            OutcomeView { changed: true, ..quiet() },
        ),
    }
}

/// The state after a sequence of events, taken one after the other.
pub open spec fn run(state: ChatView, msgs: Seq<MsgView>) -> ChatView
    decreases msgs.len(),
{
    if msgs.len() == 0 {
        state
    } else {
        step(run(state, msgs.drop_last()), msgs.last()).0
    }
}

/// The profile shown for a sender: the first profile on the roster with that
/// name, and where the roster has none, the profile derived from the name.
pub open spec fn resolve(roster: Seq<ProfileView>, name: Seq<char>) -> ProfileView
    decreases roster.len(),
{
    if roster.len() == 0 {
        profile_of(name)
    } else if roster[0].name == name {
        roster[0]
    } else {
        resolve(roster.drop_first(), name)
    }
}

/// Whether a body is shown as a picture: it ends in `.gif`.
pub open spec fn is_picture(body: Seq<char>) -> bool {
    ".gif"@.is_suffix_of(body)
}

/// One entry of the log as it is shown, as a mathematical value.
pub struct BubbleView {
    pub sender: ProfileView,
    pub body: Seq<char>,
    pub picture: bool,
}

/// What the screen shows, as a mathematical value.
pub struct ScreenView {
    pub sidebar_visible: bool,
    pub users: Seq<ProfileView>,
    pub bubbles: Seq<BubbleView>,
}

/// How a message is shown against a roster.
pub open spec fn bubble_of(roster: Seq<ProfileView>, message: MessageView) -> BubbleView {
    BubbleView {
        sender: resolve(roster, message.from),
        body: message.body,
        picture: is_picture(message.body),
    }
}

/// What the screen shows of a state: the roster as it stands, and every
/// message of the log with the profile of its sender.
pub open spec fn screen_of(state: ChatView) -> ScreenView {
    ScreenView {
        sidebar_visible: state.sidebar_visible,
        users: state.roster,
        bubbles: Seq::new(state.log.len(), |i: int| bubble_of(state.roster, state.log[i])),
    }
}

/// One entry of the log as it is shown.
#[derive(Debug, PartialEq, Eq)]
pub struct Bubble {
    pub sender: UserProfile,
    pub body: String,
    pub picture: bool,
}

impl View for Bubble {
    type V = BubbleView;

    open spec fn view(&self) -> BubbleView {
        BubbleView { sender: self.sender@, body: self.body@, picture: self.picture }
    }
}

/// The bubbles that a sequence holds, in order.
pub open spec fn bubbles_view(bubbles: Seq<Bubble>) -> Seq<BubbleView> {
    Seq::new(bubbles.len(), |i: int| bubbles[i]@)
}

/// What the screen shows.
#[derive(Debug, PartialEq, Eq)]
pub struct Screen {
    pub sidebar_visible: bool,
    pub users: Vec<UserProfile>,
    pub bubbles: Vec<Bubble>,
}

impl View for Screen {
    type V = ScreenView;

    open spec fn view(&self) -> ScreenView {
        ScreenView {
            sidebar_visible: self.sidebar_visible,
            users: profiles(self.users@),
            bubbles: bubbles_view(self.bubbles@),
        }
    }
}

/// An event of the session.
#[derive(Debug, PartialEq, Eq)]
pub enum Msg {
    /// A text arrived from the transport.
    HandleMsg(String),
    /// The user submitted this text of the input field.
    SubmitMessage(String),
    /// The user asked to show or hide the sidebar.
    ToggleSidebar,
}

impl View for Msg {
    type V = MsgView;

    open spec fn view(&self) -> MsgView {
        match *self {
            Msg::HandleMsg(text) => MsgView::HandleMsg(text@),
            Msg::SubmitMessage(body) => MsgView::SubmitMessage(body@),
            Msg::ToggleSidebar => MsgView::ToggleSidebar,
        }
    }
}

impl Clone for Msg {
    fn clone(&self) -> (r: Msg)
        ensures
            r@ == self@,
    {
        match self {
            Msg::HandleMsg(text) => Msg::HandleMsg(text.clone()),
            Msg::SubmitMessage(body) => Msg::SubmitMessage(body.clone()),
            Msg::ToggleSidebar => Msg::ToggleSidebar,
        }
    }
}

/// What the session asks of its surroundings after an event.
#[derive(Debug, PartialEq, Eq)]
pub struct Outcome {
    /// The state changed: draw the screen again.
    pub changed: bool,
    /// A text to hand to the transport.
    pub outgoing: Option<String>,
    /// Empty the input field.
    pub clear_input: bool,
    /// A fault that was recovered from: record it.
    pub diagnostic: Option<ChatError>,
}

impl View for Outcome {
    type V = OutcomeView;

    open spec fn view(&self) -> OutcomeView {
        OutcomeView {
            changed: self.changed,
            outgoing: match self.outgoing {
                Some(text) => Some(text@),
                None => None,
            },
            clear_input: self.clear_input,
            diagnostic: self.diagnostic,
        }
    }
}

impl Clone for Outcome {
    fn clone(&self) -> (r: Outcome)
        ensures
            r@ == self@,
    {
        Outcome {
            changed: self.changed,
            outgoing: match &self.outgoing {
                Some(text) => Some(text.clone()),
                None => None,
            },
            clear_input: self.clear_input,
            diagnostic: self.diagnostic,
        }
    }
}

impl Outcome {
    /// The outcome that asks for nothing.
    pub fn quiet() -> (r: Outcome)
        ensures
            r@ == quiet(),
    {
        Outcome { changed: false, outgoing: None, clear_input: false, diagnostic: None }
    }
}

/// One chat session: its roster and its log.
pub struct Chat {
    username: String,
    users: Vec<UserProfile>,
    messages: Vec<ChatMessage>,
    sidebar_visible: bool,
}

impl View for Chat {
    type V = ChatView;

    closed spec fn view(&self) -> ChatView {
        ChatView {
            username: self.username@,
            roster: profiles(self.users@),
            log: messages_view(self.messages@),
            sidebar_visible: self.sidebar_visible,
        }
    }
}

impl Chat {
    /// Starts a session for a user: the session in its first state, and the
    /// text that registers the user with the server, to be sent once.
    pub fn create(username: String) -> (r: (Chat, String))
        ensures
            r.0@ == initial(username@),
            r.1@ == wire_text(EnvelopeView::Register { username: username@ }),
            decode_text(r.1@) == Ok::<Option<EnvelopeView>, ChatError>(
                Some(EnvelopeView::Register { username: username@ }),
            ),
    {
        let register = encode(&Envelope::Register { username: username.clone() });
        let chat = Chat {
            username,
            users: Vec::new(),
            messages: Vec::new(),
            sidebar_visible: true,
        };
        assert(chat@.roster =~= Seq::<ProfileView>::empty());
        assert(chat@.log =~= Seq::<MessageView>::empty());
        (chat, register)
    }

    /// The name under which this client registered.
    pub fn username(&self) -> (r: &String)
        ensures
            r@ == self@.username,
    {
        &self.username
    }

    /// The roster.
    pub fn users(&self) -> (r: &Vec<UserProfile>)
        ensures
            profiles(r@) == self@.roster,
    {
        &self.users
    }

    /// The log, oldest message first.
    pub fn messages(&self) -> (r: &Vec<ChatMessage>)
        ensures
            messages_view(r@) == self@.log,
    {
        &self.messages
    }

    /// Whether the sidebar is shown.
    pub fn sidebar_visible(&self) -> (r: bool)
        ensures
            r == self@.sidebar_visible,
    {
        self.sidebar_visible
    }

    /// Takes in an envelope from the server, and says whether the screen is
    /// to be drawn again.
    pub fn apply(&mut self, envelope: Envelope) -> (r: bool)
        ensures
            final(self)@ == apply(old(self)@, envelope@),
            r == redraws(envelope@),
    {
        match envelope {
            Envelope::Users { usernames } => {
                self.users = build_roster(&usernames);
                true
            },
            Envelope::Message { from, body } => {
                self.messages.push(ChatMessage { from, body });
                assert(messages_view(self.messages@) =~= messages_view(old(self).messages@).push(
                    MessageView { from: from@, body: body@ },
                ));
                true
            },
            Envelope::Register { .. } => false,
        }
    }

    /// Takes in a text from the transport.
    pub fn on_incoming(&mut self, text: &str) -> (r: Outcome)
        ensures
            (final(self)@, r@) == receive(old(self)@, text@),
    {
        match decode(text) {
            Ok(Some(envelope)) => {
                let changed = self.apply(envelope);
                Outcome { changed, outgoing: None, clear_input: false, diagnostic: None }
            },
            Ok(None) => Outcome::quiet(),
            Err(fault) => Outcome {
                changed: false,
                outgoing: None,
                clear_input: false,
                diagnostic: Some(fault),
            },
        }
    }

    /// Takes in the text that the user submitted. The text that is handed
    /// out for sending decodes to a message from this client with that body.
    pub fn submit_outgoing(&self, body: &str) -> (r: Outcome)
        ensures
            r@ == submit(self@, body@),
            r.outgoing matches Some(text) ==> decode_text(text@) == Ok::<
                Option<EnvelopeView>,
                ChatError,
            >(Some(EnvelopeView::Message { from: self@.username, body: body@ })),
    {
        if is_blank(body) {
            Outcome::quiet()
        } else {
            let message = Envelope::Message { from: self.username.clone(), body: body.to_owned() };
            Outcome {
                changed: false,
                outgoing: Some(encode(&message)),
                clear_input: true,
                diagnostic: None,
            }
        }
    }

    /// Takes in the news that the transport did not take a text. The text is
    /// not offered again and the session stays as it is: the fault is
    /// recorded, and the message never shows in the log.
    pub fn on_send_failure(&self) -> (r: Outcome)
        ensures
            r@ == send_failure(),
    {
        Outcome {
            changed: false,
            outgoing: None,
            clear_input: false,
            diagnostic: Some(ChatError::TransportSendFailure),
        }
    }

    /// Shows the sidebar if it is hidden, and hides it if it is shown.
    pub fn toggle_sidebar(&mut self) -> (r: Outcome)
        ensures
            (final(self)@, r@) == step(old(self)@, MsgView::ToggleSidebar),
    {
        self.sidebar_visible = !self.sidebar_visible;
        Outcome { changed: true, outgoing: None, clear_input: false, diagnostic: None }
    }

    /// The profile under which the sender of a message is shown: the first
    /// profile on the roster with the sender's name, or the profile derived
    /// from that name where the roster has none. Either way it is the
    /// profile derived from the sender's name.
    pub fn resolve_sender(&self, message: &ChatMessage) -> (r: UserProfile)
        ensures
            r@ == resolve(self@.roster, message@.from),
            r@ == profile_of(message@.from),
    {
        let ghost roster = profiles(self.users@);
        let mut i: usize = 0;
        while i < self.users.len()
            invariant
                i <= self.users.len(),
                roster == profiles(self.users@),
                forall|j: int| 0 <= j < i ==> roster[j].name != message@.from,
            decreases self.users.len() - i,
        {
            if *self.users[i].name() == message.from {
                proof {
                    lemma_resolve_first(roster, message@.from, i as int);
                }
                return self.users[i].clone();
            }
            i += 1;
        }
        proof {
            lemma_resolve_unlisted(roster, message@.from);
        }
        UserProfile::new(message.from.as_str())
    }

    /// What the screen shows: the roster, and every message of the log with
    /// the profile of its sender and whether its body is a picture.
    pub fn screen(&self) -> (r: Screen)
        ensures
            r@ == screen_of(self@),
    {
        let mut users: Vec<UserProfile> = Vec::new();
        let mut i: usize = 0;
        while i < self.users.len()
            invariant
                i <= self.users.len(),
                users.len() == i,
                forall|j: int| 0 <= j < i ==> (#[trigger] users@[j])@ == self.users@[j]@,
            decreases self.users.len() - i,
        {
            users.push(self.users[i].clone());
            i += 1;
        }
        let mut bubbles: Vec<Bubble> = Vec::new();
        let mut k: usize = 0;
        while k < self.messages.len()
            invariant
                k <= self.messages.len(),
                bubbles.len() == k,
                forall|j: int|
                    0 <= j < k ==> (#[trigger] bubbles@[j])@ == bubble_of(
                        self@.roster,
                        self.messages@[j]@,
                    ),
            decreases self.messages.len() - k,
        {
            let message = &self.messages[k];
            bubbles.push(
                Bubble {
                    sender: self.resolve_sender(message),
                    body: message.body.clone(),
                    picture: ends_with(message.body.as_str(), ".gif"),
                },
            );
            k += 1;
        }
        let screen = Screen { sidebar_visible: self.sidebar_visible, users, bubbles };
        assert(screen@.users =~= self@.roster);
        assert(screen@.bubbles =~= screen_of(self@).bubbles);
        screen
    }

    /// Takes in one event. The log only grows: what was in it stays as it
    /// was, at its place.
    pub fn update(&mut self, msg: Msg) -> (r: Outcome)
        ensures
            (final(self)@, r@) == step(old(self)@, msg@),
            old(self)@.log.is_prefix_of(final(self)@.log),
    {
        proof {
            lemma_step_extends_log(self@, msg@);
        }
        match msg {
            Msg::HandleMsg(text) => self.on_incoming(text.as_str()),
            Msg::SubmitMessage(body) => self.submit_outgoing(body.as_str()),
            Msg::ToggleSidebar => self.toggle_sidebar(),
        }
    }
}

/// One event leaves the log as it was or adds to its end.
pub proof fn lemma_step_extends_log(state: ChatView, msg: MsgView)
    ensures
        state.log.is_prefix_of(step(state, msg).0.log),
        step(state, msg).0.username == state.username,
{
}

/// The first profile with a name decides: where the profile at `i` has the
/// name and none before it has, that profile is shown.
pub proof fn lemma_resolve_first(roster: Seq<ProfileView>, name: Seq<char>, i: int)
    requires
        0 <= i < roster.len(),
        roster[i].name == name,
        forall|j: int| 0 <= j < i ==> roster[j].name != name,
    ensures
        resolve(roster, name) == roster[i],
    decreases roster.len(),
{
    if i > 0 {
        let rest = roster.drop_first();
        assert forall|j: int| 0 <= j < i - 1 implies rest[j].name != name by {
            assert(rest[j] == roster[j + 1]);
        }
        lemma_resolve_first(rest, name, i - 1);
    }
}

/// A sender that the roster does not list is shown under the profile derived
/// from the sender's name: that name, and the avatar of that name.
pub proof fn lemma_resolve_unlisted(roster: Seq<ProfileView>, name: Seq<char>)
    requires
        forall|i: int| 0 <= i < roster.len() ==> roster[i].name != name,
    ensures
        resolve(roster, name) == profile_of(name),
        resolve(roster, name).name == name,
    decreases roster.len(),
{
    if roster.len() > 0 {
        let rest = roster.drop_first();
        assert forall|i: int| 0 <= i < rest.len() implies rest[i].name != name by {
            assert(rest[i] == roster[i + 1]);
        }
        lemma_resolve_unlisted(rest, name);
    }
}

/// Taking in the same list of users twice leaves the session as taking it in
/// once does.
pub proof fn lemma_users_twice(state: ChatView, envelope: EnvelopeView)
    requires
        envelope is Users,
    ensures
        apply(apply(state, envelope), envelope) == apply(state, envelope),
        apply(apply(state, envelope), envelope).roster == apply(state, envelope).roster,
{
}

/// The same holds of the text that carries the list: received twice, it
/// leaves the roster as it is after the first time.
pub proof fn lemma_users_text_twice(state: ChatView, text: Seq<char>)
    requires
        decode_text(text) matches Ok(Some(envelope)) && envelope is Users,
    ensures
        receive(receive(state, text).0, text).0 == receive(state, text).0,
{
}

/// Whatever events come in, and in whatever order, the log only grows: it is
/// never shorter afterwards, and each message that was in it is still there,
/// unchanged and at its place.
pub proof fn lemma_log_only_grows(state: ChatView, msgs: Seq<MsgView>)
    ensures
        state.log.is_prefix_of(run(state, msgs).log),
        state.log.len() <= run(state, msgs).log.len(),
        forall|i: int| 0 <= i < state.log.len() ==> run(state, msgs).log[i] == state.log[i],
    decreases msgs.len(),
{
    if msgs.len() > 0 {
        let before = run(state, msgs.drop_last());
        lemma_log_only_grows(state, msgs.drop_last());
        lemma_step_extends_log(before, msgs.last());
    }
}

/// Whether every profile of a roster is the one derived from its name.
pub open spec fn all_derived(roster: Seq<ProfileView>) -> bool {
    forall|i: int| 0 <= i < roster.len() ==> #[trigger] roster[i] == profile_of(roster[i].name)
}

/// Against a roster of derived profiles a sender is shown under the profile
/// derived from the sender's name, listed or not.
pub proof fn lemma_resolve_derived(roster: Seq<ProfileView>, name: Seq<char>)
    requires
        all_derived(roster),
    ensures
        resolve(roster, name) == profile_of(name),
    decreases roster.len(),
{
    if roster.len() > 0 && roster[0].name != name {
        let rest = roster.drop_first();
        assert forall|i: int| 0 <= i < rest.len() implies #[trigger] rest[i] == profile_of(
            rest[i].name,
        ) by {
            assert(rest[i] == roster[i + 1]);
        }
        lemma_resolve_derived(rest, name);
    }
}

/// A session holds derived profiles only: its roster starts empty, and no
/// sequence of events puts any other profile on it.
pub proof fn lemma_roster_stays_derived(username: Seq<char>, msgs: Seq<MsgView>)
    ensures
        all_derived(run(initial(username), msgs).roster),
    decreases msgs.len(),
{
    if msgs.len() > 0 {
        lemma_roster_stays_derived(username, msgs.drop_last());
    }
}

} // verus!
