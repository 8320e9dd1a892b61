//! The state of a chat session and its transitions.
//!
//! A session knows who is online (the roster), what has been said (the
//! log) and the name of its own user. The roster is replaced as a whole by
//! each `users` envelope; the log grows by one line with each `message`
//! envelope whose payload can be read; nothing else changes the state.

use crate::protocol::{
    decode, decode_data, decode_frame, decode_payload, ChatMessage, ChatMessageView, DecodeError,
    Envelope, EnvelopeView, MsgTypes,
};
use crate::text::{
    avatar_for, avatar_url, blank, is_blank, is_gif, lemma_trimmed_empty_iff_blank, names_gif,
    same_text, trimmed,
};
use vstd::prelude::*;

verus! {

/// One participant who is online.
#[derive(Clone, Debug, PartialEq, Eq)]
pub struct UserProfile {
    pub name: String,
    /// The address of the avatar, derived from the name.
    pub avatar: String,
    pub online: bool,
}

/// A participant as a mathematical value.
pub struct UserProfileView {
    pub name: Seq<char>,
    pub avatar: Seq<char>,
    pub online: bool,
}

impl View for UserProfile {
    type V = UserProfileView;

    open spec fn view(&self) -> UserProfileView {
        UserProfileView { name: self.name@, avatar: self.avatar@, online: self.online }
    }
}

/// The profile of the participant with a given name: online, with the
/// avatar that belongs to the name.
pub open spec fn profile_of(name: Seq<char>) -> UserProfileView {
    UserProfileView { name, avatar: avatar_url(name), online: true }
}

/// The roster that a list of names stands for: one profile for each name,
/// in the order of the list.
pub open spec fn roster_of(names: Seq<Seq<char>>) -> Seq<UserProfileView> {
    Seq::new(names.len(), |i: int| profile_of(names[i]))
}

/// The names of a roster, in its order.
pub open spec fn roster_names(users: Seq<UserProfileView>) -> Seq<Seq<char>> {
    Seq::new(users.len(), |i: int| users[i].name)
}

/// A roster is derived when each of its profiles is the profile of its own
/// name: online, with the avatar that belongs to the name.
pub open spec fn derived_roster(users: Seq<UserProfileView>) -> bool {
    forall|i: int| 0 <= i < users.len() ==> #[trigger] users[i] == profile_of(users[i].name)
}

/// The views of a list of profiles, item by item.
pub open spec fn profile_views(profiles: Seq<UserProfile>) -> Seq<UserProfileView> {
    Seq::new(profiles.len(), |i: int| profiles[i]@)
}

/// The views of a list of messages, item by item.
pub open spec fn message_views(messages: Seq<ChatMessage>) -> Seq<ChatMessageView> {
    Seq::new(messages.len(), |i: int| messages[i]@)
}

/// The state of a session as a mathematical value.
pub struct ChatView {
    /// Who is online, as the latest `users` envelope listed them.
    pub users: Seq<UserProfileView>,
    /// What has been said, in the order of arrival.
    pub messages: Seq<ChatMessageView>,
    /// The name of the session's own user.
    pub username: Seq<char>,
}

/// The state in which a session starts: nobody known, nothing said.
pub open spec fn initial_state(username: Seq<char>) -> ChatView {
    ChatView { users: Seq::empty(), messages: Seq::empty(), username }
}

/// The envelope that announces a user to the server.
pub open spec fn register_envelope(username: Seq<char>) -> EnvelopeView {
    EnvelopeView { message_type: MsgTypes::Register, data_array: None, data: Some(username) }
}

/// The envelope that carries a text typed by the user.
pub open spec fn message_envelope(text: Seq<char>) -> EnvelopeView {
    EnvelopeView { message_type: MsgTypes::Message, data_array: None, data: Some(text) }
}

/// What a text typed by the user sends: nothing where the text trims to
/// nothing, and else the envelope that carries the text as it was typed.
pub open spec fn submission(text: Seq<char>) -> Option<EnvelopeView> {
    if trimmed(text).len() == 0 {
        None
    } else {
        Some(message_envelope(text))
    }
}

/// The names that a `users` envelope lists: none where it carries no list.
pub open spec fn listed_names(envelope: EnvelopeView) -> Seq<Seq<char>> {
    match envelope.data_array {
        Some(names) => names,
        None => Seq::empty(),
    }
}

/// The message that a `message` envelope brings: the one its payload
/// stands for, and none where the payload is absent or malformed.
pub open spec fn carried_message(envelope: EnvelopeView) -> Option<ChatMessageView> {
    match envelope.data {
        Some(data) => match decode_data(data) {
            Ok(message) => Some(message),
            Err(_) => None,
        },
        None => None,
    }
}

/// The state after an inbound envelope.
pub open spec fn apply_envelope(state: ChatView, envelope: EnvelopeView) -> ChatView {
    match envelope.message_type {
        MsgTypes::Users => ChatView { users: roster_of(listed_names(envelope)), ..state },
        MsgTypes::Message => match carried_message(envelope) {
            Some(message) => ChatView { messages: state.messages.push(message), ..state },
            None => state,
        },
        MsgTypes::Register => state,
    }
}

/// What an inbound envelope did to the state.
#[derive(Clone, Copy, Debug, PartialEq, Eq, Structural)]
pub enum Applied {
    /// A `users` envelope replaced the roster.
    Roster,
    /// A `message` envelope added a line to the log.
    Line,
    /// The envelope changed nothing: it is of a kind that the client does
    /// not act on, or a `message` envelope without data.
    Nothing,
    /// The envelope changed nothing, because its payload could not be read.
    Refused(DecodeError),
}

/// What an inbound envelope does to the state, as [`Applied`] tells it.
pub open spec fn applied_by(envelope: EnvelopeView) -> Applied {
    match envelope.message_type {
        MsgTypes::Users => Applied::Roster,
        MsgTypes::Message => match envelope.data {
            Some(data) => match decode_data(data) {
                Ok(_) => Applied::Line,
                Err(error) => Applied::Refused(error),
            },
            None => Applied::Nothing,
        },
        MsgTypes::Register => Applied::Nothing,
    }
}

/// An event that the session reacts to.
#[derive(Clone, Debug, PartialEq, Eq)]
pub enum Msg {
    /// A frame came in from the server.
    HandleMsg(String),
    /// The user asked to send the text in the input field.
    SubmitMessage(String),
}

/// An event as a mathematical value.
pub enum MsgView {
    HandleMsg(Seq<char>),
    SubmitMessage(Seq<char>),
}

impl View for Msg {
    type V = MsgView;

    open spec fn view(&self) -> MsgView {
        match self {
            Msg::HandleMsg(frame) => MsgView::HandleMsg(frame@),
            Msg::SubmitMessage(text) => MsgView::SubmitMessage(text@),
        }
    }
}

/// What the surroundings of the session are to do after an event.
#[derive(Clone, Debug, PartialEq, Eq)]
pub struct Update {
    /// Whether what is shown must be drawn again.
    pub render: bool,
    /// The envelope to send, if there is one.
    pub outbound: Option<Envelope>,
    /// Whether the input field is to be emptied, once the envelope is sent.
    pub clear_input: bool,
    /// Why an inbound frame was dropped, if it was.
    pub error: Option<DecodeError>,
}

/// What is to be done after an event, as a mathematical value.
pub struct UpdateView {
    pub render: bool,
    pub outbound: Option<EnvelopeView>,
    pub clear_input: bool,
    pub error: Option<DecodeError>,
}

impl View for Update {
    type V = UpdateView;

    open spec fn view(&self) -> UpdateView {
        UpdateView {
            render: self.render,
            outbound: match self.outbound {
                Some(envelope) => Some(envelope@),
                None => None,
            },
            clear_input: self.clear_input,
            error: self.error,
        }
    }
}

/// The state after an event. A frame that decodes acts as its envelope
/// does; a frame that does not, and a text that the user submits, leave the
/// state as it is.
pub open spec fn state_after(state: ChatView, msg: MsgView) -> ChatView {
    match msg {
        MsgView::HandleMsg(frame) => match decode_frame(frame) {
            Ok(envelope) => apply_envelope(state, envelope),
            Err(_) => state,
        },
        MsgView::SubmitMessage(_) => state,
    }
}

/// What is to be done after an inbound envelope: draw again where the
/// roster or the log changed, and report a payload that was refused.
pub open spec fn update_after_envelope(envelope: EnvelopeView) -> UpdateView {
    match applied_by(envelope) {
        Applied::Roster => UpdateView {
            render: true,
            outbound: None,
            clear_input: false,
            error: None,
        },
        Applied::Line => UpdateView {
            render: true,
            outbound: None,
            clear_input: false,
            error: None,
        },
        Applied::Nothing => UpdateView {
            render: false,
            outbound: None,
            clear_input: false,
            error: None,
        },
        Applied::Refused(error) => UpdateView {
            render: false,
            outbound: None,
            clear_input: false,
            error: Some(error),
        },
    }
}

/// What is to be done after an event.
pub open spec fn update_after(msg: MsgView) -> UpdateView {
    match msg {
        MsgView::HandleMsg(frame) => match decode_frame(frame) {
            Ok(envelope) => update_after_envelope(envelope),
            Err(error) => UpdateView {
                render: false,
                outbound: None,
                clear_input: false,
                error: Some(error),
            },
        },
        MsgView::SubmitMessage(text) => UpdateView {
            render: false,
            outbound: submission(text),
            clear_input: submission(text) is Some,
            error: None,
        },
    }
}

/// One line of the log as it is to be shown.
#[derive(Clone, Debug, PartialEq, Eq)]
pub struct MessageLine {
    pub from: String,
    pub text: String,
    /// The avatar of the sender; empty where the roster does not know the
    /// sender.
    pub avatar: String,
    /// Whether the session's own user sent the line.
    pub own: bool,
    /// Whether the text names a GIF, to be shown as an image.
    pub gif: bool,
}

/// A line to be shown, as a mathematical value.
pub struct MessageLineView {
    pub from: Seq<char>,
    pub text: Seq<char>,
    pub avatar: Seq<char>,
    pub own: bool,
    pub gif: bool,
}

impl View for MessageLine {
    type V = MessageLineView;

    open spec fn view(&self) -> MessageLineView {
        MessageLineView {
            from: self.from@,
            text: self.text@,
            avatar: self.avatar@,
            own: self.own,
            gif: self.gif,
        }
    }
}

/// The views of a list of lines, item by item.
pub open spec fn line_views(lines: Seq<MessageLine>) -> Seq<MessageLineView> {
    Seq::new(lines.len(), |i: int| lines[i]@)
}

/// The avatar that a roster has for a name: that of the first profile with
/// the name, and the empty text where there is none.
pub open spec fn avatar_of(users: Seq<UserProfileView>, name: Seq<char>) -> Seq<char>
    decreases users.len(),
{
    if users.len() == 0 {
        Seq::empty()
    } else if users.first().name == name {
        users.first().avatar
    } else {
        avatar_of(users.drop_first(), name)
    }
}

/// How a message is shown in a state.
pub open spec fn line_of(state: ChatView, message: ChatMessageView) -> MessageLineView {
    MessageLineView {
        from: message.from,
        text: message.text,
        avatar: avatar_of(state.users, message.from),
        own: message.from == state.username,
        gif: names_gif(message.text),
    }
}

/// The lines that show the log of a state, one for each message, in the
/// order of the log.
pub open spec fn lines_of(state: ChatView) -> Seq<MessageLineView> {
    Seq::new(state.messages.len(), |i: int| line_of(state, state.messages[i]))
}

/// Who is online: a list of profiles that is derived at all times.
#[derive(Debug)]
pub struct Roster {
    profiles: Vec<UserProfile>,
}

impl View for Roster {
    type V = Seq<UserProfileView>;

    closed spec fn view(&self) -> Seq<UserProfileView> {
        profile_views(self.profiles@)
    }
}

/// The state of a chat session.
#[derive(Debug)]
pub struct Chat {
    users: Roster,
    messages: Vec<ChatMessage>,
    username: String,
}

impl View for Chat {
    type V = ChatView;

    closed spec fn view(&self) -> ChatView {
        ChatView {
            users: self.users@,
            messages: message_views(self.messages@),
            username: self.username@,
        }
    }
}

impl Roster {
    #[verifier::type_invariant]
    closed spec fn derived(self) -> bool {
        derived_roster(profile_views(self.profiles@))
    }

    /// The roster that holds nobody.
    pub fn empty() -> (r: Roster)
        ensures
            r@ == Seq::<UserProfileView>::empty(),
    {
        let roster = Roster { profiles: Vec::new() };
        assert(roster@ =~= Seq::empty());
        roster
    }

    /// Builds the roster that a list of names stands for.
    pub fn of_names(names: &Vec<String>) -> (r: Roster)
        ensures
            r@ == roster_of(names.deep_view()),
    {
        let mut profiles: Vec<UserProfile> = Vec::new();
        let mut i: usize = 0;
        while i < names.len()
            invariant
                i <= names.len(),
                profiles.len() == i,
                forall|k: int| 0 <= k < i ==> (#[trigger] profiles[k])@ == profile_of(names[k]@),
            decreases names.len() - i,
        {
            let name = names[i].clone();
            let avatar = avatar_for(name.as_str());
            profiles.push(UserProfile { name, avatar, online: true });
            i += 1;
        }
        assert(profile_views(profiles@) =~= roster_of(names.deep_view()));
        Roster { profiles }
    }

    /// The profiles, in the order of the roster.
    pub fn profiles(&self) -> (r: &Vec<UserProfile>)
        ensures
            profile_views(r@) == self@,
            derived_roster(self@),
    {
        proof {
            use_type_invariant(self);
        }
        &self.profiles
    }

    /// The avatar that the roster has for `name`.
    pub fn avatar(&self, name: &str) -> (r: String)
        ensures
            r@ == avatar_of(self@, name@),
    {
        let ghost users = self@;
        let mut i: usize = 0;
        assert(users.skip(0) =~= users);
        while i < self.profiles.len()
            invariant
                i <= self.profiles.len(),
                users == profile_views(self.profiles@),
                avatar_of(users, name@) == avatar_of(users.skip(i as int), name@),
            decreases self.profiles.len() - i,
        {
            proof {
                let rest = users.skip(i as int);
                assert(rest.first() == self.profiles[i as int]@);
                assert(rest.drop_first() =~= users.skip(i + 1));
            }
            if same_text(self.profiles[i].name.as_str(), name) {
                return self.profiles[i].avatar.clone();
            }
            i += 1;
        }
        String::new()
    }
}

impl Chat {
    /// Starts a session for `username`. The state is the initial one, and
    /// the envelope is the one to send at once, which registers the user.
    pub fn create(username: String) -> (r: (Chat, Envelope))
        ensures
            r.0@ == initial_state(username@),
            r.1@ == register_envelope(username@),
    {
        let envelope = Envelope {
            message_type: MsgTypes::Register,
            data_array: None,
            data: Some(username.clone()),
        };
        let chat = Chat { users: Roster::empty(), messages: Vec::new(), username };
        assert(chat@.messages =~= Seq::empty());
        (chat, envelope)
    }

    /// Replaces the roster by the one that `names` stands for.
    pub fn replace_roster(&mut self, names: &Vec<String>)
        ensures
            final(self)@ == (ChatView { users: roster_of(names.deep_view()), ..old(self)@ }),
    {
        self.users = Roster::of_names(names);
    }

    /// Adds a line at the end of the log.
    pub fn append_message(&mut self, message: ChatMessage)
        ensures
            final(self)@ == (ChatView {
                messages: old(self)@.messages.push(message@),
                ..old(self)@
            }),
    {
        self.messages.push(message);
        assert(self@.messages =~= old(self)@.messages.push(message@));
    }

    /// Applies an inbound envelope: the state becomes what
    /// [`apply_envelope`] gives, and the result tells what happened.
    pub fn apply_inbound(&mut self, envelope: &Envelope) -> (r: Applied)
        ensures
            final(self)@ == apply_envelope(old(self)@, envelope@),
            r == applied_by(envelope@),
    {
        match envelope.message_type {
            MsgTypes::Users => {
                match &envelope.data_array {
                    Some(names) => {
                        self.replace_roster(names);
                    },
                    None => {
                        let names: Vec<String> = Vec::new();
                        assert(names.deep_view() =~= Seq::empty());
                        self.replace_roster(&names);
                    },
                }
                Applied::Roster
            },
            MsgTypes::Message => match &envelope.data {
                Some(data) => match decode_payload(data.as_str()) {
                    Ok(message) => {
                        self.append_message(message);
                        Applied::Line
                    },
                    Err(error) => Applied::Refused(error),
                },
                None => Applied::Nothing,
            },
            MsgTypes::Register => Applied::Nothing,
        }
    }

    /// Turns a text typed by the user into the envelope to send, as
    /// [`submission`] gives it: none for a text of white space only, and
    /// else one that carries the text as it was typed, untrimmed. The state
    /// does not change: the line enters the log when the server sends it
    /// back.
    pub fn submit_outgoing(&self, raw_text: &str) -> (r: Option<Envelope>)
        ensures
            r is Some <==> submission(raw_text@) is Some,
            r is Some ==> r->Some_0@ == submission(raw_text@)->Some_0,
            r is None <==> is_blank(raw_text@),
    {
        proof {
            lemma_trimmed_empty_iff_blank(raw_text@);
        }
        if blank(raw_text) {
            None
        } else {
            Some(
                Envelope {
                    message_type: MsgTypes::Message,
                    data_array: None,
                    data: Some(raw_text.to_owned()),
                },
            )
        }
    }

    /// Reacts to an event: the state becomes what [`state_after`] gives,
    /// and the result is what [`update_after`] asks for.
    pub fn update(&mut self, msg: Msg) -> (r: Update)
        ensures
            final(self)@ == state_after(old(self)@, msg@),
            r@ == update_after(msg@),
    {
        match msg {
            Msg::HandleMsg(frame) => match decode(frame.as_str()) {
                Ok(envelope) => {
                    let applied = self.apply_inbound(&envelope);
                    match applied {
                        Applied::Roster => Update {
                            render: true,
                            outbound: None,
                            clear_input: false,
                            error: None,
                        },
                        Applied::Line => Update {
                            render: true,
                            outbound: None,
                            clear_input: false,
                            error: None,
                        },
                        Applied::Nothing => Update {
                            render: false,
                            outbound: None,
                            clear_input: false,
                            error: None,
                        },
                        Applied::Refused(error) => Update {
                            render: false,
                            outbound: None,
                            clear_input: false,
                            error: Some(error),
                        },
                    }
                },
                Err(error) => Update {
                    render: false,
                    outbound: None,
                    clear_input: false,
                    error: Some(error),
                },
            },
            Msg::SubmitMessage(text) => match self.submit_outgoing(text.as_str()) {
                Some(envelope) => Update {
                    render: false,
                    outbound: Some(envelope),
                    clear_input: true,
                    error: None,
                },
                None => Update { render: false, outbound: None, clear_input: false, error: None },
            },
        }
    }

    /// The avatar that the roster has for `name`.
    pub fn avatar(&self, name: &str) -> (r: String)
        ensures
            r@ == avatar_of(self@.users, name@),
    {
        self.users.avatar(name)
    }

    /// The log as it is to be shown: for each message who sent it and what
    /// it says, the sender's avatar, whether the session's own user sent
    /// it, and whether it names a GIF.
    pub fn lines(&self) -> (r: Vec<MessageLine>)
        ensures
            line_views(r@) == lines_of(self@),
    {
        let mut lines: Vec<MessageLine> = Vec::new();
        let mut i: usize = 0;
        while i < self.messages.len()
            invariant
                i <= self.messages.len(),
                lines.len() == i,
                forall|k: int|
                    0 <= k < i ==> (#[trigger] lines[k])@ == line_of(self@, self.messages[k]@),
            decreases self.messages.len() - i,
        {
            let message = &self.messages[i];
            let line = MessageLine {
                from: message.from.clone(),
                text: message.text.clone(),
                avatar: self.avatar(message.from.as_str()),
                own: message.from == self.username,
                gif: is_gif(message.text.as_str()),
            };
            lines.push(line);
            i += 1;
        }
        assert(line_views(lines@) =~= lines_of(self@));
        lines
    }

    /// Who is online: a derived roster.
    pub fn users(&self) -> (r: &Vec<UserProfile>)
        ensures
            profile_views(r@) == self@.users,
            derived_roster(self@.users),
    {
        self.users.profiles()
    }

    /// What has been said.
    pub fn messages(&self) -> (r: &Vec<ChatMessage>)
        ensures
            message_views(r@) == self@.messages,
    {
        &self.messages
    }

    /// The name of the session's own user.
    pub fn username(&self) -> (r: &str)
        ensures
            r@ == self@.username,
    {
        self.username.as_str()
    }
}

/// The state after a run of inbound envelopes, applied in their order.
pub open spec fn apply_all(state: ChatView, envelopes: Seq<EnvelopeView>) -> ChatView
    decreases envelopes.len(),
{
    if envelopes.len() == 0 {
        state
    } else {
        apply_envelope(apply_all(state, envelopes.drop_last()), envelopes.last())
    }
}

/// The messages that a run of `message` envelopes brings, in their order.
pub open spec fn carried_messages(envelopes: Seq<EnvelopeView>) -> Seq<ChatMessageView> {
    Seq::new(envelopes.len(), |i: int| carried_message(envelopes[i])->Some_0)
}

/// A `users` envelope replaces the roster as a whole: the roster after it
/// is the one its list of names stands for, whatever the roster was.
pub proof fn lemma_users_envelope_replaces_roster(state: ChatView, envelope: EnvelopeView)
    requires
        envelope.message_type == MsgTypes::Users,
    ensures
        apply_envelope(state, envelope).users == roster_of(listed_names(envelope)),
        apply_envelope(state, envelope).messages == state.messages,
        apply_envelope(state, envelope).username == state.username,
{
}

/// After any run of envelopes the roster is the one that the latest `users`
/// envelope lists: `at` is the place of a `users` envelope after which the
/// run holds no other.
pub proof fn lemma_roster_is_latest_snapshot(
    state: ChatView,
    envelopes: Seq<EnvelopeView>,
    at: int,
)
    requires
        0 <= at < envelopes.len(),
        envelopes[at].message_type == MsgTypes::Users,
        forall|j: int| at < j < envelopes.len() ==> envelopes[j].message_type != MsgTypes::Users,
    ensures
        apply_all(state, envelopes).users == roster_of(listed_names(envelopes[at])),
    decreases envelopes.len(),
{
    let before = envelopes.drop_last();
    if at < envelopes.len() - 1 {
        assert(before[at] == envelopes[at]);
        assert forall|j: int| at < j < before.len() implies before[j].message_type
            != MsgTypes::Users by {
            assert(before[j] == envelopes[j]);
        }
        lemma_roster_is_latest_snapshot(state, before, at);
    }
}

/// The roster that a list of names stands for holds exactly those names, in
/// the order of the list, and is derived.
pub proof fn lemma_roster_of_names(names: Seq<Seq<char>>)
    ensures
        roster_names(roster_of(names)) == names,
        derived_roster(roster_of(names)),
{
    assert(roster_names(roster_of(names)) =~= names);
}

/// After a run of `users` envelopes the roster is exactly the one that the
/// last of them lists: its names are the names of that list, in that order,
/// so that no name of an earlier list stays unless the last list holds it.
pub proof fn lemma_users_run_keeps_last_list(state: ChatView, envelopes: Seq<EnvelopeView>)
    requires
        envelopes.len() > 0,
        forall|i: int|
            0 <= i < envelopes.len() ==> (#[trigger] envelopes[i]).message_type == MsgTypes::Users,
    ensures
        apply_all(state, envelopes).users == roster_of(listed_names(envelopes.last())),
        roster_names(apply_all(state, envelopes).users) == listed_names(envelopes.last()),
{
    lemma_roster_is_latest_snapshot(state, envelopes, envelopes.len() - 1);
    lemma_roster_of_names(listed_names(envelopes.last()));
}

/// A run of `message` envelopes whose payloads can be read adds one line to
/// the log for each envelope, in the order of arrival, after the lines that
/// were there: nothing is reordered, and equal lines are all kept.
pub proof fn lemma_message_run_appends_in_order(state: ChatView, envelopes: Seq<EnvelopeView>)
    requires
        forall|i: int|
            0 <= i < envelopes.len() ==> (#[trigger] envelopes[i]).message_type
                == MsgTypes::Message && carried_message(envelopes[i]) is Some,
    ensures
        apply_all(state, envelopes).messages == state.messages + carried_messages(envelopes),
        apply_all(state, envelopes).messages.len() == state.messages.len() + envelopes.len(),
        apply_all(state, envelopes).users == state.users,
        apply_all(state, envelopes).username == state.username,
    decreases envelopes.len(),
{
    if envelopes.len() == 0 {
        assert(state.messages + carried_messages(envelopes) =~= state.messages);
    } else {
        let before = envelopes.drop_last();
        assert forall|i: int| 0 <= i < before.len() implies (#[trigger] before[i]).message_type
            == MsgTypes::Message && carried_message(before[i]) is Some by {
            assert(before[i] == envelopes[i]);
        }
        lemma_message_run_appends_in_order(state, before);
        assert(carried_messages(envelopes) =~= carried_messages(before).push(
            carried_message(envelopes.last())->Some_0,
        ));
        assert(state.messages + carried_messages(envelopes) =~= (state.messages + carried_messages(
            before,
        )).push(carried_message(envelopes.last())->Some_0));
    }
}

/// Whatever comes in, the log only grows at its end and the name of the
/// session's own user stays: the log before a run of envelopes is the start
/// of the log after it.
pub proof fn lemma_log_append_only(state: ChatView, envelopes: Seq<EnvelopeView>)
    ensures
        state.messages.is_prefix_of(apply_all(state, envelopes).messages),
        apply_all(state, envelopes).username == state.username,
    decreases envelopes.len(),
{
    if envelopes.len() > 0 {
        lemma_log_append_only(state, envelopes.drop_last());
    }
}

/// In a session the roster is derived at all times: whatever has come in
/// since the start, every profile is online and has the avatar that belongs
/// to its name.
pub proof fn lemma_session_roster_derived(username: Seq<char>, envelopes: Seq<EnvelopeView>)
    ensures
        derived_roster(apply_all(initial_state(username), envelopes).users),
    decreases envelopes.len(),
{
    if envelopes.len() > 0 {
        lemma_session_roster_derived(username, envelopes.drop_last());
        if envelopes.last().message_type == MsgTypes::Users {
            lemma_roster_of_names(listed_names(envelopes.last()));
        }
    }
}

/// Tells whether a roster holds a profile with the given name.
pub open spec fn roster_holds(users: Seq<UserProfileView>, name: Seq<char>) -> bool {
    exists|i: int| 0 <= i < users.len() && (#[trigger] users[i]).name == name
}

/// In a derived roster the avatar of a name that the roster holds is the one
/// that belongs to the name, and a name that the roster does not hold has
/// the empty avatar.
pub proof fn lemma_avatar_of_derived_roster(users: Seq<UserProfileView>, name: Seq<char>)
    requires
        derived_roster(users),
    ensures
        roster_holds(users, name) ==> avatar_of(users, name) == avatar_url(name),
        !roster_holds(users, name) ==> avatar_of(users, name) == Seq::<char>::empty(),
    decreases users.len(),
{
    if users.len() > 0 {
        let rest = users.drop_first();
        assert(users[0] == profile_of(users[0].name));
        if users.first().name != name {
            assert forall|i: int| 0 <= i < rest.len() implies #[trigger] rest[i] == profile_of(
                rest[i].name,
            ) by {
                assert(rest[i] == users[i + 1]);
            }
            lemma_avatar_of_derived_roster(rest, name);
            if roster_holds(users, name) {
                let i = choose|i: int| 0 <= i < users.len() && (#[trigger] users[i]).name == name;
                assert(rest[i - 1] == users[i]);
            }
            if roster_holds(rest, name) {
                let i = choose|i: int| 0 <= i < rest.len() && (#[trigger] rest[i]).name == name;
                assert(users[i + 1] == rest[i]);
            }
        }
    }
}

/// A text of white space only sends nothing, any other text sends itself
/// as it was typed, and no text that the user submits changes the state.
pub proof fn lemma_submit_leaves_state(state: ChatView, text: Seq<char>)
    ensures
        state_after(state, MsgView::SubmitMessage(text)) == state,
        is_blank(text) ==> update_after(MsgView::SubmitMessage(text)).outbound is None,
        !is_blank(text) ==> update_after(MsgView::SubmitMessage(text)).outbound == Some(
            message_envelope(text),
        ),
{
    lemma_trimmed_empty_iff_blank(text);
}

} // verus!
