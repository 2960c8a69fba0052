use vstd::prelude::*;

use crate::dialog_message::{
    opt_string_view, DialogEntry, DialogMessage, DialogMessageView, MessageData, MessageView,
};
use crate::dialog_state::{
    elapsed, empty_state, first_with_id, prompt_of_transcript, up_to, DialogState, DialogStateView,
};
use crate::openai_client::{prompt_view, OpenAiChatMessage, PromptView};
use crate::text::{contains, is_substring, lower_of, to_lowercase};

verus! {

/// Idle time, in milliseconds, after which a conversation is over unless
/// configured otherwise: three minutes.
pub const DEFAULT_DIALOG_TIMEOUT_MS: u64 = 180_000;

/// The completion length asked for each reply.
pub const MAX_TOKENS: i32 = 200;

/// The odds of an arbitrary interjection, where that strategy is on: three in
/// ten.
pub const ARBITRARY_RESPONSE_NUMERATOR: u32 = 3;

pub const ARBITRARY_RESPONSE_DENOMINATOR: u32 = 10;

/// Relies on rand's Rng::gen_ratio with the thread-local generator: never
/// true at odds of zero, always true at odds of one.
#[verifier::external_body]
fn chance(numerator: u32, denominator: u32) -> (r: bool)
    requires
        0 < denominator,
        numerator <= denominator,
    ensures
        numerator == 0 ==> !r,
        numerator == denominator ==> r,
{
    rand::Rng::gen_ratio(&mut rand::thread_rng(), numerator, denominator)
}

fn copy_name(name: &Option<String>) -> (r: Option<String>)
    ensures
        opt_string_view(r) == opt_string_view(*name),
{
    match name {
        Some(s) => Some(s.clone()),
        None => None,
    }
}

/// The content of an update from the chat platform.
pub struct IncomingView {
    pub id: i32,
    pub is_private_chat: bool,
    pub text: Option<Seq<char>>,
    pub author_name: Option<Seq<char>>,
    pub is_bot: bool,
    pub reply_to_id: Option<i32>,
}

/// An update from the chat platform, as plain values: its message id, whether
/// it came from a one-on-one chat, its text if it is a text message, the
/// sender's display name and whether the sender is an automated account, and
/// the id of the message that it replies to.
pub struct IncomingMessage {
    pub id: i32,
    pub is_private_chat: bool,
    pub text: Option<String>,
    pub author_name: Option<String>,
    pub is_bot: bool,
    pub reply_to_id: Option<i32>,
}

impl View for IncomingMessage {
    type V = IncomingView;

    open spec fn view(&self) -> IncomingView {
        IncomingView {
            id: self.id,
            is_private_chat: self.is_private_chat,
            text: opt_string_view(self.text),
            author_name: opt_string_view(self.author_name),
            is_bot: self.is_bot,
            reply_to_id: self.reply_to_id,
        }
    }
}

/// The record of an update that holds text.
pub open spec fn contents_of(m: IncomingView) -> Option<MessageView> {
    match m.text {
        Some(text) => Some(MessageView { id: m.id, text, author_name: m.author_name, is_bot: m.is_bot }),
        None => None,
    }
}

/// The conversation message for an update: a reply where it replies to a
/// recorded message, else standalone; nothing where it holds no text.
pub open spec fn parsed(messages: Seq<DialogMessageView>, m: IncomingView) -> Option<DialogMessageView> {
    match contents_of(m) {
        None => None,
        Some(message) => match m.reply_to_id {
            Some(rid) => match first_with_id(messages, rid) {
                Some(target) => Some(DialogMessageView::Reply { message, reply_to: target.message() }),
                None => Some(DialogMessageView::Standalone { message }),
            },
            None => Some(DialogMessageView::Standalone { message }),
        },
    }
}

/// A state after recording an update received at `now`, if it parses.
pub open spec fn recorded(s: DialogStateView, m: IncomingView, now: u64) -> DialogStateView {
    match parsed(s.messages, m) {
        Some(d) => DialogStateView { messages: s.messages.push(d), last_message_received: Some(now), ..s },
        None => s,
    }
}

/// Whether the last message calls for a reply: a reply to an automated
/// account always does; a standalone message does where the persona
/// participates or is mentioned.
pub open spec fn calls_for_reply(last: DialogMessageView, participating: bool, mentioned: bool) -> bool {
    match last {
        DialogMessageView::Reply { reply_to, .. } => reply_to.is_bot,
        DialogMessageView::Standalone { .. } => participating || mentioned,
    }
}

/// What a decision hands out: a prompt and the id of the message to reply to.
pub open spec fn plan_view(r: (Option<Vec<OpenAiChatMessage>>, Option<i32>)) -> (Option<Seq<PromptView>>, Option<i32>) {
    (
        match r.0 {
            Some(p) => Some(prompt_view(p@)),
            None => None,
        },
        r.1,
    )
}

/// The reply decided on: nothing for an empty conversation or one whose last
/// message calls for no reply; else the persona description followed by the
/// whole transcript, aimed at the last message.
pub open spec fn planned_response(description: Seq<char>, s: DialogStateView, mentioned: bool) -> (Option<Seq<PromptView>>, Option<i32>) {
    if s.messages.len() == 0 {
        (None, None)
    } else if calls_for_reply(s.messages.last(), s.is_participating, mentioned) {
        (
            Some(seq![PromptView::System { text: description }] + prompt_of_transcript(s.messages)),
            Some(s.messages.last().message().id),
        )
    } else {
        (None, None)
    }
}

/// An arbitrary interjection on the message with id `msg_id`: the transcript
/// up to it, aimed at it.
pub open spec fn interjection(s: DialogStateView, msg_id: i32) -> (Option<Seq<PromptView>>, Option<i32>) {
    (Some(prompt_of_transcript(up_to(s.messages, msg_id))), Some(msg_id))
}

/// The messages that an optional message makes.
pub open spec fn as_seq(d: Option<DialogMessageView>) -> Seq<DialogMessageView> {
    match d {
        Some(m) => seq![m],
        None => Seq::empty(),
    }
}

/// The persona and its rules for joining a conversation.
pub struct DialogHandler {
    character_name: String,
    character_description: String,
    dialog_timeout: u64,
    arbitrary_interjection: bool,
}

impl DialogHandler {
    pub closed spec fn spec_name(&self) -> Seq<char> {
        self.character_name@
    }

    pub closed spec fn spec_description(&self) -> Seq<char> {
        self.character_description@
    }

    /// The idle timeout, in milliseconds.
    pub closed spec fn spec_timeout(&self) -> u64 {
        self.dialog_timeout
    }

    pub closed spec fn spec_interjects(&self) -> bool {
        self.arbitrary_interjection
    }

    /// Whether the last message of a state mentions the persona's name,
    /// ignoring case.
    pub open spec fn mentioned_in(&self, s: DialogStateView) -> bool {
        s.messages.len() > 0 && is_substring(lower_of(self.spec_name()), lower_of(s.messages.last().message().text))
    }

    /// Whether a state's conversation has been idle longer than the timeout at
    /// `now`.
    pub open spec fn timed_out(&self, s: DialogStateView, now: u64) -> bool {
        match s.last_message_received {
            Some(t) => elapsed(t, now) > self.spec_timeout(),
            None => false,
        }
    }

    /// A state as it stands once an update has been taken in at `now`.
    pub open spec fn after_update(&self, s: DialogStateView, m: IncomingView, now: u64) -> DialogStateView {
        if m.is_private_chat {
            s
        } else if self.timed_out(s, now) {
            recorded(empty_state(), m, now)
        } else {
            recorded(s, m, now)
        }
    }

    /// What a decision on a state may hand out: the planned response, or,
    /// where arbitrary interjection is on and the conversation is not empty,
    /// an interjection on one of its messages.
    pub open spec fn decides(&self, s: DialogStateView, r: (Option<Seq<PromptView>>, Option<i32>)) -> bool {
        r == planned_response(self.spec_description(), s, self.mentioned_in(s)) || (self.spec_interjects()
            && exists|i: int| 0 <= i < s.messages.len() && r == interjection(s, (#[trigger] s.messages[i]).message().id))
    }

    /// A persona with the given name and description; the idle timeout is in
    /// milliseconds, three minutes where none is given. Arbitrary
    /// interjection is off.
    pub fn new(character_name: &str, character_desc: &str, dialog_timeout: Option<u64>) -> (r: Self)
        ensures
            r.spec_name() == character_name@,
            r.spec_description() == character_desc@,
            r.spec_timeout() == (match dialog_timeout {
                Some(t) => t,
                None => DEFAULT_DIALOG_TIMEOUT_MS,
            }),
            !r.spec_interjects(),
    {
        DialogHandler {
            character_name: character_name.to_owned(),
            character_description: character_desc.to_owned(),
            dialog_timeout: match dialog_timeout {
                Some(t) => t,
                None => DEFAULT_DIALOG_TIMEOUT_MS,
            },
            arbitrary_interjection: false,
        }
    }

    /// The same persona, with arbitrary interjection switched on or off.
    pub fn with_arbitrary_interjection(self, enabled: bool) -> (r: Self)
        ensures
            r.spec_name() == self.spec_name(),
            r.spec_description() == self.spec_description(),
            r.spec_timeout() == self.spec_timeout(),
            r.spec_interjects() == enabled,
    {
        DialogHandler { arbitrary_interjection: enabled, ..self }
    }

    pub fn is_dialog_timed_out(&self, state: &DialogState, now: u64) -> (r: bool)
        ensures
            r == self.timed_out(state@, now),
    {
        match state.get_duration_since_last_message(now) {
            Some(d) => d > self.dialog_timeout,
            None => false,
        }
    }

    /// The record of an update, where it holds text.
    pub fn parse_message_contents(&self, msg: &IncomingMessage) -> (r: Option<MessageData>)
        ensures
            match r {
                Some(d) => contents_of(msg@) == Some(d@),
                None => contents_of(msg@) is None,
            },
    {
        match &msg.text {
            Some(text) => Some(MessageData::new(msg.id, text.clone(), copy_name(&msg.author_name), msg.is_bot)),
            None => None,
        }
    }

    /// The conversation message for an update, against the recorded
    /// transcript.
    pub fn parse_message(&self, state: &DialogState, msg: &IncomingMessage) -> (r: Option<DialogMessage>)
        ensures
            match r {
                Some(d) => parsed(state@.messages, msg@) == Some(d@),
                None => parsed(state@.messages, msg@) is None,
            },
    {
        let message = match self.parse_message_contents(msg) {
            Some(c) => c,
            None => return None,
        };
        match msg.reply_to_id {
            Some(rid) => match state.get_message(rid) {
                Some(target) => Some(DialogMessage::Reply { message, reply_to: MessageData::from_entry(target) }),
                None => Some(DialogMessage::Standalone { message }),
            },
            None => Some(DialogMessage::Standalone { message }),
        }
    }

    /// The reply decided on for a state, given whether its last message
    /// mentions the persona.
    pub fn plan_response(&self, state: &DialogState, mentioned: bool) -> (r: (Option<Vec<OpenAiChatMessage>>, Option<i32>))
        ensures
            plan_view(r) == planned_response(self.spec_description(), state@, mentioned),
    {
        let last = match state.peek() {
            Some(m) => m,
            None => return (None, None),
        };
        let respond = match last {
            DialogMessage::Reply { reply_to, .. } => reply_to.is_bot(),
            DialogMessage::Standalone { .. } => state.is_participating() || mentioned,
        };
        if !respond {
            return (None, None);
        }
        let mut prompt: Vec<OpenAiChatMessage> = Vec::new();
        prompt.push(OpenAiChatMessage::System { text: self.character_description.clone() });
        let mut rest = state.get_prompt_messages();
        let ghost first = prompt@;
        let ghost tail = rest@;
        prompt.append(&mut rest);
        proof {
            assert(prompt_view(prompt@) =~= prompt_view(first) + prompt_view(tail));
            assert(prompt_view(first) =~= seq![PromptView::System { text: self.spec_description() }]);
        }
        (Some(prompt), Some(last.get_id()))
    }

    /// An arbitrary interjection on the message with id `msg_id`.
    pub fn plan_interjection(&self, state: &DialogState, msg_id: i32) -> (r: (Option<Vec<OpenAiChatMessage>>, Option<i32>))
        ensures
            plan_view(r) == interjection(state@, msg_id),
    {
        (Some(state.slice_up_to(msg_id).get_prompt_messages()), Some(msg_id))
    }

    /// Whether the last message mentions the persona's name, ignoring case.
    pub fn is_mentioned(&self, state: &DialogState) -> (r: bool)
        ensures
            r == self.mentioned_in(state@),
    {
        match state.peek() {
            Some(last) => {
                let text = to_lowercase(last.get_text());
                let name = to_lowercase(self.character_name.as_str());
                contains(text.as_str(), name.as_str())
            },
            None => false,
        }
    }

    /// The prompt to answer with, if any, and the id of the message to reply
    /// to.
    pub fn should_respond(&self, state: &DialogState) -> (r: (Option<Vec<OpenAiChatMessage>>, Option<i32>))
        ensures
            self.decides(state@, plan_view(r)),
            !self.spec_interjects() ==> plan_view(r) == planned_response(
                self.spec_description(),
                state@,
                self.mentioned_in(state@),
            ),
            state@.messages.len() == 0 ==> r == (None::<Vec<OpenAiChatMessage>>, None::<i32>),
    {
        if state.peek().is_none() {
            return (None, None);
        }
        let mentioned = self.is_mentioned(state);
        if self.arbitrary_interjection && chance(ARBITRARY_RESPONSE_NUMERATOR, ARBITRARY_RESPONSE_DENOMINATOR) {
            if let Some(target) = state.random_message() {
                let r = self.plan_interjection(state, target.get_id());
                proof {
                    let i = choose|i: int| 0 <= i < state@.messages.len() && state@.messages[i] == target@;
                    assert(plan_view(r) == interjection(state@, state@.messages[i].message().id));
                }
                return r;
            }
        }
        self.plan_response(state, mentioned)
    }

    /// Takes in an update received at `now`: ignored where it comes from a
    /// one-on-one chat; else the conversation is cleared where it has been
    /// idle too long, the update is recorded where it parses, and the
    /// decision on the resulting state is returned.
    pub fn handle_update(&self, state: &mut DialogState, msg: &IncomingMessage, now: u64) -> (r: (Option<Vec<OpenAiChatMessage>>, Option<i32>))
        ensures
            final(state)@ == self.after_update(old(state)@, msg@, now),
            msg@.is_private_chat ==> final(state)@ == old(state)@,
            msg@.is_private_chat ==> r == (None::<Vec<OpenAiChatMessage>>, None::<i32>),
            !msg@.is_private_chat ==> self.decides(final(state)@, plan_view(r)),
            !msg@.is_private_chat && !self.spec_interjects() ==> plan_view(r) == planned_response(
                self.spec_description(),
                final(state)@,
                self.mentioned_in(final(state)@),
            ),
    {
        if msg.is_private_chat {
            return (None, None);
        }
        if self.is_dialog_timed_out(state, now) {
            state.clear();
        }
        match self.parse_message(state, msg) {
            Some(d) => state.add_message(d, now),
            None => {},
        }
        self.should_respond(state)
    }

    /// Records the persona's own reply, sent and received back at `now`, and
    /// marks the persona as participating; does nothing where the reply does
    /// not parse. Returns whether it was recorded.
    pub fn record_own_reply(&self, state: &mut DialogState, sent: &IncomingMessage, now: u64) -> (r: bool)
        ensures
            r == parsed(old(state)@.messages, sent@) is Some,
            r ==> final(state)@ == (DialogStateView {
                is_participating: true,
                ..recorded(old(state)@, sent@, now)
            }),
            !r ==> final(state)@ == old(state)@,
    {
        match self.parse_message(state, sent) {
            Some(d) => {
                state.add_message(d, now);
                state.set_participating();
                true
            },
            None => false,
        }
    }
}

/// After an idle gap longer than the timeout, an update from a group starts a
/// new conversation: the transcript holds at most that update, and recording
/// the persona's reply adds only the reply.
pub proof fn lemma_idle_timeout_starts_afresh(
    handler: DialogHandler,
    s: DialogStateView,
    m: IncomingView,
    now: u64,
    reply: IncomingView,
    later: u64,
)
    requires
        !m.is_private_chat,
        handler.timed_out(s, now),
    ensures
        handler.after_update(s, m, now).messages == as_seq(parsed(Seq::empty(), m)),
        recorded(handler.after_update(s, m, now), reply, later).messages == as_seq(parsed(Seq::empty(), m))
            + as_seq(parsed(handler.after_update(s, m, now).messages, reply)),
{
    let s1 = handler.after_update(s, m, now);
    assert(s1.messages =~= as_seq(parsed(Seq::empty(), m)));
    assert(recorded(s1, reply, later).messages =~= s1.messages + as_seq(parsed(s1.messages, reply)));
}

} // verus!
