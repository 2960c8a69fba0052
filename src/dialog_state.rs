use vstd::prelude::*;

use crate::dialog_message::{DialogEntry, DialogMessage, DialogMessageView, MessageView};
use crate::openai_client::{prompt_view, OpenAiChatMessage, PromptView};

verus! {

/// The content of the conversation state. Times are milliseconds on a
/// monotonic clock that the caller reads.
pub struct DialogStateView {
    pub messages: Seq<DialogMessageView>,
    pub last_message_received: Option<u64>,
    pub is_participating: bool,
}

/// The prompt entry for one recorded message: a user entry where the message
/// has an author name, else an assistant entry.
pub open spec fn prompt_of(m: MessageView) -> PromptView {
    match m.author_name {
        Some(name) => PromptView::User { name, text: m.text },
        None => PromptView::Assistant { text: m.text },
    }
}

/// The prompt entries for a transcript, in its order.
pub open spec fn prompt_of_transcript(messages: Seq<DialogMessageView>) -> Seq<PromptView> {
    messages.map_values(|d: DialogMessageView| prompt_of(d.message()))
}

/// The first message of a transcript with the given id.
pub open spec fn first_with_id(messages: Seq<DialogMessageView>, msg_id: i32) -> Option<DialogMessageView>
    decreases messages.len(),
{
    if messages.len() == 0 {
        None
    } else if messages[0].message().id == msg_id {
        Some(messages[0])
    } else {
        first_with_id(messages.drop_first(), msg_id)
    }
}

/// A lookup by an id that no recorded message has finds nothing.
pub proof fn lemma_get_absent(messages: Seq<DialogMessageView>, msg_id: i32)
    requires
        forall|i: int| 0 <= i < messages.len() ==> (#[trigger] messages[i]).message().id != msg_id,
    ensures
        first_with_id(messages, msg_id) is None,
    decreases messages.len(),
{
    if messages.len() > 0 {
        assert(messages[0].message().id != msg_id);
        assert forall|i: int| 0 <= i < messages.drop_first().len() implies (#[trigger] messages.drop_first()[i]).message().id != msg_id by {
            assert(messages.drop_first()[i] == messages[i + 1]);
        }
        lemma_get_absent(messages.drop_first(), msg_id);
    }
}

/// Once a message is added, a lookup by its id finds it, where no earlier
/// message has that id; and no time has passed since it came when the clock
/// still reads the time it was added.
pub proof fn lemma_add_then_get(messages: Seq<DialogMessageView>, m: DialogMessageView, now: u64)
    requires
        forall|i: int| 0 <= i < messages.len() ==> (#[trigger] messages[i]).message().id != m.message().id,
    ensures
        first_with_id(messages.push(m), m.message().id) == Some(m),
        elapsed(now, now) == 0,
    decreases messages.len(),
{
    if messages.len() > 0 {
        let rest = messages.drop_first();
        assert(messages.push(m)[0] == messages[0]);
        assert(messages.push(m).drop_first() =~= rest.push(m));
        assert forall|i: int| 0 <= i < rest.len() implies (#[trigger] rest[i]).message().id != m.message().id by {
            assert(rest[i] == messages[i + 1]);
        }
        lemma_add_then_get(rest, m, now);
    } else {
        assert(messages.push(m)[0] == m);
    }
}

/// What an optional borrowed message holds.
pub open spec fn opt_message_view(m: Option<&DialogMessage>) -> Option<DialogMessageView> {
    match m {
        Some(d) => Some(d@),
        None => None,
    }
}

/// The messages of a transcript whose id is at most `msg_id`, in order.
pub open spec fn up_to(messages: Seq<DialogMessageView>, msg_id: i32) -> Seq<DialogMessageView> {
    messages.filter(|d: DialogMessageView| d.message().id <= msg_id)
}

/// Time elapsed from `from` to `now`; zero where the clock reads earlier.
pub open spec fn elapsed(from: u64, now: u64) -> u64 {
    if now >= from {
        (now - from) as u64
    } else {
        0
    }
}

/// The state with nothing recorded.
pub open spec fn empty_state() -> DialogStateView {
    DialogStateView { messages: Seq::empty(), last_message_received: None, is_participating: false }
}

/// The transcript of the current conversation, when its last message came,
/// and whether the persona has joined it.
pub struct DialogState {
    messages: Vec<DialogMessage>,
    last_message_received: Option<u64>,
    is_participating: bool,
}

impl View for DialogState {
    type V = DialogStateView;

    closed spec fn view(&self) -> DialogStateView {
        DialogStateView {
            messages: self.messages@.map_values(|m: DialogMessage| m@),
            last_message_received: self.last_message_received,
            is_participating: self.is_participating,
        }
    }
}

/// Relies on rand's SliceRandom::choose with the thread-local generator:
/// nothing for an empty slice, else one of its elements.
#[verifier::external_body]
fn choose_message(messages: &[DialogMessage]) -> (r: Option<&DialogMessage>)
    ensures
        r is None <==> messages@.len() == 0,
        r matches Some(m) ==> exists|i: int| 0 <= i < messages@.len() && messages@[i] == *m,
{
    rand::seq::SliceRandom::choose(messages, &mut rand::thread_rng())
}

impl DialogState {
    pub fn new() -> (r: Self)
        ensures
            r@ == empty_state(),
    {
        let r = DialogState { messages: Vec::new(), last_message_received: None, is_participating: false };
        assert(r@.messages =~= Seq::<DialogMessageView>::empty());
        r
    }

    /// Forgets the conversation: no messages, no time, not participating.
    pub fn clear(&mut self)
        ensures
            final(self)@ == empty_state(),
    {
        self.messages.clear();
        self.last_message_received = None;
        self.is_participating = false;
        assert(self@.messages =~= Seq::<DialogMessageView>::empty());
    }

    /// Appends a message, received at time `now`.
    pub fn add_message(&mut self, msg: DialogMessage, now: u64)
        ensures
            final(self)@.messages == old(self)@.messages.push(msg@),
            final(self)@.last_message_received == Some(now),
            final(self)@.is_participating == old(self)@.is_participating,
    {
        self.messages.push(msg);
        self.last_message_received = Some(now);
        assert(self@.messages =~= old(self)@.messages.push(msg@));
    }

    pub fn set_participating(&mut self)
        ensures
            final(self)@ == (DialogStateView { is_participating: true, ..old(self)@ }),
    {
        self.is_participating = true;
        assert(self@.messages =~= old(self)@.messages);
    }

    pub fn is_participating(&self) -> (r: bool)
        ensures
            r == self@.is_participating,
    {
        self.is_participating
    }

    /// The first message with the given id.
    pub fn get_message(&self, msg_id: i32) -> (r: Option<&DialogMessage>)
        ensures
            opt_message_view(r) == first_with_id(self@.messages, msg_id),
    {
        let mut i: usize = 0;
        assert(self@.messages.subrange(0, self@.messages.len() as int) =~= self@.messages);
        while i < self.messages.len()
            invariant
                i <= self.messages@.len(),
                first_with_id(self@.messages, msg_id) == first_with_id(
                    self@.messages.subrange(i as int, self@.messages.len() as int),
                    msg_id,
                ),
            decreases self.messages.len() - i,
        {
            let ghost rest = self@.messages.subrange(i as int, self@.messages.len() as int);
            assert(rest[0] == self.messages@[i as int]@);
            if self.messages[i].get_id() == msg_id {
                return Some(&self.messages[i]);
            }
            assert(rest.drop_first() =~= self@.messages.subrange(i + 1, self@.messages.len() as int));
            i += 1;
        }
        assert(self@.messages.subrange(i as int, self@.messages.len() as int) =~= Seq::<DialogMessageView>::empty());
        None
    }

    /// Time since the last recorded message, if any was recorded.
    pub fn get_duration_since_last_message(&self, now: u64) -> (r: Option<u64>)
        ensures
            r == (match self@.last_message_received {
                Some(t) => Some(elapsed(t, now)),
                None => None,
            }),
    {
        match self.last_message_received {
            Some(t) => {
                if now >= t {
                    Some(now - t)
                } else {
                    Some(0)
                }
            },
            None => None,
        }
    }

    /// The most recently appended message.
    pub fn peek(&self) -> (r: Option<&DialogMessage>)
        ensures
            r is None <==> self@.messages.len() == 0,
            r matches Some(m) ==> m@ == self@.messages.last(),
    {
        if self.messages.len() == 0 {
            None
        } else {
            Some(&self.messages[self.messages.len() - 1])
        }
    }

    /// A message picked at random, if there is any.
    pub fn random_message(&self) -> (r: Option<&DialogMessage>)
        ensures
            r is None <==> self@.messages.len() == 0,
            r matches Some(m) ==> self@.messages.contains(m@),
    {
        let r = choose_message(self.messages.as_slice());
        proof {
            if let Some(m) = r {
                let i = choose|i: int| 0 <= i < self.messages@.len() && self.messages@[i] == *m;
                assert(self@.messages[i] == m@);
            }
        }
        r
    }

    /// A new state with the messages whose id is at most `msg_id`, in order,
    /// and the same time and participation.
    pub fn slice_up_to(&self, msg_id: i32) -> (r: Self)
        ensures
            r@.messages == up_to(self@.messages, msg_id),
            r@.last_message_received == self@.last_message_received,
            r@.is_participating == self@.is_participating,
    {
        let mut messages: Vec<DialogMessage> = Vec::new();
        let mut i: usize = 0;
        while i < self.messages.len()
            invariant
                i <= self.messages@.len(),
                messages@.map_values(|m: DialogMessage| m@) == up_to(self@.messages.subrange(0, i as int), msg_id),
            decreases self.messages.len() - i,
        {
            let m = &self.messages[i];
            let ghost pred = |d: DialogMessageView| d.message().id <= msg_id;
            proof {
                assert(self@.messages.subrange(0, i + 1) =~= self@.messages.subrange(0, i as int).push(m@));
                self@.messages.subrange(0, i as int).lemma_filter_push(m@, pred);
            }
            if m.get_id() <= msg_id {
                messages.push(m.duplicate());
            }
            i += 1;
            proof {
                assert(messages@.map_values(|m: DialogMessage| m@) =~= up_to(self@.messages.subrange(0, i as int), msg_id));
            }
        }
        assert(self@.messages.subrange(0, self.messages@.len() as int) =~= self@.messages);
        DialogState {
            messages,
            last_message_received: self.last_message_received,
            is_participating: self.is_participating,
        }
    }

    /// The prompt entries for the transcript, in its order.
    pub fn get_prompt_messages(&self) -> (r: Vec<OpenAiChatMessage>)
        ensures
            prompt_view(r@) == prompt_of_transcript(self@.messages),
    {
        let mut r: Vec<OpenAiChatMessage> = Vec::new();
        let mut i: usize = 0;
        while i < self.messages.len()
            invariant
                i <= self.messages@.len(),
                prompt_view(r@) == prompt_of_transcript(self@.messages.subrange(0, i as int)),
            decreases self.messages.len() - i,
        {
            let msg = &self.messages[i];
            let text = msg.get_text().to_owned();
            let entry = match msg.get_author_name() {
                Some(name) => OpenAiChatMessage::User { name: name.to_owned(), text },
                None => OpenAiChatMessage::Assistant { text },
            };
            assert(self@.messages[i as int] == msg@);
            assert(entry@ == prompt_of(msg@.message()));
            let ghost before = r@;
            r.push(entry);
            proof {
                assert(prompt_view(r@) =~= prompt_view(before).push(entry@));
                assert(prompt_of_transcript(self@.messages.subrange(0, i + 1)) =~= prompt_of_transcript(
                    self@.messages.subrange(0, i as int),
                ).push(prompt_of(msg@.message())));
            }
            i += 1;
        }
        assert(self@.messages.subrange(0, self.messages@.len() as int) =~= self@.messages);
        r
    }
}

} // verus!
