use vstd::prelude::*;

verus! {

/// The plain content of one chat message.
pub struct MessageView {
    pub id: i32,
    pub text: Seq<char>,
    pub author_name: Option<Seq<char>>,
    pub is_bot: bool,
}

/// What an optional borrowed string holds.
pub open spec fn opt_str_view(o: Option<&str>) -> Option<Seq<char>> {
    match o {
        Some(s) => Some(s@),
        None => None,
    }
}

/// What an optional owned string holds.
pub open spec fn opt_string_view(o: Option<String>) -> Option<Seq<char>> {
    match o {
        Some(s) => Some(s@),
        None => None,
    }
}

/// The accessors shared by a message record and a conversation message.
pub trait DialogEntry {
    spec fn entry(&self) -> MessageView;

    fn get_id(&self) -> (r: i32)
        ensures
            r == self.entry().id,
    ;

    fn get_text(&self) -> (r: &str)
        ensures
            r@ == self.entry().text,
    ;

    fn get_author_name(&self) -> (r: Option<&str>)
        ensures
            opt_str_view(r) == self.entry().author_name,
    ;

    fn is_bot(&self) -> (r: bool)
        ensures
            r == self.entry().is_bot,
    ;
}

/// One observed or produced chat message. The author name is absent exactly
/// when the persona itself wrote the message.
#[derive(Debug, Clone)]
pub struct MessageData {
    id: i32,
    text: String,
    author_name: Option<String>,
    is_bot: bool,
}

impl View for MessageData {
    type V = MessageView;

    closed spec fn view(&self) -> MessageView {
        MessageView {
            id: self.id,
            text: self.text@,
            author_name: opt_string_view(self.author_name),
            is_bot: self.is_bot,
        }
    }
}

fn copy_name(name: Option<&str>) -> (r: Option<String>)
    ensures
        opt_string_view(r) == opt_str_view(name),
{
    match name {
        Some(s) => Some(s.to_owned()),
        None => None,
    }
}

impl MessageData {
    pub fn new(id: i32, text: String, author_name: Option<String>, is_bot: bool) -> (r: Self)
        ensures
            r@ == (MessageView { id, text: text@, author_name: opt_string_view(author_name), is_bot }),
    {
        MessageData { id, text, author_name, is_bot }
    }

    /// A snapshot, by value, of the fields of any entry.
    pub fn from_entry<E: DialogEntry>(entry: &E) -> (r: Self)
        ensures
            r@ == entry.entry(),
    {
        MessageData {
            id: entry.get_id(),
            text: entry.get_text().to_owned(),
            author_name: copy_name(entry.get_author_name()),
            is_bot: entry.is_bot(),
        }
    }
}

impl DialogEntry for MessageData {
    open spec fn entry(&self) -> MessageView {
        self@
    }

    fn get_id(&self) -> (r: i32) {
        self.id
    }

    fn get_text(&self) -> (r: &str) {
        self.text.as_str()
    }

    fn get_author_name(&self) -> (r: Option<&str>) {
        match &self.author_name {
            Some(s) => Some(s.as_str()),
            None => None,
        }
    }

    fn is_bot(&self) -> (r: bool) {
        self.is_bot
    }
}

/// The content of a conversation message: alone, or with a snapshot of the
/// message it replies to.
pub enum DialogMessageView {
    Standalone { message: MessageView },
    Reply { message: MessageView, reply_to: MessageView },
}

impl DialogMessageView {
    pub open spec fn message(self) -> MessageView {
        match self {
            DialogMessageView::Standalone { message } => message,
            DialogMessageView::Reply { message, .. } => message,
        }
    }
}

/// A message of the conversation, standalone or a reply.
#[derive(Debug, Clone)]
pub enum DialogMessage {
    Standalone { message: MessageData },
    Reply { message: MessageData, reply_to: MessageData },
}

impl View for DialogMessage {
    type V = DialogMessageView;

    open spec fn view(&self) -> DialogMessageView {
        match self {
            DialogMessage::Standalone { message } => DialogMessageView::Standalone { message: message@ },
            DialogMessage::Reply { message, reply_to } => DialogMessageView::Reply {
                message: message@,
                reply_to: reply_to@,
            },
        }
    }
}

impl DialogMessage {
    /// The message that this one wraps, whatever its shape.
    pub fn message(&self) -> (r: &MessageData)
        ensures
            r@ == self@.message(),
    {
        match self {
            DialogMessage::Standalone { message } => message,
            DialogMessage::Reply { message, .. } => message,
        }
    }

    /// A copy that holds the same content.
    pub fn duplicate(&self) -> (r: Self)
        ensures
            r@ == self@,
    {
        match self {
            DialogMessage::Standalone { message } => DialogMessage::Standalone {
                message: MessageData::from_entry(message),
            },
            DialogMessage::Reply { message, reply_to } => DialogMessage::Reply {
                message: MessageData::from_entry(message),
                reply_to: MessageData::from_entry(reply_to),
            },
        }
    }
}

impl DialogEntry for DialogMessage {
    open spec fn entry(&self) -> MessageView {
        self@.message()
    }

    fn get_id(&self) -> (r: i32) {
        self.message().get_id()
    }

    fn get_text(&self) -> (r: &str) {
        self.message().get_text()
    }

    fn get_author_name(&self) -> (r: Option<&str>) {
        self.message().get_author_name()
    }

    fn is_bot(&self) -> (r: bool) {
        self.message().is_bot()
    }
}

} // verus!
