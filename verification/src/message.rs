//! The message model: the tagged segments composing a chat message, the
//! sender-capability abstraction, and the inbound message envelope.

use vstd::prelude::*;

verus! {

/// The kind of chatroom a message belongs to: a direct (friend) conversation
/// or a group conversation.
#[derive(Clone, Copy, Debug, PartialEq, Eq, Structural)]
pub enum ChatroomType {
    Friend,
    Group,
}

/// One tagged segment of a message chain.
///
/// `Source` carries the envelope metadata and is always the first segment of a
/// raw inbound chain; `At` is a mention of a member; `Plain` is a text segment;
/// `Face` and `Image` are media segments the dispatcher carries through
/// untouched.
#[derive(Debug, PartialEq)]
pub enum SingleMessage {
    Source {
        id: i64,
        time: i64,
    },
    At {
        target: i64,
        display: String,
    },
    Plain {
        text: String,
    },
    Face {
        face_id: i64,
        name: String,
    },
    Image {
        image_id: Option<String>,
        url: Option<String>,
        path: Option<String>,
        base64: Option<String>,
    },
}

/// The mathematical value of a [`SingleMessage`]: the same variants with every
/// string abstracted to its character sequence.
pub enum MessageView {
    Source {
        id: i64,
        time: i64,
    },
    At {
        target: i64,
        display: Seq<char>,
    },
    Plain {
        text: Seq<char>,
    },
    Face {
        face_id: i64,
        name: Seq<char>,
    },
    Image {
        image_id: Option<Seq<char>>,
        url: Option<Seq<char>>,
        path: Option<Seq<char>>,
        base64: Option<Seq<char>>,
    },
}

/// The abstract value of an optional string.
pub open spec fn opt_view(s: Option<String>) -> Option<Seq<char>> {
    match s {
        Option::Some(t) => Option::Some(t@),
        Option::None => Option::None,
    }
}

impl View for SingleMessage {
    type V = MessageView;

    open spec fn view(&self) -> MessageView {
        match self {
            SingleMessage::Source { id, time } => MessageView::Source { id: *id, time: *time },
            SingleMessage::At { target, display } => MessageView::At {
                target: *target,
                display: display@,
            },
            SingleMessage::Plain { text } => MessageView::Plain { text: text@ },
            SingleMessage::Face { face_id, name } => MessageView::Face {
                face_id: *face_id,
                name: name@,
            },
            SingleMessage::Image { image_id, url, path, base64 } => MessageView::Image {
                image_id: opt_view(*image_id),
                url: opt_view(*url),
                path: opt_view(*path),
                base64: opt_view(*base64),
            },
        }
    }
}

impl DeepView for SingleMessage {
    type V = MessageView;

    open spec fn deep_view(&self) -> MessageView {
        self.view()
    }
}

impl Clone for SingleMessage {
    /// A deep copy: the clone has the same abstract value as the original.
    fn clone(&self) -> (r: Self)
        ensures
            r@ == self@,
    {
        match self {
            SingleMessage::Source { id, time } => SingleMessage::Source { id: *id, time: *time },
            SingleMessage::At { target, display } => SingleMessage::At {
                target: *target,
                display: display.clone(),
            },
            SingleMessage::Plain { text } => SingleMessage::Plain { text: text.clone() },
            SingleMessage::Face { face_id, name } => SingleMessage::Face {
                face_id: *face_id,
                name: name.clone(),
            },
            SingleMessage::Image { image_id, url, path, base64 } => SingleMessage::Image {
                image_id: clone_opt_string(image_id),
                url: clone_opt_string(url),
                path: clone_opt_string(path),
                base64: clone_opt_string(base64),
            },
        }
    }
}

/// Clones an optional string, preserving its abstract value.
fn clone_opt_string(s: &Option<String>) -> (r: Option<String>)
    ensures
        opt_view(r) == opt_view(*s),
{
    match s {
        Option::Some(t) => Option::Some(t.clone()),
        Option::None => Option::None,
    }
}

/// An ordered sequence of message segments; insertion order is presentation
/// order, never sorted or deduplicated.
pub type MessageChain = Vec<SingleMessage>;

/// Builds a plain-text segment from the given text.
pub fn create_plain_message(text: String) -> (r: SingleMessage)
    ensures
        r@ == (MessageView::Plain { text: text@ }),
{
    SingleMessage::Plain { text }
}

/// Builds a chain holding a single plain-text segment with the given text.
pub fn create_plain_message_chain(text: String) -> (r: MessageChain)
    ensures
        r.deep_view() =~= seq![MessageView::Plain { text: text@ }],
{
    let mut message_chain: MessageChain = Vec::new();
    message_chain.push(create_plain_message(text));
    message_chain
}

/// A deep copy of a chain: the same abstract value, segment by segment.
pub fn clone_chain(chain: &MessageChain) -> (r: MessageChain)
    ensures
        r.deep_view() == chain.deep_view(),
{
    let mut out: MessageChain = Vec::new();
    let mut k: usize = 0;
    while k < chain.len()
        invariant
            0 <= k <= chain.len(),
            out.deep_view() =~= chain.deep_view().subrange(0, k as int),
        decreases chain.len() - k,
    {
        let ghost before: Seq<MessageView> = out.deep_view();
        let item = chain[k].clone();
        let ghost itemv: MessageView = item@;
        out.push(item);
        proof {
            assert(out.deep_view() =~= before.push(itemv));
            assert(before.push(itemv) =~= chain.deep_view().subrange(0, k as int + 1));
        }
        k = k + 1;
    }
    proof {
        assert(out.deep_view() =~= chain.deep_view());
    }
    out
}

/// The permission level a member holds in a group.
#[derive(Clone, Copy, Debug, PartialEq, Eq, Structural)]
pub enum Permission {
    OWNER,
    ADMINISTRATOR,
    MEMBER,
}

/// A group chatroom: its numeric identity, display name, and the permission
/// the agent itself holds there.
#[derive(Debug, PartialEq)]
pub struct Group {
    pub id: i64,
    pub name: String,
    pub permission: Permission,
}

/// The sender of a direct message; the chatroom of such a message is the
/// sender itself.
#[derive(Debug, PartialEq)]
pub struct FriendSender {
    pub id: i64,
    pub nickname: String,
    pub remark: String,
}

/// The sender of a group message; the chatroom is the group entity, distinct
/// from the sender.
#[derive(Debug, PartialEq)]
pub struct GroupSender {
    pub id: i64,
    pub member_name: String,
    pub permission: Permission,
    pub group: Group,
}

/// The capability set common to every sender: where the message came from and
/// who wrote it.
pub trait Sender {
    /// The chatroom kind this sender writes from.
    spec fn spec_chatroom_type(&self) -> ChatroomType;

    /// The numeric identity of the chatroom.
    spec fn spec_chatroom_id(&self) -> i64;

    /// The display name of the chatroom (empty for a direct conversation).
    spec fn spec_chatroom_name(&self) -> Seq<char>;

    /// The numeric identity of the sender.
    spec fn spec_sender_id(&self) -> i64;

    /// The display name of the sender.
    spec fn spec_sender_nickname(&self) -> Seq<char>;

    fn chatroom_type(&self) -> (r: ChatroomType)
        ensures
            r == self.spec_chatroom_type(),
    ;

    fn chatroom_id(&self) -> (r: i64)
        ensures
            r == self.spec_chatroom_id(),
    ;

    fn chatroom_name(&self) -> (r: String)
        ensures
            r@ == self.spec_chatroom_name(),
    ;

    fn sender_id(&self) -> (r: i64)
        ensures
            r == self.spec_sender_id(),
    ;

    fn sender_nickname(&self) -> (r: String)
        ensures
            r@ == self.spec_sender_nickname(),
    ;
}

impl Sender for FriendSender {
    open spec fn spec_chatroom_type(&self) -> ChatroomType {
        ChatroomType::Friend
    }

    open spec fn spec_chatroom_id(&self) -> i64 {
        self.id
    }

    open spec fn spec_chatroom_name(&self) -> Seq<char> {
        Seq::empty()
    }

    open spec fn spec_sender_id(&self) -> i64 {
        self.id
    }

    open spec fn spec_sender_nickname(&self) -> Seq<char> {
        self.nickname@
    }

    fn chatroom_type(&self) -> (r: ChatroomType) {
        ChatroomType::Friend
    }

    fn chatroom_id(&self) -> (r: i64) {
        self.id
    }

    // the chatroom name is only meaningful for a group message
    fn chatroom_name(&self) -> (r: String) {
        String::new()
    }

    fn sender_id(&self) -> (r: i64) {
        self.id
    }

    fn sender_nickname(&self) -> (r: String) {
        self.nickname.clone()
    }
}

impl Sender for GroupSender {
    open spec fn spec_chatroom_type(&self) -> ChatroomType {
        ChatroomType::Group
    }

    open spec fn spec_chatroom_id(&self) -> i64 {
        self.group.id
    }

    open spec fn spec_chatroom_name(&self) -> Seq<char> {
        self.group.name@
    }

    open spec fn spec_sender_id(&self) -> i64 {
        self.id
    }

    open spec fn spec_sender_nickname(&self) -> Seq<char> {
        self.member_name@
    }

    fn chatroom_type(&self) -> (r: ChatroomType) {
        ChatroomType::Group
    }

    fn chatroom_id(&self) -> (r: i64) {
        self.group.id
    }

    fn chatroom_name(&self) -> (r: String) {
        self.group.name.clone()
    }

    fn sender_id(&self) -> (r: i64) {
        self.id
    }

    fn sender_nickname(&self) -> (r: String) {
        self.member_name.clone()
    }
}

/// One inbound message as fetched from the gateway: a sender paired with the
/// raw message chain, tagged by conversation kind.
#[derive(Debug, PartialEq)]
pub enum ReceivedMessage {
    FriendMessage { sender: FriendSender, message_chain: MessageChain },
    GroupMessage { sender: GroupSender, message_chain: MessageChain },
}

} // verus!
