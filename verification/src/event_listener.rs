//! Listener records: the closed set of event categories a handler can be
//! registered for, the fallible parse from a category name, and the record
//! pairing a category (and optional command name) with its handler.

use vstd::prelude::*;
use vstd::string::StrSliceExecFns;
use vstd::string::StringExecFns;

use crate::context::Context;
use crate::context::SendRequest;
use crate::error::Error;
use crate::message::opt_view;
use crate::text::str_equal;

verus! {

/// The category of inbound events a listener subscribes to.
///
/// `Invalid` is the sentinel produced when an unrecognized category name is
/// supplied at registration time; a listener is never stored with it.
#[derive(Debug)]
pub enum EventType {
    Message,
    FriendMessage,
    GroupMessage,
    Command,
    Invalid(Error),
}

/// The mathematical value of an [`EventType`]: the same tags, with the
/// invalid sentinel abstracted to its message text.
pub enum EventTypeView {
    Message,
    FriendMessage,
    GroupMessage,
    Command,
    Invalid(Seq<char>),
}

impl View for EventType {
    type V = EventTypeView;

    open spec fn view(&self) -> EventTypeView {
        match self {
            EventType::Message => EventTypeView::Message,
            EventType::FriendMessage => EventTypeView::FriendMessage,
            EventType::GroupMessage => EventTypeView::GroupMessage,
            EventType::Command => EventTypeView::Command,
            EventType::Invalid(e) => EventTypeView::Invalid(e@),
        }
    }
}

impl Clone for EventType {
    /// The clone has the same abstract value as the original.
    fn clone(&self) -> (r: Self)
        ensures
            r@ == self@,
    {
        match self {
            EventType::Message => EventType::Message,
            EventType::FriendMessage => EventType::FriendMessage,
            EventType::GroupMessage => EventType::GroupMessage,
            EventType::Command => EventType::Command,
            EventType::Invalid(e) => EventType::Invalid(e.clone()),
        }
    }
}

/// The text of the error reported when an unrecognized category name is
/// supplied at registration time.
pub open spec fn invalid_event_text(s: Seq<char>) -> Seq<char> {
    "Invalid message type: received `"@ + s
        + "`, expected `message`, `friendMessage` or `groupMessage`."@
}

/// The category a name designates: each of the four recognized names maps to
/// its tag, and every other name to the invalid sentinel carrying the exact
/// error text.
pub open spec fn spec_event_type_of(s: Seq<char>) -> EventTypeView {
    if s == "message"@ {
        EventTypeView::Message
    } else if s == "friendMessage"@ {
        EventTypeView::FriendMessage
    } else if s == "groupMessage"@ {
        EventTypeView::GroupMessage
    } else if s == "command"@ {
        EventTypeView::Command
    } else {
        EventTypeView::Invalid(invalid_event_text(s))
    }
}

impl EventType {
    /// Parses a category name, yielding the invalid sentinel — and never
    /// failing outright — on an unrecognized one.
    pub fn parse(event_type: &str) -> (r: EventType)
        ensures
            r@ == spec_event_type_of(event_type@),
    {
        if str_equal(event_type, "message") {
            EventType::Message
        } else if str_equal(event_type, "friendMessage") {
            EventType::FriendMessage
        } else if str_equal(event_type, "groupMessage") {
            EventType::GroupMessage
        } else if str_equal(event_type, "command") {
            EventType::Command
        } else {
            let mut msg = String::from_str("Invalid message type: received `");
            msg.append(event_type);
            msg.append("`, expected `message`, `friendMessage` or `groupMessage`.");
            EventType::Invalid(Error::new(msg))
        }
    }
}

/// The reaction to one inbound context, implemented by application code.
///
/// A handler only decides; it reports the sends it wants performed, and the
/// surrounding runtime performs them. A failing handler returns its error,
/// which the dispatcher collects without letting it stop later listeners.
pub trait Handler {
    fn handle(&self, ctx: Context) -> Result<Vec<SendRequest>, Error>;
}

/// One registration: an event category, the handler to run, and — for a
/// listener bound to one specific command — that command's name.
pub struct EventListener<H> {
    event_type: EventType,
    handler: H,
    command_name: Option<String>,
}

/// The mathematical value of an [`EventListener`]: the category and optional
/// command name; the handler itself is opaque.
#[verifier::ext_equal]
pub struct ListenerView {
    pub event_type: EventTypeView,
    pub command_name: Option<Seq<char>>,
}

impl<H> View for EventListener<H> {
    type V = ListenerView;

    closed spec fn view(&self) -> ListenerView {
        ListenerView { event_type: self.event_type@, command_name: opt_view(self.command_name) }
    }
}

impl<H> DeepView for EventListener<H> {
    type V = ListenerView;

    open spec fn deep_view(&self) -> ListenerView {
        self.view()
    }
}

impl<H: Handler> EventListener<H> {
    /// Packs a registration record.
    pub fn new(event_type: EventType, handler: H, command_name: Option<String>) -> (r: Self)
        ensures
            r@.event_type == event_type@,
            r@.command_name == opt_view(command_name),
    {
        EventListener { event_type, handler, command_name }
    }

    /// The category this listener subscribes to.
    pub fn event_type(&self) -> (r: EventType)
        ensures
            r@ == self@.event_type,
    {
        self.event_type.clone()
    }

    /// The category this listener subscribes to, borrowed.
    pub fn event_type_ref(&self) -> (r: &EventType)
        ensures
            r@ == self@.event_type,
    {
        &self.event_type
    }

    /// The command name this listener is bound to, if any.
    pub fn command_name(&self) -> (r: Option<String>)
        ensures
            opt_view(r) == self@.command_name,
    {
        match &self.command_name {
            Option::Some(n) => Option::Some(n.clone()),
            Option::None => Option::None,
        }
    }

    /// The command name this listener is bound to, if any, borrowed.
    pub fn command_name_ref(&self) -> (r: Option<&String>)
        ensures
            match r {
                Option::Some(n) => self@.command_name matches Option::Some(m) && n@ == m,
                Option::None => self@.command_name is None,
            },
    {
        match &self.command_name {
            Option::Some(n) => Option::Some(n),
            Option::None => Option::None,
        }
    }

    /// Runs the handler on a context. What the handler decides is its own;
    /// nothing is promised of the outcome.
    pub fn handle(&self, ctx: Context) -> Result<Vec<SendRequest>, Error> {
        self.handler.handle(ctx)
    }
}

} // verus!
