//! The agent itself: its identity, the listener registry with its validation
//! rules, and the dispatcher that matches every inbound message against the
//! registered listeners under the command-precedence rules.

use vstd::prelude::*;
use vstd::string::StrSliceExecFns;
use vstd::string::StringExecFns;

use crate::context::chain_malformed;
use crate::context::Context;
use crate::context::ContextView;
use crate::context::SendRequest;
use crate::error::Error;
use crate::event_listener::EventListener;
use crate::event_listener::EventType;
use crate::event_listener::EventTypeView;
use crate::event_listener::Handler;
use crate::event_listener::ListenerView;
use crate::event_listener::spec_event_type_of;
use crate::message::ChatroomType;
use crate::message::MessageChain;
use crate::message::MessageView;
use crate::message::ReceivedMessage;
use crate::text::str_equal;
use crate::utils::BotConfig;

verus! {

/// The raw chain an inbound message carries, whichever conversation kind it
/// arrived in.
pub open spec fn message_chain_of(m: ReceivedMessage) -> Seq<MessageView> {
    match m {
        ReceivedMessage::FriendMessage { message_chain, .. } => message_chain.deep_view(),
        ReceivedMessage::GroupMessage { message_chain, .. } => message_chain.deep_view(),
    }
}

/// The mathematical value of a [`Bot`]: its identity and the registry state;
/// the handlers themselves are opaque.
#[verifier::ext_equal]
pub struct BotView {
    pub qq: i64,
    pub master_qq: i64,
    pub session: Seq<char>,
    pub listeners: Seq<ListenerView>,
    pub commands: Seq<Seq<char>>,
}

/// The agent: numeric identity, session token, and the listener registry.
pub struct Bot<H> {
    qq: i64,
    master_qq: i64,
    session: String,
    event_listeners: Vec<EventListener<H>>,
    commands: Vec<String>,
}

impl<H> View for Bot<H> {
    type V = BotView;

    closed spec fn view(&self) -> BotView {
        BotView {
            qq: self.qq,
            master_qq: self.master_qq,
            session: self.session@,
            listeners: self.event_listeners.deep_view(),
            commands: self.commands.deep_view(),
        }
    }
}

/// The registry's well-formedness: every listener bound to a command name has
/// that name tracked in the registered-command set. Constructors establish
/// it and registrations preserve it; the command-precedence rules rest on it.
pub open spec fn registry_wf(b: BotView) -> bool {
    forall|i: int|
        0 <= i < b.listeners.len() && b.listeners[i].command_name is Some
            ==> b.commands.contains(#[trigger] b.listeners[i].command_name->0)
}

/// The matching rule: whether one listener fires for one context.
///
/// Plain message listeners never see command traffic; a named command
/// listener fires exactly for its own name; a generic command listener fires
/// for commands whose non-empty name has no registration of its own.
pub open spec fn spec_will_handle(
    commands: Seq<Seq<char>>,
    ctx: ContextView,
    l: ListenerView,
) -> bool {
    match l.event_type {
        EventTypeView::FriendMessage => !ctx.is_command && ctx.chatroom_type is Friend,
        EventTypeView::GroupMessage => !ctx.is_command && ctx.chatroom_type is Group,
        EventTypeView::Message => !ctx.is_command,
        EventTypeView::Command => ctx.is_command && ctx.command_name.len() > 0 && match l
            .command_name {
            Option::None => !commands.contains(ctx.command_name),
            Option::Some(n) => ctx.command_name == n,
        },
        EventTypeView::Invalid(_) => false,
    }
}

/// The indices of the listeners that fire for a context, in registration
/// order.
pub open spec fn match_indices(
    commands: Seq<Seq<char>>,
    ls: Seq<ListenerView>,
    ctx: ContextView,
) -> Seq<int>
    decreases ls.len(),
{
    if ls.len() == 0 {
        Seq::empty()
    } else {
        match_indices(commands, ls.drop_last(), ctx) + (if spec_will_handle(
            commands,
            ctx,
            ls.last(),
        ) {
            seq![ls.len() - 1]
        } else {
            Seq::empty()
        })
    }
}

/// The text of the error reported when a command name is registered twice.
pub open spec fn duplicate_command_text(name: Seq<char>) -> Seq<char> {
    "[Error] Adding a duplicate command "@ + name + "."@
}

impl<H: Handler> Bot<H> {
    /// Builds an agent with the given identity and session token and an empty
    /// registry.
    pub fn new(config: BotConfig, session: &str) -> (r: Self)
        ensures
            r@.qq == config.qq,
            r@.master_qq == config.master_qq,
            r@.session == session@,
            r@.listeners == Seq::<ListenerView>::empty(),
            r@.commands == Seq::<Seq<char>>::empty(),
            registry_wf(r@),
    {
        let r = Bot {
            qq: config.qq,
            master_qq: config.master_qq,
            session: String::from_str(session),
            event_listeners: Vec::new(),
            commands: Vec::new(),
        };
        proof {
            assert(r@.listeners =~= Seq::<ListenerView>::empty());
            assert(r@.commands =~= Seq::<Seq<char>>::empty());
        }
        r
    }

    /// A copy of the agent's identity with an empty registry; listener
    /// registrations are deliberately not carried over.
    pub fn clone(&self) -> (r: Self)
        ensures
            r@.qq == self@.qq,
            r@.master_qq == self@.master_qq,
            r@.session == self@.session,
            r@.listeners == Seq::<ListenerView>::empty(),
            r@.commands == Seq::<Seq<char>>::empty(),
            registry_wf(r@),
    {
        let r = Bot {
            qq: self.qq,
            master_qq: self.master_qq,
            session: self.session.clone(),
            event_listeners: Vec::new(),
            commands: Vec::new(),
        };
        proof {
            assert(r@.listeners =~= Seq::<ListenerView>::empty());
            assert(r@.commands =~= Seq::<Seq<char>>::empty());
        }
        r
    }

    /// The agent's own numeric identity.
    pub fn qq(&self) -> (r: i64)
        ensures
            r == self@.qq,
    {
        self.qq
    }

    /// The numeric identity of the agent's owner.
    pub fn master_qq(&self) -> (r: i64)
        ensures
            r == self@.master_qq,
    {
        self.master_qq
    }

    /// The active session token.
    pub fn session(&self) -> (r: String)
        ensures
            r@ == self@.session,
    {
        self.session.clone()
    }

    /// Whether a command name is already registered.
    fn commands_contain(&self, name: &str) -> (r: bool)
        ensures
            r == self@.commands.contains(name@),
    {
        let mut i: usize = 0;
        while i < self.commands.len()
            invariant
                0 <= i <= self.commands.len(),
                forall|j: int| 0 <= j < i ==> self@.commands[j] != name@,
            decreases self.commands.len() - i,
        {
            if str_equal(self.commands[i].as_str(), name) {
                assert(self@.commands[i as int] == name@);
                return true;
            }
            i = i + 1;
        }
        proof {
            assert(!self@.commands.contains(name@)) by {
                if self@.commands.contains(name@) {
                    let j = choose|j: int|
                        0 <= j < self@.commands.len() && self@.commands[j] == name@;
                    assert(self@.commands[j] != name@);
                }
            }
        }
        false
    }

    /// Registers a handler for a named event category.
    ///
    /// An unrecognized category name is rejected — the error is returned and
    /// the registry is left untouched — so the agent keeps running with its
    /// prior registrations.
    pub fn on(&mut self, event_type: &str, handler: H) -> (r: Result<(), Error>)
        ensures
            r is Ok <==> !(spec_event_type_of(event_type@) is Invalid),
            r matches Err(e) ==> final(self)@ == old(self)@ && spec_event_type_of(event_type@)
                == EventTypeView::Invalid(e@),
            r is Ok ==> final(self)@.listeners == old(self)@.listeners.push(
                ListenerView {
                    event_type: spec_event_type_of(event_type@),
                    command_name: Option::None,
                },
            ),
            r is Ok ==> final(self)@.commands == old(self)@.commands,
            final(self)@.qq == old(self)@.qq,
            final(self)@.master_qq == old(self)@.master_qq,
            final(self)@.session == old(self)@.session,
            registry_wf(old(self)@) ==> registry_wf(final(self)@),
    {
        let et = EventType::parse(event_type);
        match et {
            EventType::Invalid(e) => Err(e),
            other => {
                let ghost before: Seq<ListenerView> = self@.listeners;
                let ghost lv = ListenerView {
                    event_type: spec_event_type_of(event_type@),
                    command_name: Option::None,
                };
                self.event_listeners.push(EventListener::new(other, handler, Option::None));
                proof {
                    assert(self@.listeners =~= before.push(lv));
                    if registry_wf(old(self)@) {
                        assert forall|i: int|
                            0 <= i < self@.listeners.len() && self@.listeners[i].command_name
                                is Some implies self@.commands.contains(
                            #[trigger] self@.listeners[i].command_name->0,
                        ) by {
                            assert(i < before.len());
                        }
                    }
                }
                Ok(())
            },
        }
    }

    /// Registers a handler for one specific command name.
    ///
    /// The empty name and a name already registered are rejected — the error
    /// is returned and the registry is left untouched — to forbid ambiguous
    /// command ownership; the first registration of a name stays in force.
    pub fn command(&mut self, command_name: &str, handler: H) -> (r: Result<(), Error>)
        ensures
            r is Ok <==> (command_name@.len() > 0 && !old(self)@.commands.contains(
                command_name@,
            )),
            r is Err ==> final(self)@ == old(self)@,
            r is Err && command_name@.len() == 0 ==> (r matches Err(e) && e@
                == "[Error] Adding an empty command."@),
            r is Err && command_name@.len() > 0 ==> (r matches Err(e) && e@
                == duplicate_command_text(command_name@)),
            r is Ok ==> final(self)@.listeners == old(self)@.listeners.push(
                ListenerView {
                    event_type: EventTypeView::Command,
                    command_name: Option::Some(command_name@),
                },
            ),
            r is Ok ==> final(self)@.commands == old(self)@.commands.push(command_name@),
            final(self)@.qq == old(self)@.qq,
            final(self)@.master_qq == old(self)@.master_qq,
            final(self)@.session == old(self)@.session,
            registry_wf(old(self)@) ==> registry_wf(final(self)@),
    {
        if command_name.unicode_len() == 0 {
            return Err(Error::new(String::from_str("[Error] Adding an empty command.")));
        }
        if self.commands_contain(command_name) {
            let mut msg = String::from_str("[Error] Adding a duplicate command ");
            msg.append(command_name);
            msg.append(".");
            return Err(Error::new(msg));
        }
        let ghost before_ls: Seq<ListenerView> = self@.listeners;
        let ghost before_cs: Seq<Seq<char>> = self@.commands;
        let ghost lv = ListenerView {
            event_type: EventTypeView::Command,
            command_name: Option::Some(command_name@),
        };
        self.commands.push(String::from_str(command_name));
        self.event_listeners.push(
            EventListener::new(
                EventType::Command,
                handler,
                Option::Some(String::from_str(command_name)),
            ),
        );
        proof {
            assert(self@.listeners =~= before_ls.push(lv));
            assert(self@.commands =~= before_cs.push(command_name@));
            assert(self@.commands.last() == command_name@);
            assert(self@.commands.contains(command_name@));
            if registry_wf(old(self)@) {
                assert forall|i: int|
                    0 <= i < self@.listeners.len() && self@.listeners[i].command_name
                        is Some implies self@.commands.contains(
                    #[trigger] self@.listeners[i].command_name->0,
                ) by {
                    if i < before_ls.len() {
                        let n = before_ls[i].command_name->0;
                        assert(before_cs.contains(n));
                        let j = choose|j: int| 0 <= j < before_cs.len() && before_cs[j] == n;
                        assert(self@.commands[j] == n);
                    } else {
                        assert(self@.listeners[i] == lv);
                    }
                }
            }
        }
        Ok(())
    }

    /// Whether one listener fires for one built context, under the matching
    /// rule.
    pub fn will_handle(&self, ctx: &Context, listener: &EventListener<H>) -> (r: bool)
        ensures
            r == spec_will_handle(self@.commands, ctx@, listener@),
    {
        let is_cmd = ctx.is_command();
        match listener.event_type_ref() {
            EventType::FriendMessage => !is_cmd && ctx.chatroom_type() == ChatroomType::Friend,
            EventType::GroupMessage => !is_cmd && ctx.chatroom_type() == ChatroomType::Group,
            EventType::Message => !is_cmd,
            EventType::Command => {
                if !is_cmd {
                    false
                } else {
                    let name = ctx.command_name();
                    if name.unicode_len() == 0 {
                        false
                    } else {
                        match listener.command_name_ref() {
                            Option::None => !self.commands_contain(name),
                            Option::Some(n) => str_equal(n.as_str(), name),
                        }
                    }
                }
            },
            EventType::Invalid(_) => false,
        }
    }

    /// The indices of the listeners that fire for a context, in registration
    /// order.
    pub fn matching_listeners(&self, ctx: &Context) -> (r: Vec<usize>)
        ensures
            r@.map_values(|x: usize| x as int) == match_indices(
                self@.commands,
                self@.listeners,
                ctx@,
            ),
    {
        let mut r: Vec<usize> = Vec::new();
        let mut i: usize = 0;
        while i < self.event_listeners.len()
            invariant
                0 <= i <= self.event_listeners.len(),
                r@.map_values(|x: usize| x as int) =~= match_indices(
                    self@.commands,
                    self@.listeners.subrange(0, i as int),
                    ctx@,
                ),
            decreases self.event_listeners.len() - i,
        {
            let ghost pre: Seq<ListenerView> = self@.listeners.subrange(0, i as int);
            let ghost cur: Seq<ListenerView> = self@.listeners.subrange(0, i as int + 1);
            proof {
                assert(cur.drop_last() =~= pre);
                assert(cur.last() == self@.listeners[i as int]);
            }
            let w = self.will_handle(ctx, &self.event_listeners[i]);
            if w {
                let ghost rs: Seq<usize> = r@;
                r.push(i);
                proof {
                    assert(r@.map_values(|x: usize| x as int) =~= rs.map_values(
                        |x: usize| x as int,
                    ).push(i as int));
                }
            }
            i = i + 1;
        }
        proof {
            assert(self@.listeners.subrange(0, self@.listeners.len() as int) =~= self@.listeners);
        }
        r
    }

    /// Builds the context for one inbound message and runs every listener
    /// that fires for it, in registration order, each on its own copy of the
    /// context.
    ///
    /// Fails exactly when the message's chain is malformed; such a message is
    /// dropped by the caller and the loop continues. A failing handler's
    /// error is collected and later listeners still run; the sends the
    /// handlers decided on are returned in invocation order.
    pub fn dispatch(&self, message: ReceivedMessage) -> (r: Result<
        (Vec<SendRequest>, Vec<Error>),
        Error,
    >)
        ensures
            r is Ok <==> !chain_malformed(message_chain_of(message)),
            r matches Err(e) ==> e@
                == "[Error] Receiving error message type when creating context."@,
    {
        let built = match message {
            ReceivedMessage::FriendMessage { sender, message_chain } => Context::new(
                self.qq,
                sender,
                message_chain,
            ),
            ReceivedMessage::GroupMessage { sender, message_chain } => Context::new(
                self.qq,
                sender,
                message_chain,
            ),
        };
        let ctx = match built {
            Ok(c) => c,
            Err(e) => {
                return Err(e);
            },
        };
        let mut sends: Vec<SendRequest> = Vec::new();
        let mut errors: Vec<Error> = Vec::new();
        let mut i: usize = 0;
        while i < self.event_listeners.len()
            decreases self.event_listeners.len() - i,
        {
            let listener = &self.event_listeners[i];
            if self.will_handle(&ctx, listener) {
                match listener.handle(ctx.clone()) {
                    Ok(mut reqs) => {
                        sends.append(&mut reqs);
                    },
                    Err(e) => {
                        errors.push(e);
                    },
                }
            }
            i = i + 1;
        }
        Ok((sends, errors))
    }

    /// Describes a send to an arbitrary target as a plain value for the
    /// transport to perform.
    pub fn send_message(
        &self,
        chatroom_type: ChatroomType,
        target: i64,
        message_chain: MessageChain,
        quote: Option<i64>,
    ) -> (r: SendRequest)
        ensures
            r@.chatroom_type == chatroom_type,
            r@.target == target,
            r@.message_chain == message_chain.deep_view(),
            r@.quote == quote,
    {
        SendRequest { chatroom_type, target, message_chain, quote }
    }
}

/// The batch one polling tick works through: the fetched messages, or an
/// empty batch when the fetch failed — a fetch error never ends the loop.
pub fn batch_of_fetch(fetched: Result<Vec<ReceivedMessage>, Error>) -> (r: Vec<ReceivedMessage>)
    ensures
        fetched matches Ok(v) ==> r == v,
        fetched is Err ==> r@.len() == 0,
{
    match fetched {
        Ok(v) => v,
        Err(_) => Vec::new(),
    }
}

/// The matcher is pure: the match decisions for a context depend only on the
/// context value and the registry state, so matching the same built context
/// twice — against the same registry — yields identical decisions.
pub proof fn lemma_matcher_deterministic(
    b1: BotView,
    b2: BotView,
    c1: ContextView,
    c2: ContextView,
)
    requires
        b1.commands == b2.commands,
        b1.listeners == b2.listeners,
        c1 == c2,
    ensures
        match_indices(b1.commands, b1.listeners, c1) == match_indices(b2.commands, b2.listeners, c2),
{
}

/// Command precedence: a named command listener fires exactly for commands
/// carrying its own name, while a generic command listener (no bound name)
/// fires exactly for commands whose non-empty name has no registration of its
/// own — in particular never for a name that some listener is bound to.
pub proof fn lemma_command_precedence(b: BotView, ctx: ContextView, i: int, j: int)
    requires
        registry_wf(b),
        0 <= i < b.listeners.len(),
        b.listeners[i].event_type is Command,
        b.listeners[i].command_name is None,
        0 <= j < b.listeners.len(),
        b.listeners[j].event_type is Command,
        b.listeners[j].command_name == Option::Some(ctx.command_name),
    ensures
        !spec_will_handle(b.commands, ctx, b.listeners[i]),
        spec_will_handle(b.commands, ctx, b.listeners[j]) <==> (ctx.is_command
            && ctx.command_name.len() > 0),
{
    assert(b.commands.contains(b.listeners[j].command_name->0));
}

/// A generic command listener fires for every command whose non-empty name
/// is not separately registered.
pub proof fn lemma_generic_catches_unregistered(b: BotView, ctx: ContextView, i: int)
    requires
        0 <= i < b.listeners.len(),
        b.listeners[i].event_type is Command,
        b.listeners[i].command_name is None,
        ctx.is_command,
        ctx.command_name.len() > 0,
        !b.commands.contains(ctx.command_name),
    ensures
        spec_will_handle(b.commands, ctx, b.listeners[i]),
{
}

} // verus!
