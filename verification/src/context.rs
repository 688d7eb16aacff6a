//! The context builder: one raw inbound message is normalized into an
//! immutable [`Context`] — envelope stripped, self-mention detected and
//! removed, command syntax parsed — which the dispatcher then matches against
//! the registered listeners.

use vstd::prelude::*;
use vstd::string::StrSliceExecFns;
use vstd::string::StringExecFns;

use crate::error::Error;
use crate::message::clone_chain;
use crate::message::ChatroomType;
use crate::message::MessageChain;
use crate::message::MessageView;
use crate::message::Sender;
use crate::message::SingleMessage;
use crate::text::join_with_space;
use crate::text::leading_token;
use crate::text::lemma_leading_token_at;
use crate::text::lemma_tokens_skip_ws;
use crate::text::lemma_tokens_step;
use crate::text::lemma_trim_start_at;
use crate::text::scan_non_ws;
use crate::text::scan_token_end;
use crate::text::tokens;
use crate::text::trim_start;

verus! {

/// Whether the text, after trimming leading whitespace, starts with the
/// command prefix character.
pub open spec fn starts_with_slash(text: Seq<char>) -> bool {
    trim_start(text).len() > 0 && trim_start(text)[0] == '/'
}

/// The command name carried by a text segment: the maximal non-whitespace run
/// immediately following the prefix character, or empty if the text is not a
/// command or nothing is glued to the prefix.
pub open spec fn spec_command_name(text: Seq<char>) -> Seq<char> {
    if starts_with_slash(text) {
        leading_token(trim_start(text).drop_first())
    } else {
        Seq::empty()
    }
}

/// The argument text of a command: the whitespace-delimited tokens following
/// the command name, rejoined with single spaces. Empty when the command name
/// itself is empty.
pub open spec fn spec_command_args(text: Seq<char>) -> Seq<char> {
    if spec_command_name(text).len() == 0 {
        Seq::empty()
    } else {
        join_with_space(
            tokens(trim_start(text).drop_first().skip(spec_command_name(text).len() as int)),
        )
    }
}

/// A raw chain is malformed when it does not open with a `Source` segment.
pub open spec fn chain_malformed(chain: Seq<MessageView>) -> bool {
    chain.len() == 0 || !(chain[0] is Source)
}

/// Whether the message addresses the agent itself: only a group message whose
/// chain (after the envelope) opens with a mention of the agent's own id.
pub open spec fn spec_is_at_me(ct: ChatroomType, bot_qq: i64, rest: Seq<MessageView>) -> bool {
    &&& ct is Group
    &&& rest.len() > 0
    &&& rest[0] matches MessageView::At { target, .. } && target == bot_qq
}

/// The chain after the envelope and, when the message mentions the agent, the
/// leading mention have been removed.
pub open spec fn spec_working_chain(
    ct: ChatroomType,
    bot_qq: i64,
    rest: Seq<MessageView>,
) -> Seq<MessageView> {
    if spec_is_at_me(ct, bot_qq, rest) {
        rest.drop_first()
    } else {
        rest
    }
}

/// Whether a working chain opens with a plain segment whose trimmed text
/// starts with the command prefix.
pub open spec fn head_is_command_text(w: Seq<MessageView>) -> bool {
    w.len() > 0 && (w[0] matches MessageView::Plain { text } && starts_with_slash(text))
}

/// Whether the message is a command: for a direct message, its first visible
/// segment carries the prefix; for a group message, additionally the agent
/// itself must have been mentioned first.
pub open spec fn spec_is_command(ct: ChatroomType, bot_qq: i64, rest: Seq<MessageView>) -> bool {
    match ct {
        ChatroomType::Friend => head_is_command_text(spec_working_chain(ct, bot_qq, rest)),
        ChatroomType::Group => spec_is_at_me(ct, bot_qq, rest) && head_is_command_text(
            spec_working_chain(ct, bot_qq, rest),
        ),
    }
}

/// The command name of the message, or empty when it is not a command.
pub open spec fn spec_ctx_command_name(
    ct: ChatroomType,
    bot_qq: i64,
    rest: Seq<MessageView>,
) -> Seq<char> {
    if spec_is_command(ct, bot_qq, rest) {
        spec_command_name(spec_working_chain(ct, bot_qq, rest)[0]->text)
    } else {
        Seq::empty()
    }
}

/// The visible content chain: the working chain, with the command token
/// replaced by its argument text when the message is a command.
pub open spec fn spec_content_chain(
    ct: ChatroomType,
    bot_qq: i64,
    rest: Seq<MessageView>,
) -> Seq<MessageView> {
    let w = spec_working_chain(ct, bot_qq, rest);
    if spec_is_command(ct, bot_qq, rest) {
        seq![MessageView::Plain { text: spec_command_args(w[0]->text) }] + w.drop_first()
    } else {
        w
    }
}

/// The mathematical value of a [`Context`].
#[verifier::ext_equal]
pub struct ContextView {
    pub is_at_me: bool,
    pub is_command: bool,
    pub command_name: Seq<char>,
    pub chatroom_type: ChatroomType,
    pub chatroom_id: i64,
    pub chatroom_name: Seq<char>,
    pub sender_id: i64,
    pub sender_nickname: Seq<char>,
    pub message_id: i64,
    pub message_chain: Seq<MessageView>,
}

/// The context a well-formed raw chain from the given sender normalizes to.
pub open spec fn built_context<S: Sender>(
    bot_qq: i64,
    sender: S,
    chain: Seq<MessageView>,
) -> ContextView {
    let rest = chain.drop_first();
    let ct = sender.spec_chatroom_type();
    ContextView {
        is_at_me: spec_is_at_me(ct, bot_qq, rest),
        is_command: spec_is_command(ct, bot_qq, rest),
        command_name: spec_ctx_command_name(ct, bot_qq, rest),
        chatroom_type: ct,
        chatroom_id: sender.spec_chatroom_id(),
        chatroom_name: sender.spec_chatroom_name(),
        sender_id: sender.spec_sender_id(),
        sender_nickname: sender.spec_sender_nickname(),
        message_id: chain[0]->id,
        message_chain: spec_content_chain(ct, bot_qq, rest),
    }
}

/// The normalized, immutable value derived from one inbound message, handed
/// to every matching listener.
pub struct Context {
    is_at_me: bool,
    is_command: bool,
    command_name: String,
    chatroom_type: ChatroomType,
    chatroom_id: i64,
    chatroom_name: String,
    sender_id: i64,
    sender_nickname: String,
    message_id: i64,
    message_chain: MessageChain,
}

impl View for Context {
    type V = ContextView;

    closed spec fn view(&self) -> ContextView {
        ContextView {
            is_at_me: self.is_at_me,
            is_command: self.is_command,
            command_name: self.command_name@,
            chatroom_type: self.chatroom_type,
            chatroom_id: self.chatroom_id,
            chatroom_name: self.chatroom_name@,
            sender_id: self.sender_id,
            sender_nickname: self.sender_nickname@,
            message_id: self.message_id,
            message_chain: self.message_chain.deep_view(),
        }
    }
}

/// An outbound send, described as a plain value: the dispatcher and the
/// listeners only ever decide what to send; the transport performs it.
pub struct SendRequest {
    pub chatroom_type: ChatroomType,
    pub target: i64,
    pub message_chain: MessageChain,
    pub quote: Option<i64>,
}

/// The mathematical value of a [`SendRequest`].
#[verifier::ext_equal]
pub struct SendRequestView {
    pub chatroom_type: ChatroomType,
    pub target: i64,
    pub message_chain: Seq<MessageView>,
    pub quote: Option<i64>,
}

impl View for SendRequest {
    type V = SendRequestView;

    open spec fn view(&self) -> SendRequestView {
        SendRequestView {
            chatroom_type: self.chatroom_type,
            target: self.target,
            message_chain: self.message_chain.deep_view(),
            quote: self.quote,
        }
    }
}

/// Whether the trimmed text starts with the command prefix character.
pub fn text_is_command(text: &str) -> (r: bool)
    ensures
        r == starts_with_slash(text@),
{
    let n: usize = text.unicode_len();
    let i: usize = scan_non_ws(text, 0);
    proof {
        lemma_trim_start_at(text@, i as int);
    }
    if i < n {
        text.get_char(i) == '/'
    } else {
        false
    }
}

/// Extracts the command name from a text segment.
pub fn command_name_of(text: &str) -> (r: String)
    ensures
        r@ == spec_command_name(text@),
{
    let n: usize = text.unicode_len();
    let i: usize = scan_non_ws(text, 0);
    proof {
        lemma_trim_start_at(text@, i as int);
    }
    if i < n && text.get_char(i) == '/' {
        let e: usize = scan_token_end(text, i + 1);
        proof {
            assert(trim_start(text@).drop_first() =~= text@.skip(i as int + 1));
            lemma_leading_token_at(text@, i as int + 1, e as int);
        }
        let sub = text.substring_char(i + 1, e);
        String::from_str(sub)
    } else {
        String::new()
    }
}

/// What remains to be appended after some tokens are already joined: a
/// space and the joined remaining tokens, or nothing when no token remains.
pub open spec fn space_join(ts: Seq<Seq<char>>) -> Seq<char> {
    if ts.len() == 0 {
        Seq::empty()
    } else {
        seq![' '] + join_with_space(ts)
    }
}

proof fn lemma_join_cons(t: Seq<char>, ts: Seq<Seq<char>>)
    ensures
        join_with_space(seq![t] + ts) == t + space_join(ts),
{
    if ts.len() == 0 {
        assert((seq![t] + ts) =~= seq![t]);
        assert(join_with_space(seq![t]) == t);
        assert(t + space_join(ts) =~= t);
    } else {
        assert((seq![t] + ts).len() >= 2);
        assert((seq![t] + ts)[0] == t);
        assert((seq![t] + ts).drop_first() =~= ts);
        assert(join_with_space(seq![t] + ts) == t + seq![' '] + join_with_space(ts));
        assert(t + seq![' '] + join_with_space(ts) =~= t + (seq![' '] + join_with_space(ts)));
    }
}

/// Extracts the argument text of a command from a text segment.
pub fn command_args_of(text: &str) -> (r: String)
    ensures
        r@ == spec_command_args(text@),
{
    let n: usize = text.unicode_len();
    let i: usize = scan_non_ws(text, 0);
    proof {
        lemma_trim_start_at(text@, i as int);
    }
    if !(i < n && text.get_char(i) == '/') {
        return String::new();
    }
    let e: usize = scan_token_end(text, i + 1);
    proof {
        assert(trim_start(text@).drop_first() =~= text@.skip(i as int + 1));
        lemma_leading_token_at(text@, i as int + 1, e as int);
    }
    if e == i + 1 {
        // nothing is glued to the prefix: the command name is empty
        return String::new();
    }
    let ghost rest0 = text@.skip(e as int);
    proof {
        assert(spec_command_name(text@).len() == e - (i + 1));
        assert(trim_start(text@).drop_first().skip(e - (i + 1)) =~= text@.skip(e as int));
        assert(spec_command_args(text@) == join_with_space(tokens(rest0)));
    }
    let mut out = String::new();
    let mut pos: usize = e;
    let mut first: bool = true;
    loop
        invariant
            e <= pos <= n,
            n == text@.len(),
            spec_command_args(text@) == join_with_space(tokens(rest0)),
            first ==> out@ == Seq::<char>::empty() && tokens(text@.skip(pos as int)) == tokens(
                rest0,
            ),
            !first ==> join_with_space(tokens(rest0)) == out@ + space_join(
                tokens(text@.skip(pos as int)),
            ),
        decreases n - pos,
    {
        let p: usize = scan_non_ws(text, pos);
        proof {
            lemma_tokens_skip_ws(text@, pos as int, p as int);
        }
        if p == n {
            proof {
                assert(text@.skip(n as int) =~= Seq::<char>::empty());
                assert(tokens(text@.skip(p as int)).len() == 0);
                if first {
                    assert(join_with_space(tokens(rest0)) =~= Seq::<char>::empty());
                } else {
                    assert(join_with_space(tokens(rest0)) =~= out@);
                }
            }
            return out;
        }
        let q: usize = scan_token_end(text, p);
        proof {
            lemma_tokens_step(text@, p as int, q as int);
            lemma_join_cons(text@.subrange(p as int, q as int), tokens(text@.skip(q as int)));
        }
        let piece = text.substring_char(p, q);
        if first {
            first = false;
        } else {
            proof {
                reveal_strlit(" ");
                assert(" "@ =~= seq![' ']);
            }
            out.append(" ");
        }
        out.append(piece);
        pos = q;
    }
}

impl Context {
    /// Normalizes one raw inbound chain from the given sender into a context.
    ///
    /// Fails exactly when the chain does not open with a `Source` segment;
    /// otherwise every field of the result is the value the specification
    /// functions assign to it.
    pub fn new<S: Sender>(bot_qq: i64, sender: S, message_chain: MessageChain) -> (r: Result<
        Context,
        Error,
    >)
        ensures
            r is Ok <==> !chain_malformed(message_chain.deep_view()),
            r matches Ok(c) ==> c@ == built_context(bot_qq, sender, message_chain.deep_view()),
            r matches Err(e) ==> e@
                == "[Error] Receiving error message type when creating context."@,
    {
        let ghost chain0: Seq<MessageView> = message_chain.deep_view();
        let mut chain = message_chain;
        let mut malformed: bool = true;
        let mut message_id: i64 = 0;
        if chain.len() > 0 {
            match &chain[0] {
                SingleMessage::Source { id, .. } => {
                    message_id = *id;
                    malformed = false;
                },
                _ => {},
            }
        }
        if malformed {
            return Err(
                Error::new(
                    String::from_str("[Error] Receiving error message type when creating context."),
                ),
            );
        }
        assert(!chain_malformed(chain0));
        assert(message_id == chain0[0]->id);

        // strip the envelope segment
        chain.remove(0);
        let ghost rest: Seq<MessageView> = chain0.drop_first();
        proof {
            assert(chain.deep_view() =~= rest);
        }

        let ct = sender.chatroom_type();

        let is_at_me: bool = match ct {
            ChatroomType::Friend => false,
            ChatroomType::Group => {
                if chain.len() > 0 {
                    match &chain[0] {
                        SingleMessage::At { target, .. } => *target == bot_qq,
                        _ => false,
                    }
                } else {
                    false
                }
            },
        };
        assert(is_at_me == spec_is_at_me(ct, bot_qq, rest));

        // strip the leading self-mention
        if is_at_me {
            chain.remove(0);
        }
        let ghost working: Seq<MessageView> = spec_working_chain(ct, bot_qq, rest);
        proof {
            assert(chain.deep_view() =~= working);
        }

        let mut head_is_cmd: bool = false;
        let mut command_name = String::new();
        let mut command_args = String::new();
        if chain.len() > 0 {
            match &chain[0] {
                SingleMessage::Plain { text } => {
                    if text_is_command(text.as_str()) {
                        head_is_cmd = true;
                        command_name = command_name_of(text.as_str());
                        command_args = command_args_of(text.as_str());
                    }
                },
                _ => {},
            }
        }
        assert(head_is_cmd == head_is_command_text(working));

        let is_command: bool = match ct {
            ChatroomType::Friend => head_is_cmd,
            ChatroomType::Group => is_at_me && head_is_cmd,
        };
        assert(is_command == spec_is_command(ct, bot_qq, rest));

        if !is_command {
            command_name = String::new();
            command_args = String::new();
        }
        assert(command_name@ == spec_ctx_command_name(ct, bot_qq, rest));

        let content_chain: MessageChain;
        if is_command {
            let ghost argsv: Seq<char> = command_args@;
            let mut content: MessageChain = Vec::new();
            content.push(SingleMessage::Plain { text: command_args });
            assert(content.deep_view() =~= seq![MessageView::Plain { text: argsv }]);
            let mut k: usize = 1;
            while k < chain.len()
                invariant
                    1 <= k <= chain.len(),
                    chain.deep_view() == working,
                    is_command == spec_is_command(ct, bot_qq, rest),
                    is_command,
                    content.deep_view() =~= seq![MessageView::Plain { text: argsv }]
                        + working.subrange(1, k as int),
                decreases chain.len() - k,
            {
                let ghost before: Seq<MessageView> = content.deep_view();
                let item = chain[k].clone();
                let ghost itemv: MessageView = item@;
                proof {
                    assert(chain.deep_view()[k as int] == working[k as int]);
                    assert(itemv == working[k as int]);
                }
                content.push(item);
                proof {
                    assert(content.deep_view() =~= before.push(itemv));
                    assert(before.push(itemv) =~= seq![MessageView::Plain { text: argsv }]
                        + working.subrange(1, k as int + 1));
                }
                k = k + 1;
            }
            proof {
                assert(working.subrange(1, working.len() as int) =~= working.drop_first());
                assert(content.deep_view() =~= spec_content_chain(ct, bot_qq, rest));
            }
            content_chain = content;
        } else {
            content_chain = chain;
        }
        assert(content_chain.deep_view() =~= spec_content_chain(ct, bot_qq, rest));

        let ctx = Context {
            is_at_me,
            is_command,
            command_name,
            chatroom_type: ct,
            chatroom_id: sender.chatroom_id(),
            chatroom_name: sender.chatroom_name(),
            sender_id: sender.sender_id(),
            sender_nickname: sender.sender_nickname(),
            message_id,
            message_chain: content_chain,
        };
        assert(ctx@ == built_context(bot_qq, sender, chain0));
        Ok(ctx)
    }

    /// A deep copy: the clone has the same abstract value as the original.
    pub fn clone(&self) -> (r: Self)
        ensures
            r@ == self@,
    {
        let r = Context {
            is_at_me: self.is_at_me,
            is_command: self.is_command,
            command_name: self.command_name.clone(),
            chatroom_type: self.chatroom_type,
            chatroom_id: self.chatroom_id,
            chatroom_name: self.chatroom_name.clone(),
            sender_id: self.sender_id,
            sender_nickname: self.sender_nickname.clone(),
            message_id: self.message_id,
            message_chain: clone_chain(&self.message_chain),
        };
        r
    }

    /// The chatroom kind the message arrived in.
    pub fn chatroom_type(&self) -> (r: ChatroomType)
        ensures
            r == self@.chatroom_type,
    {
        self.chatroom_type
    }

    /// The numeric identity of the chatroom the message arrived in.
    pub fn chatroom_id(&self) -> (r: i64)
        ensures
            r == self@.chatroom_id,
    {
        self.chatroom_id
    }

    /// The display name of the chatroom (empty for a direct conversation).
    pub fn chatroom_name(&self) -> (r: String)
        ensures
            r@ == self@.chatroom_name,
    {
        self.chatroom_name.clone()
    }

    /// The numeric identity of the sender.
    pub fn sender_id(&self) -> (r: i64)
        ensures
            r == self@.sender_id,
    {
        self.sender_id
    }

    /// The display name of the sender.
    pub fn sender_nickname(&self) -> (r: String)
        ensures
            r@ == self@.sender_nickname,
    {
        self.sender_nickname.clone()
    }

    /// The identity of the inbound message, taken from its envelope segment.
    pub fn message_id(&self) -> (r: i64)
        ensures
            r == self@.message_id,
    {
        self.message_id
    }

    /// A copy of the visible content chain: the raw chain without its
    /// envelope, without a leading self-mention, and with the command token
    /// replaced by its argument text when the message is a command.
    pub fn message_chain(&self) -> (r: MessageChain)
        ensures
            r.deep_view() == self@.message_chain,
    {
        clone_chain(&self.message_chain)
    }

    /// Whether the content chain of a group message still opens with a
    /// mention (necessarily of someone other than the agent).
    pub fn is_at_message(&self) -> (r: bool)
        ensures
            r == (self@.chatroom_type is Group && self@.message_chain.len() > 0
                && self@.message_chain[0] is At),
    {
        match self.chatroom_type {
            ChatroomType::Friend => false,
            ChatroomType::Group => {
                if self.message_chain.len() > 0 {
                    match &self.message_chain[0] {
                        SingleMessage::At { .. } => true,
                        _ => false,
                    }
                } else {
                    false
                }
            },
        }
    }

    /// Whether the message mentions the agent itself at the front of its
    /// chain.
    pub fn is_at_me(&self) -> (r: bool)
        ensures
            r == self@.is_at_me,
    {
        self.is_at_me
    }

    /// Whether the message is a command.
    pub fn is_command(&self) -> (r: bool)
        ensures
            r == self@.is_command,
    {
        self.is_command
    }

    /// The parsed command name; empty when the message is not a command.
    pub fn command_name(&self) -> (r: &str)
        ensures
            r@ == self@.command_name,
    {
        self.command_name.as_str()
    }

    /// Describes a send to the originating chatroom, without quoting.
    pub fn reply(&self, message_chain: MessageChain) -> (r: SendRequest)
        ensures
            r@.chatroom_type == self@.chatroom_type,
            r@.target == self@.chatroom_id,
            r@.message_chain == message_chain.deep_view(),
            r@.quote is None,
    {
        SendRequest {
            chatroom_type: self.chatroom_type,
            target: self.chatroom_id,
            message_chain,
            quote: None,
        }
    }

    /// Describes a send to the originating chatroom, quoting the inbound
    /// message.
    pub fn quote_reply(&self, message_chain: MessageChain) -> (r: SendRequest)
        ensures
            r@.chatroom_type == self@.chatroom_type,
            r@.target == self@.chatroom_id,
            r@.message_chain == message_chain.deep_view(),
            r@.quote == Some(self@.message_id),
    {
        SendRequest {
            chatroom_type: self.chatroom_type,
            target: self.chatroom_id,
            message_chain,
            quote: Some(self.message_id),
        }
    }
}

/// A group message whose leading mention targets another member is never
/// addressed to the agent — and hence never a command — whatever content
/// follows in the chain.
pub proof fn lemma_mention_of_other(ct: ChatroomType, bot_qq: i64, rest: Seq<MessageView>)
    requires
        rest.len() > 0,
        rest[0] matches MessageView::At { target, .. } && target != bot_qq,
    ensures
        !spec_is_at_me(ct, bot_qq, rest),
        !spec_is_command(ct, bot_qq, rest),
{
}

} // verus!
