use std::cell::RefCell;
use std::rc::Rc;

use wood::bot::batch_of_fetch;
use wood::event_listener::Handler;
use wood::message::{FriendSender, ReceivedMessage, SingleMessage};
use wood::{Bot, BotConfig, ChatroomType, Context, Error, SendRequest};

const BOT_QQ: i64 = 1000;

type Log = Rc<RefCell<Vec<String>>>;

enum TestHandler {
    Echo,
    Mark(Log, String),
    Fail,
}

impl Handler for TestHandler {
    fn handle(&self, ctx: Context) -> Result<Vec<SendRequest>, Error> {
        match self {
            TestHandler::Echo => Ok(vec![ctx.reply(ctx.message_chain())]),
            TestHandler::Mark(log, tag) => {
                log.borrow_mut().push(tag.clone());
                Ok(vec![])
            }
            TestHandler::Fail => Err(Error::new("handler failed".to_string())),
        }
    }
}

fn config() -> BotConfig {
    BotConfig {
        qq: BOT_QQ,
        master_qq: 2000,
        setting_file: "config/settings.yml".to_string(),
    }
}

fn new_bot() -> Bot<TestHandler> {
    Bot::new(config(), "session-token")
}

fn friend_sender() -> FriendSender {
    FriendSender {
        id: 42,
        nickname: "alice".to_string(),
        remark: "alice".to_string(),
    }
}

fn source(id: i64) -> SingleMessage {
    SingleMessage::Source { id, time: 20211113 }
}

fn plain(text: &str) -> SingleMessage {
    SingleMessage::Plain {
        text: text.to_string(),
    }
}

fn friend_message(chain: Vec<SingleMessage>) -> ReceivedMessage {
    ReceivedMessage::FriendMessage {
        sender: friend_sender(),
        message_chain: chain,
    }
}

#[test]
fn bot_identity_accessors() {
    let bot = new_bot();
    assert_eq!(bot.qq(), BOT_QQ);
    assert_eq!(bot.master_qq(), 2000);
    assert_eq!(bot.session(), "session-token");
}

#[test]
fn bot_clone_keeps_identity_drops_listeners() {
    let log: Log = Rc::new(RefCell::new(vec![]));
    let mut bot = new_bot();
    bot.on("message", TestHandler::Mark(log.clone(), "m".to_string()))
        .unwrap();
    let copy = bot.clone();
    assert_eq!(copy.qq(), BOT_QQ);
    assert_eq!(copy.session(), "session-token");
    copy.dispatch(friend_message(vec![source(1), plain("hi")]))
        .unwrap();
    assert!(log.borrow().is_empty());
}

#[test]
fn invalid_event_type_is_rejected_with_message() {
    let mut bot = new_bot();
    let e = bot.on("msg", TestHandler::Echo).err().unwrap();
    assert_eq!(
        e.message(),
        "Invalid message type: received `msg`, expected `message`, `friendMessage` or `groupMessage`."
    );
}

#[test]
fn all_recognized_event_types_register() {
    let mut bot = new_bot();
    assert!(bot.on("message", TestHandler::Echo).is_ok());
    assert!(bot.on("friendMessage", TestHandler::Echo).is_ok());
    assert!(bot.on("groupMessage", TestHandler::Echo).is_ok());
    assert!(bot.on("command", TestHandler::Echo).is_ok());
}

#[test]
fn empty_command_name_is_rejected() {
    let mut bot = new_bot();
    let e = bot.command("", TestHandler::Echo).err().unwrap();
    assert_eq!(e.message(), "[Error] Adding an empty command.");
}

#[test]
fn duplicate_command_keeps_first_registration() {
    let log: Log = Rc::new(RefCell::new(vec![]));
    let mut bot = new_bot();
    bot.command("hi", TestHandler::Mark(log.clone(), "first".to_string()))
        .unwrap();
    let e = bot
        .command("hi", TestHandler::Mark(log.clone(), "second".to_string()))
        .err()
        .unwrap();
    assert_eq!(e.message(), "[Error] Adding a duplicate command hi.");

    bot.dispatch(friend_message(vec![source(1), plain("/hi")]))
        .unwrap();
    assert_eq!(*log.borrow(), vec!["first".to_string()]);
}

#[test]
fn generic_command_listener_catches_only_unregistered() {
    let log: Log = Rc::new(RefCell::new(vec![]));
    let mut bot = new_bot();
    bot.command("hi", TestHandler::Mark(log.clone(), "named".to_string()))
        .unwrap();
    bot.on("command", TestHandler::Mark(log.clone(), "generic".to_string()))
        .unwrap();

    bot.dispatch(friend_message(vec![source(1), plain("/hi")]))
        .unwrap();
    assert_eq!(*log.borrow(), vec!["named".to_string()]);

    log.borrow_mut().clear();
    bot.dispatch(friend_message(vec![source(2), plain("/yo")]))
        .unwrap();
    assert_eq!(*log.borrow(), vec!["generic".to_string()]);
}

#[test]
fn generic_command_listener_ignores_nameless_command() {
    let log: Log = Rc::new(RefCell::new(vec![]));
    let mut bot = new_bot();
    bot.on("command", TestHandler::Mark(log.clone(), "generic".to_string()))
        .unwrap();
    bot.dispatch(friend_message(vec![source(1), plain("/")]))
        .unwrap();
    assert!(log.borrow().is_empty());
}

#[test]
fn message_listeners_never_see_commands() {
    let log: Log = Rc::new(RefCell::new(vec![]));
    let mut bot = new_bot();
    bot.on("message", TestHandler::Mark(log.clone(), "any".to_string()))
        .unwrap();
    bot.on("friendMessage", TestHandler::Mark(log.clone(), "friend".to_string()))
        .unwrap();
    bot.on("groupMessage", TestHandler::Mark(log.clone(), "group".to_string()))
        .unwrap();

    bot.dispatch(friend_message(vec![source(1), plain("/echo hi")]))
        .unwrap();
    assert!(log.borrow().is_empty());

    bot.dispatch(friend_message(vec![source(2), plain("hello")]))
        .unwrap();
    assert_eq!(*log.borrow(), vec!["any".to_string(), "friend".to_string()]);
}

#[test]
fn friend_echo_end_to_end_sends_exactly_once() {
    let mut bot = new_bot();
    bot.on("friendMessage", TestHandler::Echo).unwrap();
    let (sends, errors) = bot
        .dispatch(friend_message(vec![source(7), plain("hello")]))
        .unwrap();
    assert!(errors.is_empty());
    assert_eq!(sends.len(), 1);
    assert_eq!(sends[0].chatroom_type, ChatroomType::Friend);
    assert_eq!(sends[0].target, 42);
    assert_eq!(sends[0].message_chain, vec![plain("hello")]);
    assert_eq!(sends[0].quote, None);
}

#[test]
fn failing_handler_does_not_stop_later_listeners() {
    let mut bot = new_bot();
    bot.on("message", TestHandler::Fail).unwrap();
    bot.on("friendMessage", TestHandler::Echo).unwrap();
    let (sends, errors) = bot
        .dispatch(friend_message(vec![source(7), plain("hello")]))
        .unwrap();
    assert_eq!(errors.len(), 1);
    assert_eq!(errors[0].message(), "handler failed");
    assert_eq!(sends.len(), 1);
}

#[test]
fn dispatch_rejects_malformed_message() {
    let bot = new_bot();
    let e = bot
        .dispatch(friend_message(vec![plain("no source")]))
        .err()
        .unwrap();
    assert_eq!(
        e.message(),
        "[Error] Receiving error message type when creating context."
    );
}

#[test]
fn matcher_is_pure_across_repeated_matching() {
    let mut bot = new_bot();
    bot.on("message", TestHandler::Echo).unwrap();
    bot.command("hi", TestHandler::Echo).unwrap();
    bot.on("command", TestHandler::Echo).unwrap();
    let ctx = Context::new(BOT_QQ, friend_sender(), vec![source(1), plain("/hi there")]).unwrap();
    let first = bot.matching_listeners(&ctx);
    let second = bot.matching_listeners(&ctx);
    assert_eq!(first, second);
    assert_eq!(first, vec![1]);
}

#[test]
fn dispatching_same_context_twice_gives_identical_effects() {
    let log: Log = Rc::new(RefCell::new(vec![]));
    let mut bot = new_bot();
    bot.command("hi", TestHandler::Mark(log.clone(), "named".to_string()))
        .unwrap();
    bot.on("command", TestHandler::Mark(log.clone(), "generic".to_string()))
        .unwrap();
    let chain = vec![source(1), plain("/hi")];
    bot.dispatch(friend_message(chain.clone())).unwrap();
    bot.dispatch(friend_message(chain)).unwrap();
    assert_eq!(*log.borrow(), vec!["named".to_string(), "named".to_string()]);
}

#[test]
fn send_message_describes_request() {
    let bot = new_bot();
    let req = bot.send_message(
        ChatroomType::Friend,
        2000,
        vec![plain("Hello master, your bot start successfully!")],
        None,
    );
    assert_eq!(req.chatroom_type, ChatroomType::Friend);
    assert_eq!(req.target, 2000);
    assert_eq!(
        req.message_chain,
        vec![plain("Hello master, your bot start successfully!")]
    );
    assert_eq!(req.quote, None);
}

#[test]
fn fetch_error_yields_empty_batch() {
    let ok = batch_of_fetch(Ok(vec![friend_message(vec![source(1), plain("a")])]));
    assert_eq!(ok.len(), 1);
    let empty = batch_of_fetch(Err(Error::new("fetch failed".to_string())));
    assert!(empty.is_empty());
}
