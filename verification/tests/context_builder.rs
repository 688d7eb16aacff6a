use wood::message::{FriendSender, Group, GroupSender, Permission, SingleMessage};
use wood::{ChatroomType, Context};

const BOT_QQ: i64 = 1000;

fn friend_sender() -> FriendSender {
    FriendSender {
        id: 42,
        nickname: "alice".to_string(),
        remark: "alice".to_string(),
    }
}

fn group_sender() -> GroupSender {
    GroupSender {
        id: 42,
        member_name: "alice".to_string(),
        permission: Permission::MEMBER,
        group: Group {
            id: 900,
            name: "room".to_string(),
            permission: Permission::MEMBER,
        },
    }
}

fn source(id: i64) -> SingleMessage {
    SingleMessage::Source { id, time: 20211113 }
}

fn plain(text: &str) -> SingleMessage {
    SingleMessage::Plain {
        text: text.to_string(),
    }
}

fn at(target: i64) -> SingleMessage {
    SingleMessage::At {
        target,
        display: "@someone".to_string(),
    }
}

#[test]
fn malformed_chain_is_rejected() {
    let r = Context::new(BOT_QQ, friend_sender(), vec![plain("hello")]);
    let e = r.err().expect("a chain without a leading Source must be rejected");
    assert_eq!(
        e.message(),
        "[Error] Receiving error message type when creating context."
    );
}

#[test]
fn empty_chain_is_rejected() {
    let r = Context::new(BOT_QQ, friend_sender(), vec![]);
    assert!(r.is_err());
}

#[test]
fn malformed_chain_with_at_first_is_rejected() {
    let r = Context::new(BOT_QQ, group_sender(), vec![at(BOT_QQ), source(1), plain("hi")]);
    assert!(r.is_err());
}

#[test]
fn friend_echo_command_is_parsed() {
    let chain = vec![source(7), plain("/echo hi")];
    let ctx = Context::new(BOT_QQ, friend_sender(), chain).unwrap();
    assert!(ctx.is_command());
    assert_eq!(ctx.command_name(), "echo");
    let content = ctx.message_chain();
    assert_eq!(content[0], plain("hi"));
}

#[test]
fn group_mention_then_command_is_parsed() {
    let chain = vec![source(9), at(BOT_QQ), plain("/ping")];
    let ctx = Context::new(BOT_QQ, group_sender(), chain).unwrap();
    assert!(ctx.is_at_me());
    assert!(ctx.is_command());
    assert_eq!(ctx.command_name(), "ping");
    let content = ctx.message_chain();
    for segment in &content {
        assert!(!matches!(segment, SingleMessage::At { .. }));
    }
    assert_eq!(content, vec![plain("")]);
}

#[test]
fn group_mention_of_other_is_not_at_me() {
    let chain = vec![source(9), at(BOT_QQ + 1), plain("/ping")];
    let ctx = Context::new(BOT_QQ, group_sender(), chain).unwrap();
    assert!(!ctx.is_at_me());
    assert!(!ctx.is_command());
    assert_eq!(ctx.command_name(), "");
}

#[test]
fn group_command_without_mention_is_plain_content() {
    let chain = vec![source(9), plain("/ping")];
    let ctx = Context::new(BOT_QQ, group_sender(), chain).unwrap();
    assert!(!ctx.is_at_me());
    assert!(!ctx.is_command());
    assert_eq!(ctx.message_chain(), vec![plain("/ping")]);
}

#[test]
fn group_mention_without_command_keeps_content() {
    let chain = vec![source(9), at(BOT_QQ), plain("hello")];
    let ctx = Context::new(BOT_QQ, group_sender(), chain).unwrap();
    assert!(ctx.is_at_me());
    assert!(!ctx.is_command());
    assert_eq!(ctx.message_chain(), vec![plain("hello")]);
}

#[test]
fn friend_plain_message_keeps_chain() {
    let chain = vec![source(7), plain("hello")];
    let ctx = Context::new(BOT_QQ, friend_sender(), chain).unwrap();
    assert!(!ctx.is_command());
    assert!(!ctx.is_at_me());
    assert_eq!(ctx.command_name(), "");
    assert_eq!(ctx.message_chain(), vec![plain("hello")]);
    assert_eq!(ctx.chatroom_type(), ChatroomType::Friend);
    assert_eq!(ctx.chatroom_id(), 42);
    assert_eq!(ctx.sender_id(), 42);
    assert_eq!(ctx.sender_nickname(), "alice");
    assert_eq!(ctx.chatroom_name(), "");
    assert_eq!(ctx.message_id(), 7);
}

#[test]
fn group_context_fields_come_from_group() {
    let chain = vec![source(5), plain("hey")];
    let ctx = Context::new(BOT_QQ, group_sender(), chain).unwrap();
    assert_eq!(ctx.chatroom_type(), ChatroomType::Group);
    assert_eq!(ctx.chatroom_id(), 900);
    assert_eq!(ctx.chatroom_name(), "room");
    assert_eq!(ctx.sender_id(), 42);
    assert_eq!(ctx.sender_nickname(), "alice");
}

#[test]
fn bare_prefix_has_empty_command_name() {
    let chain = vec![source(7), plain("/")];
    let ctx = Context::new(BOT_QQ, friend_sender(), chain).unwrap();
    assert!(ctx.is_command());
    assert_eq!(ctx.command_name(), "");
    assert_eq!(ctx.message_chain(), vec![plain("")]);
}

#[test]
fn detached_prefix_has_empty_command_name() {
    let chain = vec![source(7), plain("/ foo")];
    let ctx = Context::new(BOT_QQ, friend_sender(), chain).unwrap();
    assert!(ctx.is_command());
    assert_eq!(ctx.command_name(), "");
    assert_eq!(ctx.message_chain(), vec![plain("")]);
}

#[test]
fn command_arguments_are_rejoined_with_single_spaces() {
    let chain = vec![source(7), plain("  /run  a   b c  ")];
    let ctx = Context::new(BOT_QQ, friend_sender(), chain).unwrap();
    assert!(ctx.is_command());
    assert_eq!(ctx.command_name(), "run");
    assert_eq!(ctx.message_chain(), vec![plain("a b c")]);
}

#[test]
fn command_keeps_trailing_segments() {
    let chain = vec![
        source(7),
        plain("/face now"),
        SingleMessage::Face {
            face_id: 3,
            name: "smile".to_string(),
        },
    ];
    let ctx = Context::new(BOT_QQ, friend_sender(), chain).unwrap();
    assert_eq!(ctx.command_name(), "face");
    assert_eq!(
        ctx.message_chain(),
        vec![
            plain("now"),
            SingleMessage::Face {
                face_id: 3,
                name: "smile".to_string(),
            },
        ]
    );
}

#[test]
fn non_plain_head_is_not_a_command() {
    let chain = vec![source(7), at(77), plain("/echo hi")];
    let ctx = Context::new(BOT_QQ, friend_sender(), chain).unwrap();
    assert!(!ctx.is_command());
    assert_eq!(ctx.message_chain(), vec![at(77), plain("/echo hi")]);
}

#[test]
fn is_at_message_sees_leading_mention_of_other() {
    let chain = vec![source(9), at(BOT_QQ + 1), plain("hi")];
    let ctx = Context::new(BOT_QQ, group_sender(), chain).unwrap();
    assert!(ctx.is_at_message());
    let friend_chain = vec![source(9), plain("hi")];
    let fctx = Context::new(BOT_QQ, friend_sender(), friend_chain).unwrap();
    assert!(!fctx.is_at_message());
}

#[test]
fn reply_targets_originating_chatroom_without_quote() {
    let chain = vec![source(7), plain("hello")];
    let ctx = Context::new(BOT_QQ, friend_sender(), chain).unwrap();
    let req = ctx.reply(vec![plain("hello back")]);
    assert_eq!(req.chatroom_type, ChatroomType::Friend);
    assert_eq!(req.target, 42);
    assert_eq!(req.message_chain, vec![plain("hello back")]);
    assert_eq!(req.quote, None);
}

#[test]
fn quote_reply_quotes_original_message_id() {
    let chain = vec![source(7), plain("hello")];
    let ctx = Context::new(BOT_QQ, group_sender(), chain).unwrap();
    let req = ctx.quote_reply(vec![plain("quoting")]);
    assert_eq!(req.chatroom_type, ChatroomType::Group);
    assert_eq!(req.target, 900);
    assert_eq!(req.quote, Some(7));
}

#[test]
fn context_clone_is_deep_and_equal() {
    let chain = vec![source(7), plain("/echo hi there")];
    let ctx = Context::new(BOT_QQ, friend_sender(), chain).unwrap();
    let copy = ctx.clone();
    assert_eq!(copy.is_command(), ctx.is_command());
    assert_eq!(copy.command_name(), ctx.command_name());
    assert_eq!(copy.message_chain(), ctx.message_chain());
    assert_eq!(copy.message_id(), ctx.message_id());
    assert_eq!(copy.sender_nickname(), ctx.sender_nickname());
}
