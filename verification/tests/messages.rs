use wood::event_listener::EventType;
use wood::message::{
    clone_chain, create_plain_message, create_plain_message_chain, FriendSender, Group,
    GroupSender, Permission, Sender, SingleMessage,
};
use wood::{ChatroomType, Error};

#[test]
fn plain_message_builders() {
    let m = create_plain_message("test".to_string());
    assert_eq!(
        m,
        SingleMessage::Plain {
            text: "test".to_string()
        }
    );
    let chain = create_plain_message_chain("test".to_string());
    assert_eq!(
        chain,
        vec![SingleMessage::Plain {
            text: "test".to_string()
        }]
    );
}

#[test]
fn chain_clone_is_deep_and_equal() {
    let chain = vec![
        SingleMessage::Source {
            id: 20211113,
            time: 20211113,
        },
        SingleMessage::At {
            target: 20211113,
            display: "member".to_string(),
        },
        SingleMessage::Plain {
            text: "test".to_string(),
        },
        SingleMessage::Image {
            image_id: Some("img-1".to_string()),
            url: None,
            path: None,
            base64: None,
        },
    ];
    let copy = clone_chain(&chain);
    assert_eq!(copy, chain);
}

#[test]
fn friend_sender_capabilities() {
    let s = FriendSender {
        id: 20211113,
        nickname: "Thungghuan".to_string(),
        remark: "Thungghuan".to_string(),
    };
    assert_eq!(s.chatroom_type(), ChatroomType::Friend);
    assert_eq!(s.chatroom_id(), 20211113);
    assert_eq!(s.chatroom_name(), "");
    assert_eq!(s.sender_id(), 20211113);
    assert_eq!(s.sender_nickname(), "Thungghuan");
}

#[test]
fn group_sender_capabilities() {
    let s = GroupSender {
        id: 20211113,
        member_name: "Thungghuan".to_string(),
        permission: Permission::OWNER,
        group: Group {
            id: 555,
            name: "room".to_string(),
            permission: Permission::ADMINISTRATOR,
        },
    };
    assert_eq!(s.chatroom_type(), ChatroomType::Group);
    assert_eq!(s.chatroom_id(), 555);
    assert_eq!(s.chatroom_name(), "room");
    assert_eq!(s.sender_id(), 20211113);
    assert_eq!(s.sender_nickname(), "Thungghuan");
}

#[test]
fn error_carries_its_message() {
    let e = Error::new("something broke".to_string());
    assert_eq!(e.message(), "something broke");
}

#[test]
fn event_type_parse_recognizes_all_names() {
    assert!(matches!(EventType::parse("message"), EventType::Message));
    assert!(matches!(
        EventType::parse("friendMessage"),
        EventType::FriendMessage
    ));
    assert!(matches!(
        EventType::parse("groupMessage"),
        EventType::GroupMessage
    ));
    assert!(matches!(EventType::parse("command"), EventType::Command));
    match EventType::parse("somethingElse") {
        EventType::Invalid(e) => assert_eq!(
            e.message(),
            "Invalid message type: received `somethingElse`, expected `message`, `friendMessage` or `groupMessage`."
        ),
        _ => panic!("an unrecognized name must parse to the invalid sentinel"),
    }
}
