use yewchat::chat::{Applied, Chat, MessageLine, Msg, Roster, Update, UserProfile};
use yewchat::protocol::{encode, ChatMessage, DecodeError, Envelope, MsgTypes};

fn texts(items: &[&str]) -> Vec<String> {
    items.iter().map(|s| s.to_string()).collect()
}

fn users(names: &[&str]) -> Envelope {
    Envelope { message_type: MsgTypes::Users, data_array: Some(texts(names)), data: None }
}

fn message(data: Option<&str>) -> Envelope {
    Envelope {
        message_type: MsgTypes::Message,
        data_array: None,
        data: data.map(|d| d.to_string()),
    }
}

fn said(from: &str, text: &str) -> Envelope {
    let payload = format!(r#"{{"from":"{}","message":"{}"}}"#, from, text);
    message(Some(&payload))
}

fn profile(name: &str) -> UserProfile {
    UserProfile {
        name: name.to_string(),
        avatar: format!("https://avatars.dicebear.com/api/adventurer-neutral/{}.svg", name),
        online: true,
    }
}

fn line(from: &str, text: &str) -> ChatMessage {
    ChatMessage { from: from.to_string(), text: text.to_string() }
}

fn session(name: &str) -> Chat {
    Chat::create(name.to_string()).0
}

#[test]
fn create_starts_empty_and_registers_the_user() {
    let (chat, envelope) = Chat::create("alice".to_string());
    assert!(chat.users().is_empty());
    assert!(chat.messages().is_empty());
    assert_eq!(chat.username(), "alice");
    assert_eq!(
        envelope,
        Envelope {
            message_type: MsgTypes::Register,
            data_array: None,
            data: Some("alice".to_string()),
        }
    );
    assert_eq!(encode(&envelope), r#"{"data":"alice","dataArray":null,"messageType":"register"}"#);
}

#[test]
fn users_envelope_after_registration_gives_the_roster() {
    let (mut chat, _) = Chat::create("alice".to_string());
    assert_eq!(chat.apply_inbound(&users(&["alice", "bob"])), Applied::Roster);
    assert_eq!(chat.users(), &vec![profile("alice"), profile("bob")]);
    assert!(chat.users().iter().all(|u| u.online));
    assert!(chat.messages().is_empty());
    assert_eq!(chat.username(), "alice");
}

#[test]
fn roster_is_the_latest_list_and_nothing_else() {
    let mut chat = session("alice");
    chat.apply_inbound(&users(&["alice", "bob", "carol"]));
    chat.apply_inbound(&users(&["carol", "dave"]));
    assert_eq!(chat.users(), &vec![profile("carol"), profile("dave")]);
    chat.apply_inbound(&users(&["bob"]));
    assert_eq!(chat.users(), &vec![profile("bob")]);
    chat.apply_inbound(&users(&[]));
    assert!(chat.users().is_empty());
    chat.apply_inbound(&users(&["alice", "alice"]));
    assert_eq!(chat.users(), &vec![profile("alice"), profile("alice")]);
}

#[test]
fn roster_survives_other_envelopes() {
    let mut chat = session("alice");
    chat.apply_inbound(&users(&["alice", "bob"]));
    chat.apply_inbound(&said("bob", "hi"));
    chat.apply_inbound(&message(None));
    chat.apply_inbound(&Envelope {
        message_type: MsgTypes::Register,
        data_array: Some(texts(&["mallory"])),
        data: Some("mallory".to_string()),
    });
    assert_eq!(chat.users(), &vec![profile("alice"), profile("bob")]);
}

#[test]
fn users_envelope_without_a_list_empties_the_roster() {
    let mut chat = session("alice");
    chat.apply_inbound(&users(&["alice", "bob"]));
    let bare = Envelope { message_type: MsgTypes::Users, data_array: None, data: None };
    assert_eq!(chat.apply_inbound(&bare), Applied::Roster);
    assert!(chat.users().is_empty());
}

#[test]
fn roster_derives_each_profile_from_its_name() {
    let roster = Roster::of_names(&texts(&["alice", "bob"]));
    assert_eq!(roster.profiles(), &vec![profile("alice"), profile("bob")]);
    assert!(Roster::of_names(&vec![]).profiles().is_empty());
    assert!(Roster::empty().profiles().is_empty());
    let roster = Roster::of_names(&texts(&["z\u{fc}rich"]));
    let only = &roster.profiles()[0];
    assert_eq!(only.name, "z\u{fc}rich");
    assert_eq!(
        only.avatar,
        "https://avatars.dicebear.com/api/adventurer-neutral/z\u{fc}rich.svg"
    );
    assert!(only.online);
}

#[test]
fn roster_avatar_is_empty_for_a_name_it_does_not_hold() {
    let roster = Roster::of_names(&texts(&["alice", "bob"]));
    assert_eq!(
        roster.avatar("alice"),
        "https://avatars.dicebear.com/api/adventurer-neutral/alice.svg"
    );
    assert_eq!(roster.avatar("carol"), "");
    assert_eq!(Roster::empty().avatar("alice"), "");
}

#[test]
fn replace_roster_keeps_log_and_name() {
    let mut chat = session("alice");
    chat.append_message(line("bob", "hi"));
    chat.replace_roster(&texts(&["bob"]));
    assert_eq!(chat.users(), &vec![profile("bob")]);
    assert_eq!(chat.messages(), &vec![line("bob", "hi")]);
    assert_eq!(chat.username(), "alice");
}

#[test]
fn message_envelope_appends_what_its_payload_says() {
    let mut chat = session("alice");
    let envelope = message(Some("{\"from\":\"bob\",\"message\":\"hi\"}"));
    assert_eq!(chat.apply_inbound(&envelope), Applied::Line);
    assert_eq!(chat.messages(), &vec![line("bob", "hi")]);
    assert!(chat.users().is_empty());
}

#[test]
fn messages_arrive_in_order_and_duplicates_stay() {
    let mut chat = session("alice");
    let run = [("bob", "hi"), ("alice", "hello"), ("bob", "hi"), ("bob", "hi"), ("carol", "")];
    for (count, (from, text)) in run.iter().enumerate() {
        assert_eq!(chat.messages().len(), count);
        assert_eq!(chat.apply_inbound(&said(from, text)), Applied::Line);
        assert_eq!(chat.messages().len(), count + 1);
    }
    let expected: Vec<ChatMessage> = run.iter().map(|(from, text)| line(from, text)).collect();
    assert_eq!(chat.messages(), &expected);
}

#[test]
fn message_envelope_without_data_changes_nothing() {
    let mut chat = session("alice");
    chat.apply_inbound(&users(&["bob"]));
    chat.apply_inbound(&said("bob", "hi"));
    assert_eq!(chat.apply_inbound(&message(None)), Applied::Nothing);
    assert_eq!(chat.messages().len(), 1);
    assert_eq!(chat.messages(), &vec![line("bob", "hi")]);
    assert_eq!(chat.users(), &vec![profile("bob")]);
}

#[test]
fn message_envelope_with_a_malformed_payload_is_refused() {
    let mut chat = session("alice");
    chat.apply_inbound(&said("bob", "hi"));
    for data in ["hello", "", "{", "null", "[]", r#"{"from":"bob"}"#, r#"{"from":1,"message":2}"#] {
        assert_eq!(
            chat.apply_inbound(&message(Some(data))),
            Applied::Refused(DecodeError::MalformedPayload),
            "{:?}",
            data
        );
        assert_eq!(chat.messages(), &vec![line("bob", "hi")]);
    }
}

#[test]
fn register_envelope_changes_nothing() {
    let mut chat = session("alice");
    chat.apply_inbound(&users(&["bob"]));
    let register = Envelope {
        message_type: MsgTypes::Register,
        data_array: None,
        data: Some("carol".to_string()),
    };
    assert_eq!(chat.apply_inbound(&register), Applied::Nothing);
    assert_eq!(chat.users(), &vec![profile("bob")]);
    assert!(chat.messages().is_empty());
    assert_eq!(chat.username(), "alice");
}

#[test]
fn append_message_adds_at_the_end() {
    let mut chat = session("alice");
    chat.append_message(line("bob", "one"));
    chat.append_message(line("bob", "two"));
    chat.append_message(line("bob", "one"));
    assert_eq!(chat.messages(), &vec![line("bob", "one"), line("bob", "two"), line("bob", "one")]);
}

#[test]
fn submit_of_white_space_sends_nothing_and_changes_nothing() {
    let mut chat = session("alice");
    chat.apply_inbound(&users(&["alice"]));
    chat.apply_inbound(&said("bob", "hi"));
    assert_eq!(chat.submit_outgoing("   "), None);
    assert_eq!(chat.submit_outgoing(""), None);
    assert_eq!(chat.submit_outgoing("\t\n \u{a0}"), None);
    assert_eq!(chat.users(), &vec![profile("alice")]);
    assert_eq!(chat.messages(), &vec![line("bob", "hi")]);
    assert_eq!(chat.username(), "alice");
}

#[test]
fn submit_sends_the_text_as_it_was_typed() {
    let chat = session("alice");
    assert_eq!(chat.submit_outgoing("hello"), Some(message(Some("hello"))));
    assert_eq!(chat.submit_outgoing("  hello  "), Some(message(Some("  hello  "))));
    assert_eq!(chat.submit_outgoing("hello.GIF"), Some(message(Some("hello.GIF"))));
    assert_eq!(chat.submit_outgoing(" . "), Some(message(Some(" . "))));
}

#[test]
fn submit_does_not_echo_into_the_log() {
    let mut chat = session("alice");
    let update = chat.update(Msg::SubmitMessage("hello".to_string()));
    assert_eq!(
        update,
        Update {
            render: false,
            outbound: Some(message(Some("hello"))),
            clear_input: true,
            error: None,
        }
    );
    assert!(chat.messages().is_empty());
    let echo = r#"{"messageType":"message","data":"{\"from\":\"alice\",\"message\":\"hello\"}"}"#;
    let update = chat.update(Msg::HandleMsg(echo.to_string()));
    assert_eq!(update, Update { render: true, outbound: None, clear_input: false, error: None });
    assert_eq!(chat.messages(), &vec![line("alice", "hello")]);
}

#[test]
fn update_with_a_blank_submission_asks_for_nothing() {
    let mut chat = session("alice");
    let update = chat.update(Msg::SubmitMessage("   ".to_string()));
    assert_eq!(update, Update { render: false, outbound: None, clear_input: false, error: None });
    assert!(chat.messages().is_empty());
    assert!(chat.users().is_empty());
}

#[test]
fn update_applies_inbound_frames() {
    let mut chat = session("alice");
    let frame = r#"{"messageType":"users","dataArray":["alice","bob"]}"#;
    let update = chat.update(Msg::HandleMsg(frame.to_string()));
    assert_eq!(update, Update { render: true, outbound: None, clear_input: false, error: None });
    assert_eq!(chat.users(), &vec![profile("alice"), profile("bob")]);

    let frame = r#"{"messageType":"message","data":null}"#;
    let update = chat.update(Msg::HandleMsg(frame.to_string()));
    assert_eq!(update, Update { render: false, outbound: None, clear_input: false, error: None });

    let frame = r#"{"messageType":"register","data":"carol"}"#;
    let update = chat.update(Msg::HandleMsg(frame.to_string()));
    assert_eq!(update, Update { render: false, outbound: None, clear_input: false, error: None });
    assert_eq!(chat.users(), &vec![profile("alice"), profile("bob")]);
    assert!(chat.messages().is_empty());
}

#[test]
fn update_drops_a_malformed_frame_and_keeps_the_state() {
    let mut chat = session("alice");
    chat.apply_inbound(&users(&["bob"]));
    chat.apply_inbound(&said("bob", "hi"));
    for frame in ["", "not json", "[]", r#"{"messageType":"typing"}"#] {
        let update = chat.update(Msg::HandleMsg(frame.to_string()));
        assert_eq!(
            update,
            Update {
                render: false,
                outbound: None,
                clear_input: false,
                error: Some(DecodeError::MalformedEnvelope),
            }
        );
    }
    let frame = r#"{"messageType":"message","data":"not a payload"}"#;
    let update = chat.update(Msg::HandleMsg(frame.to_string()));
    assert_eq!(
        update,
        Update {
            render: false,
            outbound: None,
            clear_input: false,
            error: Some(DecodeError::MalformedPayload),
        }
    );
    assert_eq!(chat.users(), &vec![profile("bob")]);
    assert_eq!(chat.messages(), &vec![line("bob", "hi")]);
}

#[test]
fn avatar_is_that_of_the_first_profile_with_the_name() {
    let mut chat = session("alice");
    assert_eq!(chat.avatar("bob"), "");
    chat.apply_inbound(&users(&["alice", "bob", "bob"]));
    assert_eq!(chat.avatar("bob"), "https://avatars.dicebear.com/api/adventurer-neutral/bob.svg");
    assert_eq!(
        chat.avatar("alice"),
        "https://avatars.dicebear.com/api/adventurer-neutral/alice.svg"
    );
    assert_eq!(chat.avatar("carol"), "");
    assert_eq!(chat.avatar("Bob"), "");
    assert_eq!(chat.avatar(""), "");
}

#[test]
fn lines_show_sender_avatar_ownership_and_gifs() {
    let mut chat = session("alice");
    chat.apply_inbound(&users(&["alice", "bob"]));
    chat.apply_inbound(&said("bob", "hi"));
    chat.apply_inbound(&said("alice", "hello.GIF"));
    chat.apply_inbound(&said("carol", "https://example.org/cat.gif"));
    let avatar = |name: &str| {
        format!("https://avatars.dicebear.com/api/adventurer-neutral/{}.svg", name)
    };
    assert_eq!(
        chat.lines(),
        vec![
            MessageLine {
                from: "bob".to_string(),
                text: "hi".to_string(),
                avatar: avatar("bob"),
                own: false,
                gif: false,
            },
            MessageLine {
                from: "alice".to_string(),
                text: "hello.GIF".to_string(),
                avatar: avatar("alice"),
                own: true,
                gif: true,
            },
            MessageLine {
                from: "carol".to_string(),
                text: "https://example.org/cat.gif".to_string(),
                avatar: String::new(),
                own: false,
                gif: true,
            },
        ]
    );
}

#[test]
fn lines_follow_the_roster_of_the_moment() {
    let mut chat = session("alice");
    chat.apply_inbound(&said("bob", "hi"));
    assert_eq!(chat.lines()[0].avatar, "");
    chat.apply_inbound(&users(&["bob"]));
    assert_eq!(
        chat.lines()[0].avatar,
        "https://avatars.dicebear.com/api/adventurer-neutral/bob.svg"
    );
    chat.apply_inbound(&users(&["carol"]));
    assert_eq!(chat.lines()[0].avatar, "");
    assert!(session("alice").lines().is_empty());
}
