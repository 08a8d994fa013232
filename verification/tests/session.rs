use yewchat::chat::{Bubble, Chat, Msg, Outcome};
use yewchat::protocol::{decode, ChatError, ChatMessage, Envelope};
use yewchat::roster::UserProfile;
use yewchat::text::is_blank;

fn url(name: &str) -> String {
    format!("https://avatars.dicebear.com/api/adventurer-neutral/{}.svg", name)
}

fn started(name: &str) -> Chat {
    Chat::create(name.to_string()).0
}

fn quiet() -> Outcome {
    Outcome { changed: false, outgoing: None, clear_input: false, diagnostic: None }
}

fn redraw() -> Outcome {
    Outcome { changed: true, outgoing: None, clear_input: false, diagnostic: None }
}

fn said(from: &str, body: &str) -> ChatMessage {
    ChatMessage { from: from.to_string(), body: body.to_string() }
}

fn frame_of(from: &str, body: &str) -> String {
    yewchat::protocol::encode(&Envelope::Message { from: from.to_string(), body: body.to_string() })
}

#[test]
fn a_session_starts_empty_and_registers() {
    let (chat, register) = Chat::create("amy".to_string());
    assert_eq!(chat.username(), "amy");
    assert!(chat.users().is_empty());
    assert!(chat.messages().is_empty());
    assert!(chat.sidebar_visible());
    assert_eq!(register, r#"{"data":"amy","dataArray":null,"messageType":"register"}"#);
    assert_eq!(decode(&register), Ok(Some(Envelope::Register { username: "amy".to_string() })));
}

#[test]
fn a_users_frame_replaces_the_roster() {
    let mut chat = started("me");
    let outcome = chat.on_incoming(r#"{"messageType":"users","dataArray":["amy","bo"]}"#);
    assert_eq!(outcome, redraw());
    assert_eq!(chat.users(), &vec![UserProfile::new("amy"), UserProfile::new("bo")]);
    assert_eq!(chat.users()[0].name(), "amy");
    assert_eq!(chat.users()[0].avatar(), &url("amy"));
    assert_eq!(chat.users()[1].name(), "bo");
    assert_eq!(chat.users()[1].avatar(), &url("bo"));
    assert!(chat.messages().is_empty());
}

#[test]
fn a_message_frame_adds_to_the_log() {
    let mut chat = started("me");
    let outcome = chat
        .on_incoming(r#"{"messageType":"message","data":"{\"from\":\"amy\",\"message\":\"hi\"}"}"#);
    assert_eq!(outcome, redraw());
    assert_eq!(chat.messages(), &vec![said("amy", "hi")]);
    assert!(chat.users().is_empty());
}

#[test]
fn an_unknown_kind_changes_nothing() {
    let mut chat = started("me");
    chat.on_incoming(r#"{"messageType":"users","dataArray":["amy"]}"#);
    chat.on_incoming(&frame_of("amy", "hi"));
    let outcome = chat.on_incoming(r#"{"messageType":"ping"}"#);
    assert_eq!(outcome, quiet());
    assert_eq!(chat.users(), &vec![UserProfile::new("amy")]);
    assert_eq!(chat.messages(), &vec![said("amy", "hi")]);
}

#[test]
fn text_that_is_no_json_is_dropped_with_a_diagnostic() {
    let mut chat = started("me");
    chat.on_incoming(r#"{"messageType":"users","dataArray":["amy"]}"#);
    chat.on_incoming(&frame_of("amy", "hi"));
    let outcome = chat.on_incoming("not json");
    assert_eq!(
        outcome,
        Outcome {
            changed: false,
            outgoing: None,
            clear_input: false,
            diagnostic: Some(ChatError::MalformedEnvelope),
        }
    );
    assert_eq!(chat.users(), &vec![UserProfile::new("amy")]);
    assert_eq!(chat.messages(), &vec![said("amy", "hi")]);
}

#[test]
fn a_malformed_payload_is_dropped_with_its_own_diagnostic() {
    let mut chat = started("me");
    let outcome = chat.on_incoming(r#"{"messageType":"message","data":"hello"}"#);
    assert_eq!(outcome.diagnostic, Some(ChatError::MalformedPayload));
    assert!(!outcome.changed);
    assert!(chat.messages().is_empty());
}

#[test]
fn a_register_frame_from_the_server_changes_nothing() {
    let mut chat = started("me");
    let outcome = chat.on_incoming(r#"{"messageType":"register","data":"amy"}"#);
    assert_eq!(outcome, quiet());
    assert!(chat.users().is_empty());
    assert!(chat.messages().is_empty());
}

#[test]
fn blank_input_sends_nothing() {
    let chat = started("me");
    assert_eq!(chat.submit_outgoing("  "), quiet());
    assert_eq!(chat.submit_outgoing(""), quiet());
    assert_eq!(chat.submit_outgoing(" \t\r\n\u{a0}\u{3000}"), quiet());
}

#[test]
fn input_is_sent_as_one_message() {
    let chat = started("me");
    let outcome = chat.submit_outgoing("hello");
    assert!(!outcome.changed);
    assert!(outcome.clear_input);
    assert_eq!(outcome.diagnostic, None);
    let text = outcome.outgoing.unwrap();
    assert_eq!(
        text,
        r#"{"data":"{\"from\":\"me\",\"message\":\"hello\"}","dataArray":null,"messageType":"message"}"#
    );
    assert_eq!(
        decode(&text),
        Ok(Some(Envelope::Message { from: "me".to_string(), body: "hello".to_string() }))
    );
    assert!(chat.messages().is_empty());
}

#[test]
fn input_is_sent_as_it_stands() {
    let chat = started("me");
    let text = chat.submit_outgoing("  hello \n").outgoing.unwrap();
    assert_eq!(
        decode(&text),
        Ok(Some(Envelope::Message { from: "me".to_string(), body: "  hello \n".to_string() }))
    );
}

#[test]
fn blank_is_white_space_only() {
    assert!(is_blank(""));
    assert!(is_blank(" "));
    assert!(is_blank("\t\n\u{b}\u{c}\r \u{85}\u{a0}\u{1680}\u{2000}\u{200a}\u{2028}\u{2029}\u{202f}\u{205f}\u{3000}"));
    assert!(!is_blank("a"));
    assert!(!is_blank("  a  "));
    assert!(!is_blank("\u{200b}"));
    assert!(!is_blank("\u{0}"));
    assert!(!is_blank(" \u{feff}"));
}

#[test]
fn the_same_users_twice_leave_the_roster_as_once() {
    let frame = r#"{"messageType":"users","dataArray":["amy","bo","amy"]}"#;
    let mut once = started("me");
    once.on_incoming(frame);
    let mut twice = started("me");
    twice.on_incoming(frame);
    twice.on_incoming(frame);
    assert_eq!(once.users(), twice.users());
    assert_eq!(twice.users().len(), 3);
}

#[test]
fn a_new_list_of_users_discards_the_old_one() {
    let mut chat = started("me");
    chat.on_incoming(r#"{"messageType":"users","dataArray":["amy","bo"]}"#);
    chat.on_incoming(r#"{"messageType":"users","dataArray":["cy"]}"#);
    assert_eq!(chat.users(), &vec![UserProfile::new("cy")]);
    chat.on_incoming(r#"{"messageType":"users","dataArray":[]}"#);
    assert!(chat.users().is_empty());
}

#[test]
fn the_log_only_grows() {
    let mut chat = started("me");
    let events = vec![
        Msg::HandleMsg(frame_of("amy", "one")),
        Msg::SubmitMessage("two".to_string()),
        Msg::HandleMsg("not json".to_string()),
        Msg::HandleMsg(r#"{"messageType":"users","dataArray":["amy"]}"#.to_string()),
        Msg::ToggleSidebar,
        Msg::HandleMsg(frame_of("bo", "three")),
        Msg::HandleMsg(r#"{"messageType":"ping"}"#.to_string()),
        Msg::SubmitMessage("   ".to_string()),
        Msg::HandleMsg(frame_of("amy", "four")),
    ];
    let mut before: Vec<ChatMessage> = Vec::new();
    for event in events {
        chat.update(event);
        let after = chat.messages().clone();
        assert!(after.len() >= before.len());
        assert_eq!(&after[..before.len()], &before[..]);
        before = after;
    }
    assert_eq!(before, vec![said("amy", "one"), said("bo", "three"), said("amy", "four")]);
}

#[test]
fn update_does_what_the_event_asks() {
    let mut chat = started("me");
    let outcome = chat.update(Msg::HandleMsg(frame_of("amy", "hi")));
    assert_eq!(outcome, redraw());
    let outcome = chat.update(Msg::SubmitMessage("hello".to_string()));
    assert_eq!(outcome, chat.submit_outgoing("hello"));
    assert!(outcome.outgoing.is_some());
    let outcome = chat.update(Msg::ToggleSidebar);
    assert_eq!(outcome, redraw());
    assert!(!chat.sidebar_visible());
    let outcome = chat.toggle_sidebar();
    assert_eq!(outcome, redraw());
    assert!(chat.sidebar_visible());
}

#[test]
fn a_failed_send_is_recorded_and_not_repeated() {
    let mut chat = started("me");
    chat.on_incoming(&frame_of("amy", "hi"));
    let outcome = chat.on_send_failure();
    assert_eq!(
        outcome,
        Outcome {
            changed: false,
            outgoing: None,
            clear_input: false,
            diagnostic: Some(ChatError::TransportSendFailure),
        }
    );
    assert_eq!(chat.messages(), &vec![said("amy", "hi")]);
}

#[test]
fn apply_takes_in_a_decoded_envelope() {
    let mut chat = started("me");
    assert!(chat.apply(Envelope::Users { usernames: vec!["amy".to_string()] }));
    assert!(chat.apply(Envelope::Message { from: "amy".to_string(), body: "hi".to_string() }));
    assert!(!chat.apply(Envelope::Register { username: "bo".to_string() }));
    assert_eq!(chat.users(), &vec![UserProfile::new("amy")]);
    assert_eq!(chat.messages(), &vec![said("amy", "hi")]);
}

#[test]
fn a_sender_off_the_roster_gets_the_profile_of_the_name() {
    let mut chat = started("me");
    chat.on_incoming(r#"{"messageType":"users","dataArray":["amy","bo"]}"#);
    let profile = chat.resolve_sender(&said("cy", "hi"));
    assert_eq!(profile.name(), "cy");
    assert_eq!(profile.avatar(), &url("cy"));
    let profile = started("me").resolve_sender(&said("amy", "hi"));
    assert_eq!(profile, UserProfile::new("amy"));
}

#[test]
fn a_sender_on_the_roster_gets_the_listed_profile() {
    let mut chat = started("me");
    chat.on_incoming(r#"{"messageType":"users","dataArray":["amy","bo","bo"]}"#);
    let profile = chat.resolve_sender(&said("bo", "hi"));
    assert_eq!(profile, chat.users()[1]);
    assert_eq!(profile.avatar(), &url("bo"));
    assert_eq!(chat.resolve_sender(&said("Bo", "hi")), UserProfile::new("Bo"));
}

#[test]
fn the_screen_shows_roster_and_log() {
    let mut chat = started("me");
    chat.on_incoming(r#"{"messageType":"users","dataArray":["amy","bo"]}"#);
    chat.on_incoming(&frame_of("amy", "hi"));
    chat.on_incoming(&frame_of("cy", "https://example.org/cat.gif"));
    chat.on_incoming(&frame_of("bo", ".gif and more"));
    chat.toggle_sidebar();
    let screen = chat.screen();
    assert!(!screen.sidebar_visible);
    assert_eq!(screen.users, vec![UserProfile::new("amy"), UserProfile::new("bo")]);
    assert_eq!(
        screen.bubbles,
        vec![
            Bubble { sender: UserProfile::new("amy"), body: "hi".to_string(), picture: false },
            Bubble {
                sender: UserProfile::new("cy"),
                body: "https://example.org/cat.gif".to_string(),
                picture: true,
            },
            Bubble {
                sender: UserProfile::new("bo"),
                body: ".gif and more".to_string(),
                picture: false,
            },
        ]
    );
}

#[test]
fn a_body_is_a_picture_only_if_it_ends_in_gif() {
    let mut chat = started("me");
    for body in [".gif", "a.gif", "a.GIF", "gif", "a.gif ", ""] {
        chat.on_incoming(&frame_of("amy", body));
    }
    let pictures: Vec<bool> = chat.screen().bubbles.iter().map(|bubble| bubble.picture).collect();
    assert_eq!(pictures, vec![true, true, false, false, false, false]);
}

#[test]
fn an_empty_session_shows_an_empty_screen() {
    let screen = started("me").screen();
    assert!(screen.sidebar_visible);
    assert!(screen.users.is_empty());
    assert!(screen.bubbles.is_empty());
}
