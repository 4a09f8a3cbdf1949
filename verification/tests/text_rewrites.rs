use walle::builtin::mention_user;
use walle::builtin::strip_command;
use walle::builtin::strip_prefix;
use walle::builtin::to_me;
use walle::builtin::trim;
use walle::MatchersConfig;
use walle::MsgSegment;
use walle::Session;
use walle::Signal;

fn chars(s: &str) -> Vec<char> {
    s.chars().collect()
}

fn message_session(text: &str) -> Session {
    let event = walle::Event {
        id: chars("e1"),
        time: 0,
        ty: chars("message"),
        detail_type: chars("group"),
        sub_type: chars(""),
        extra: walle::EventExtra {
            user_id: Some(chars("u1")),
            group_id: Some(chars("g1")),
            guild_id: None,
            channel_id: None,
            self_id: Some(chars("bot-id")),
            message: Some(vec![MsgSegment::Text { text: chars(text) }]),
            alt_message: Some(chars(text)),
        },
    };
    Session::new(event, MatchersConfig { nicknames: vec![chars("walle")] })
}

fn first_text(session: &Session) -> String {
    match &session.event.extra.message {
        Some(m) => {
            for seg in m {
                if let MsgSegment::Text { text } = seg {
                    return text.iter().collect();
                }
            }
            String::new()
        },
        None => String::new(),
    }
}

fn segment_count(session: &Session) -> usize {
    match &session.event.extra.message {
        Some(m) => m.len(),
        None => 0,
    }
}

#[test]
fn command_strip_once_then_miss() {
    let mut s = message_session("./recall hello");
    let sig = strip_command(chars("./recall")).pre_handle(&mut s);
    assert_eq!(sig, Signal::Matched);
    assert_eq!(first_text(&s), "hello");
    let again = strip_command(chars("./recall")).pre_handle(&mut s);
    assert_eq!(again, Signal::NotMatch);
    assert_eq!(first_text(&s), "hello");
}

#[test]
fn trim_reports_what_it_trimmed() {
    let mut s = message_session(" hi ");
    let sig = trim(false).pre_handle(&mut s);
    assert_eq!(sig, Signal::Matched);
    assert_eq!(first_text(&s), "hi");

    let mut t = message_session("hi");
    let sig2 = trim(false).pre_handle(&mut t);
    assert_eq!(sig2, Signal::NotMatch);
    assert_eq!(first_text(&t), "hi");
}

#[test]
fn trim_always_match_still_trims() {
    let mut s = message_session("hi");
    assert_eq!(trim(true).pre_handle(&mut s), Signal::Matched);
    assert_eq!(first_text(&s), "hi");

    let mut t = message_session("\thi\n");
    assert_eq!(trim(false).pre_handle(&mut t), Signal::Matched);
    assert_eq!(first_text(&t), "hi");
}

#[test]
fn plain_strip_keeps_the_rest_untrimmed() {
    let mut s = message_session("echo hi");
    let sig = strip_prefix(chars("echo")).pre_handle(&mut s);
    assert_eq!(sig, Signal::Matched);
    assert_eq!(first_text(&s), " hi");
}

#[test]
fn mention_removal_is_observed() {
    let event = walle::Event {
        id: chars("e2"),
        time: 0,
        ty: chars("message"),
        detail_type: chars("group"),
        sub_type: chars(""),
        extra: walle::EventExtra {
            user_id: Some(chars("u1")),
            group_id: Some(chars("g1")),
            guild_id: None,
            channel_id: None,
            self_id: Some(chars("bot-id")),
            message: Some(vec![
                MsgSegment::Mention { user_id: chars("u9") },
                MsgSegment::Text { text: chars("hello") },
            ]),
            alt_message: Some(chars("@u9 hello")),
        },
    };
    let mut s = Session::new(event, MatchersConfig { nicknames: vec![] });
    assert_eq!(segment_count(&s), 2);
    let sig = mention_user(chars("u9")).pre_handle(&mut s);
    assert_eq!(sig, Signal::Matched);
    assert_eq!(segment_count(&s), 1);
    let again = mention_user(chars("u9")).pre_handle(&mut s);
    assert_eq!(again, Signal::NotMatch);
}

#[test]
fn nickname_prefix_is_stripped_by_to_me() {
    let mut s = message_session("walle hello");
    let sig = to_me().pre_handle(&mut s);
    assert_eq!(sig, Signal::Matched);
    assert_eq!(first_text(&s), " hello");
}

#[test]
fn to_me_accepts_private_chat() {
    let event = walle::Event {
        id: chars("e3"),
        time: 0,
        ty: chars("message"),
        detail_type: chars("private"),
        sub_type: chars(""),
        extra: walle::EventExtra {
            user_id: Some(chars("u1")),
            group_id: None,
            guild_id: None,
            channel_id: None,
            self_id: Some(chars("bot-id")),
            message: Some(vec![MsgSegment::Text { text: chars("hello") }]),
            alt_message: Some(chars("hello")),
        },
    };
    let mut s = Session::new(event, MatchersConfig { nicknames: vec![] });
    assert_eq!(to_me().pre_handle(&mut s), Signal::Matched);
    assert_eq!(first_text(&s), "hello");
}
