use walle::builtin::channel_id_check;
use walle::builtin::group_id_check;
use walle::builtin::mention_me_rule;
use walle::builtin::start_with;
use walle::builtin::to_me_rule;
use walle::builtin::user_id_check;
use walle::MatchersConfig;
use walle::MsgSegment;
use walle::Session;
use walle::Signal;

fn chars(s: &str) -> Vec<char> {
    s.chars().collect()
}

fn event_with(user: Option<&str>, group: Option<&str>, alt: &str) -> walle::Event {
    walle::Event {
        id: chars("e1"),
        time: 0,
        ty: chars("message"),
        detail_type: chars(if group.is_some() { "group" } else { "private" }),
        sub_type: chars(""),
        extra: walle::EventExtra {
            user_id: user.map(chars),
            group_id: group.map(chars),
            guild_id: None,
            channel_id: None,
            self_id: Some(chars("bot-id")),
            message: Some(vec![MsgSegment::Text { text: chars(alt) }]),
            alt_message: Some(chars(alt)),
        },
    }
}

fn session_with(user: Option<&str>, group: Option<&str>, alt: &str) -> Session {
    Session::new(event_with(user, group, alt), MatchersConfig { nicknames: vec![chars("walle")] })
}

#[test]
fn identity_rules_compare_exactly() {
    let s = session_with(Some("u1"), Some("g1"), "hi");
    assert_eq!(user_id_check(chars("u1")).rule(&s), Signal::Matched);
    assert_eq!(user_id_check(chars("u2")).rule(&s), Signal::NotMatch);
    assert_eq!(group_id_check(chars("g1")).rule(&s), Signal::Matched);
    assert_eq!(group_id_check(chars("g2")).rule(&s), Signal::NotMatch);
    assert_eq!(channel_id_check(chars("gu"), chars("ch")).rule(&s), Signal::NotMatch);
}

#[test]
fn joined_rules_require_both_sides() {
    let s = session_with(Some("u1"), Some("g1"), "hi");
    let both = user_id_check(chars("u1")).with(group_id_check(chars("g1")));
    assert_eq!(both.rule(&s), Signal::Matched);
    let half = user_id_check(chars("u1")).with(group_id_check(chars("g2")));
    assert_eq!(half.rule(&s), Signal::NotMatch);
}

#[test]
fn start_with_reads_the_plain_text() {
    let s = session_with(Some("u1"), None, "roll the dice");
    assert_eq!(start_with(chars("roll")).rule(&s), Signal::Matched);
    assert_eq!(start_with(chars("dice")).rule(&s), Signal::NotMatch);
}

#[test]
fn mention_me_rule_sees_nicknames_and_mentions() {
    let s = session_with(Some("u1"), Some("g1"), "walle hello");
    assert_eq!(mention_me_rule().rule(&s), Signal::Matched);

    let plain = session_with(Some("u1"), Some("g1"), "hello");
    assert_eq!(mention_me_rule().rule(&plain), Signal::NotMatch);

    let mut mentioned = event_with(Some("u1"), Some("g1"), "hello");
    mentioned.extra.message = Some(vec![
        MsgSegment::Mention { user_id: chars("bot-id") },
        MsgSegment::Text { text: chars("hello") },
    ]);
    let ms = Session::new(mentioned, MatchersConfig { nicknames: vec![] });
    assert_eq!(mention_me_rule().rule(&ms), Signal::Matched);
}

#[test]
fn to_me_rule_accepts_private_chat() {
    let s = session_with(Some("u1"), None, "hello");
    assert_eq!(to_me_rule().rule(&s), Signal::Matched);
    let g = session_with(Some("u1"), Some("g1"), "hello");
    assert_eq!(to_me_rule().rule(&g), Signal::NotMatch);
}

#[test]
fn rules_never_rewrite_the_session() {
    let s = session_with(Some("u1"), Some("g1"), " padded ");
    let before: String = match &s.event.extra.message {
        Some(m) => match &m[0] {
            MsgSegment::Text { text } => text.iter().collect(),
            _ => String::new(),
        },
        None => String::new(),
    };
    to_me_rule().rule(&s);
    mention_me_rule().rule(&s);
    let after: String = match &s.event.extra.message {
        Some(m) => match &m[0] {
            MsgSegment::Text { text } => text.iter().collect(),
            _ => String::new(),
        },
        None => String::new(),
    };
    assert_eq!(before, after);
}
