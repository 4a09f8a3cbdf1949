use walle::Action;
use walle::MatchersConfig;
use walle::MsgSegment;
use walle::Session;
use walle::SessionError;
use walle::TempMatchers;

fn chars(s: &str) -> Vec<char> {
    s.chars().collect()
}

fn bare_event() -> walle::Event {
    walle::Event {
        id: chars("e0"),
        time: 0,
        ty: chars("message"),
        detail_type: chars(""),
        sub_type: chars(""),
        extra: walle::EventExtra {
            user_id: None,
            group_id: None,
            guild_id: None,
            channel_id: None,
            self_id: None,
            message: Some(vec![MsgSegment::Text { text: chars("hi") }]),
            alt_message: Some(chars("hi")),
        },
    }
}

fn private_event(user: &str) -> walle::Event {
    let mut e = bare_event();
    e.detail_type = chars("private");
    e.extra.user_id = Some(chars(user));
    e
}

fn channel_event(guild: &str, channel: &str, user: &str) -> walle::Event {
    let mut e = bare_event();
    e.detail_type = chars("channel");
    e.extra.guild_id = Some(chars(guild));
    e.extra.channel_id = Some(chars(channel));
    e.extra.user_id = Some(chars(user));
    e
}

fn no_nicknames() -> MatchersConfig {
    MatchersConfig { nicknames: vec![] }
}

fn prompt() -> Vec<MsgSegment> {
    vec![MsgSegment::Text { text: chars("question?") }]
}

#[test]
fn unreplyable_session_fails_at_once() {
    let session = Session::new(bare_event(), no_nicknames());
    match session.reply(prompt()) {
        Err(SessionError::Unreplyable) => {},
        _ => panic!("an event without identity fields cannot be replied to"),
    }
    let mut temps = TempMatchers::new();
    match session.getter(30).get(&session, &mut temps, prompt()) {
        Err(SessionError::Unreplyable) => {},
        _ => panic!("a wait cannot be registered without a reply scope"),
    }
    assert_eq!(temps.entries.len(), 0, "no side effect was attempted");
}

#[test]
fn timeout_cleans_up_the_pending_wait() {
    let session = Session::new(private_event("u1"), no_nicknames());
    let mut temps = TempMatchers::new();
    let (pending, _action) = session
        .getter(1)
        .get(&session, &mut temps, prompt())
        .expect("a private event is replyable");
    assert_eq!(pending.timeout, 1);
    assert!(temps.contains_key(&pending.key));

    let key = pending.key.clone();
    let err = pending.on_timeout(&mut temps);
    assert_eq!(err, SessionError::Timeout);
    assert!(!temps.contains_key(&key));
    assert_eq!(temps.entries.len(), 0);
}

#[test]
fn reply_targets_the_event_scope() {
    let session = Session::new(private_event("u7"), no_nicknames());
    match session.reply(prompt()) {
        Ok(Action::SendMessage(a)) => {
            assert_eq!(a.detail_type, chars("private"));
            assert_eq!(a.user_id, Some(chars("u7")));
            assert_eq!(a.group_id, None);
        },
        _ => panic!("a private event is replied to privately"),
    }

    let mut group = private_event("u7");
    group.detail_type = chars("group");
    group.extra.group_id = Some(chars("g3"));
    let gsession = Session::new(group, no_nicknames());
    match gsession.reply(prompt()) {
        Ok(Action::SendMessage(a)) => {
            assert_eq!(a.detail_type, chars("group"));
            assert_eq!(a.group_id, Some(chars("g3")));
            assert_eq!(a.user_id, None);
        },
        _ => panic!("a group event is replied to in the group"),
    }

    let csession = Session::new(channel_event("gu", "ch", "u7"), no_nicknames());
    match csession.reply(prompt()) {
        Ok(Action::SendMessage(a)) => {
            assert_eq!(a.detail_type, chars("channel"));
            assert_eq!(a.guild_id, Some(chars("gu")));
            assert_eq!(a.channel_id, Some(chars("ch")));
        },
        _ => panic!("a channel event is replied to in the channel"),
    }
}

#[test]
fn second_wait_under_the_same_key_is_refused() {
    let session = Session::new(private_event("u1"), no_nicknames());
    let mut temps = TempMatchers::new();
    session
        .getter(30)
        .get(&session, &mut temps, prompt())
        .expect("the first wait registers");
    match session.getter(30).get(&session, &mut temps, prompt()) {
        Err(SessionError::KeyOccupied) => {},
        _ => panic!("a second wait under the same key must not clobber the first"),
    }
    assert_eq!(temps.entries.len(), 1);
}

#[test]
fn correlation_keys_follow_the_scope() {
    let session = Session::new(private_event("u1"), no_nicknames());
    let mut temps = TempMatchers::new();
    let (pending, _) = session.getter(30).get(&session, &mut temps, prompt()).unwrap();
    assert_eq!(pending.key, chars("p:u1"));

    let csession = Session::new(channel_event("gu", "ch", "u1"), no_nicknames());
    let mut ctemps = TempMatchers::new();
    let (cpending, _) = csession.getter(30).get(&csession, &mut ctemps, prompt()).unwrap();
    assert_eq!(cpending.key, chars("c:gu:ch"));

    let mut c2 = TempMatchers::new();
    let (cpending2, _) = csession
        .getter(30)
        .this_user_only()
        .get(&csession, &mut c2, prompt())
        .unwrap();
    assert_eq!(cpending2.key, chars("c:gu:ch:u1"));
}

#[test]
fn complete_adopts_the_reply_event() {
    let mut session = Session::new(private_event("u1"), no_nicknames());
    let mut temps = TempMatchers::new();
    let (pending, _) = session
        .getter(30)
        .get(&session, &mut temps, prompt())
        .expect("a private event is replyable");

    let mut reply = private_event("u1");
    reply.id = chars("e-reply");
    reply.extra.message = Some(vec![MsgSegment::Text { text: chars("the answer") }]);
    pending.complete(&mut session, reply);
    assert_eq!(session.event.id, chars("e-reply"));
}
