use walle::builtin::strip_prefix;
use walle::builtin::trim;
use walle::handle::matcher;
use walle::DispatchOutcome;
use walle::Matcher;
use walle::Matchers;
use walle::MatchersConfig;
use walle::MsgSegment;
use walle::PayloadKind;
use walle::Signal;

fn chars(s: &str) -> Vec<char> {
    s.chars().collect()
}

fn group_message(text: &str) -> walle::Event {
    walle::Event {
        id: chars("e1"),
        time: 0,
        ty: chars("message"),
        detail_type: chars("group"),
        sub_type: chars(""),
        extra: walle::EventExtra {
            user_id: Some(chars("u1")),
            group_id: Some(chars("g1")),
            guild_id: None,
            channel_id: None,
            self_id: None,
            message: Some(vec![MsgSegment::Text { text: chars(text) }]),
            alt_message: Some(chars(text)),
        },
    }
}

fn plain_matcher(name: &str, signal: Signal) -> Matcher {
    Matcher::new(chars(name), chars(""), matcher(PayloadKind::Any, signal))
}

#[test]
fn block_stops_the_scan() {
    let mut m = Matchers::new()
        .add_matcher(plain_matcher("first", Signal::Matched))
        .add_matcher(plain_matcher("second", Signal::MatchAndBlock))
        .add_matcher(plain_matcher("third", Signal::Matched));
    match m.call(&group_message("hi")) {
        DispatchOutcome::Scanned { firings, blocked } => {
            assert_eq!(blocked, Some(1));
            assert_eq!(firings.len(), 2);
            assert_eq!(firings[0].index, 0);
            assert_eq!(firings[0].signal, Signal::Matched);
            assert_eq!(firings[1].index, 1);
            assert_eq!(firings[1].signal, Signal::MatchAndBlock);
        },
        _ => panic!("expected a permanent scan"),
    }
}

#[test]
fn misses_are_skipped_and_scan_runs_out() {
    let mut m = Matchers::new()
        .add_matcher(Matcher::new(
            chars("private-only"),
            chars(""),
            matcher(PayloadKind::PrivateMessage, Signal::Matched),
        ))
        .add_matcher(plain_matcher("any", Signal::Matched));
    match m.call(&group_message("hi")) {
        DispatchOutcome::Scanned { firings, blocked } => {
            assert_eq!(blocked, None);
            assert_eq!(firings.len(), 1);
            assert_eq!(firings[0].index, 1);
        },
        _ => panic!("expected a permanent scan"),
    }
}

#[test]
fn group_payload_routes_only_group_messages() {
    let mut m = Matchers::new().add_matcher(Matcher::new(
        chars("group-only"),
        chars(""),
        matcher(PayloadKind::GroupMessage, Signal::Matched),
    ));
    match m.call(&group_message("hi")) {
        DispatchOutcome::Scanned { firings, .. } => assert_eq!(firings.len(), 1),
        _ => panic!("expected a permanent scan"),
    }
    let mut private = group_message("hi");
    private.detail_type = chars("private");
    private.extra.group_id = None;
    match m.call(&private) {
        DispatchOutcome::Scanned { firings, .. } => assert_eq!(firings.len(), 0),
        _ => panic!("expected a permanent scan"),
    }
}

#[test]
fn temp_matcher_is_consumed_exactly_once() {
    let mut m = Matchers::new().add_matcher(plain_matcher("fallback", Signal::Matched));
    m.start(MatchersConfig { nicknames: vec![] });

    let ask = group_message("question?");
    let session = walle::Session::new(ask, MatchersConfig { nicknames: vec![] });
    let (pending, _prompt) = session
        .getter(30)
        .get(&session, &mut m.temps, vec![MsgSegment::Text { text: chars("question?") }])
        .expect("the group event is replyable");
    assert_eq!(m.temps.entries.len(), 1);

    let reply = group_message("the answer");
    match m.call(&reply) {
        DispatchOutcome::TempConsumed { key, session: taken } => {
            assert_eq!(key, pending.key);
            match &taken.event.extra.message {
                Some(segs) => assert_eq!(segs.len(), 1),
                None => panic!("the reply event carries its message"),
            }
        },
        _ => panic!("the reply must be routed to the pending conversation"),
    }
    assert_eq!(m.temps.entries.len(), 0);

    let reply_again = group_message("the answer");
    match m.call(&reply_again) {
        DispatchOutcome::Scanned { firings, .. } => assert_eq!(firings.len(), 1),
        _ => panic!("a second identical event falls through to permanent matchers"),
    }
}

#[test]
fn layer_order_decides_what_the_next_layer_observes() {
    // The outer trim runs before everything else: the prefix check sees the
    // trimmed text and the command matches.
    let early_trim = Matcher::new(
        chars("early"),
        chars(""),
        trim(true).layer(
            strip_prefix(chars("echo")).layer(matcher(PayloadKind::Message, Signal::Matched), true),
            true,
        ),
    );
    // The outer trim runs after the wrapped handler: the prefix check sees
    // the raw text, whose leading space makes it miss.
    let late_trim = Matcher::new(
        chars("late"),
        chars(""),
        trim(true).layer(
            strip_prefix(chars("echo")).layer(matcher(PayloadKind::Message, Signal::Matched), true),
            false,
        ),
    );

    let mut early = Matchers::new().add_matcher(early_trim);
    match early.call(&group_message(" echo hi")) {
        DispatchOutcome::Scanned { firings, .. } => assert_eq!(firings.len(), 1),
        _ => panic!("expected a permanent scan"),
    }
    let mut late = Matchers::new().add_matcher(late_trim);
    match late.call(&group_message(" echo hi")) {
        DispatchOutcome::Scanned { firings, .. } => assert_eq!(firings.len(), 0),
        _ => panic!("expected a permanent scan"),
    }
}

#[test]
fn temp_matcher_checks_its_scope() {
    let mut m = Matchers::new();
    let ask = group_message("question?");
    let session = walle::Session::new(ask, MatchersConfig { nicknames: vec![] });
    session
        .getter(30)
        .this_user_only()
        .get(&session, &mut m.temps, vec![MsgSegment::Text { text: chars("question?") }])
        .expect("the group event is replyable");

    let mut other_user = group_message("not me");
    other_user.extra.user_id = Some(chars("u2"));
    match m.call(&other_user) {
        DispatchOutcome::Scanned { firings, .. } => assert_eq!(firings.len(), 0),
        _ => panic!("another user's event must not consume the wait"),
    }
    assert_eq!(m.temps.entries.len(), 1);

    let same_user = group_message("it is me");
    match m.call(&same_user) {
        DispatchOutcome::TempConsumed { .. } => {},
        _ => panic!("the asking user's event consumes the wait"),
    }
    assert_eq!(m.temps.entries.len(), 0);
}
