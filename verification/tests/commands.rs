use walle::builtin::match_command;
use walle::builtin::on_command;
use walle::handle::matcher;
use walle::DispatchOutcome;
use walle::Matcher;
use walle::Matchers;
use walle::MsgSegment;
use walle::PayloadKind;
use walle::Signal;

fn chars(s: &str) -> Vec<char> {
    s.chars().collect()
}

fn text_message(text: &str) -> Vec<MsgSegment> {
    vec![MsgSegment::Text { text: chars(text) }]
}

fn first_text_of(msg: &Vec<MsgSegment>) -> String {
    for seg in msg {
        if let MsgSegment::Text { text } = seg {
            return text.iter().collect();
        }
    }
    String::new()
}

#[test]
fn command_dispatch_tags_the_first_fitting_prefix() {
    let prefixes = vec![chars("start"), chars("shot")];
    let mut msg = text_message("shot  now");
    assert_eq!(match_command(&prefixes, &mut msg), Some(1));
    assert_eq!(first_text_of(&msg), "now");

    let mut miss = text_message("pass");
    assert_eq!(match_command(&prefixes, &mut miss), None);
    assert_eq!(first_text_of(&miss), "pass");
}

#[test]
fn command_dispatch_tries_prefixes_in_order() {
    let prefixes = vec![chars("a"), chars("ab")];
    let mut msg = text_message("ab c");
    assert_eq!(match_command(&prefixes, &mut msg), Some(0));
    assert_eq!(first_text_of(&msg), "b c");
}

#[test]
fn command_dispatch_removes_an_emptied_segment() {
    let prefixes = vec![chars("shot")];
    let mut msg = text_message("shot");
    assert_eq!(match_command(&prefixes, &mut msg), Some(0));
    assert_eq!(msg.len(), 0);
}

#[test]
fn on_command_gates_a_registered_matcher() {
    let mut m = Matchers::new().add_matcher(Matcher::new(
        chars("echo"),
        chars("answers an echo command"),
        on_command(chars("echo"), matcher(PayloadKind::Message, Signal::Matched)),
    ));
    let event = walle::Event {
        id: chars("e1"),
        time: 0,
        ty: chars("message"),
        detail_type: chars("private"),
        sub_type: chars(""),
        extra: walle::EventExtra {
            user_id: Some(chars("u1")),
            group_id: None,
            guild_id: None,
            channel_id: None,
            self_id: None,
            message: Some(text_message("echo hi")),
            alt_message: Some(chars("echo hi")),
        },
    };
    match m.call(&event) {
        DispatchOutcome::Scanned { firings, blocked } => {
            assert_eq!(blocked, None);
            assert_eq!(firings.len(), 1);
            let fired = &firings[0];
            match &fired.session.event.extra.message {
                Some(msg) => assert_eq!(first_text_of(msg), " hi"),
                None => panic!("the fired session keeps its message"),
            }
        },
        _ => panic!("expected a permanent scan"),
    }

    let mut other = walle::Event {
        id: chars("e2"),
        time: 0,
        ty: chars("message"),
        detail_type: chars("private"),
        sub_type: chars(""),
        extra: walle::EventExtra {
            user_id: Some(chars("u1")),
            group_id: None,
            guild_id: None,
            channel_id: None,
            self_id: None,
            message: Some(text_message("status")),
            alt_message: Some(chars("status")),
        },
    };
    other.extra.alt_message = Some(chars("status"));
    match m.call(&other) {
        DispatchOutcome::Scanned { firings, .. } => assert_eq!(firings.len(), 0),
        _ => panic!("expected a permanent scan"),
    }
}
