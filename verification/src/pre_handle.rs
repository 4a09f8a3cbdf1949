//! Pre-handlers: predicates that may rewrite the session's message (strip a
//! command prefix, trim whitespace, remove a mention) as a necessary side
//! effect of signalling a match.

use vstd::prelude::*;
use vstd::pervasive::VecAdditionalExecFns;

use crate::config::MatchersConfig;
use crate::event::msg_view;
use crate::event::private_chars;
use crate::event::private_vec;
use crate::event::MsgSegment;
use crate::event::SegV;
use crate::rule::rule_eval;
use crate::rule::Rule;
use crate::session::Session;
use crate::session::SessionV;
use crate::signal::Signal;
use crate::text::chars_eq;
use crate::text::chars_start_with;
use crate::text::chars_suffix;
use crate::text::clone_chars;
use crate::text::is_space;
use crate::text::is_space_char;
use crate::text::starts_with;
use crate::text::trim_end_of;
use crate::text::trim_start_of;
use crate::text::trim_end_chars;
use crate::text::trim_start_chars;

verus! {

// ------------------------- where rewrites land -------------------------

/// The least index holding a text segment, if any.
pub open spec fn first_text_index(msg: Seq<SegV>) -> Option<int>
    decreases msg.len(),
{
    if msg.len() == 0 {
        None
    } else if msg[0] is Text {
        Some(0int)
    } else {
        match first_text_index(msg.drop_first()) {
            None => None,
            Some(i) => Some(i + 1),
        }
    }
}

/// The greatest index holding a text segment, if any.
pub open spec fn last_text_index(msg: Seq<SegV>) -> Option<int>
    decreases msg.len(),
{
    if msg.len() == 0 {
        None
    } else if msg.last() is Text {
        Some(msg.len() - 1)
    } else {
        last_text_index(msg.drop_last())
    }
}

/// The least index holding a mention of `uid`, if any.
pub open spec fn first_mention_index(msg: Seq<SegV>, uid: Seq<char>) -> Option<int>
    decreases msg.len(),
{
    if msg.len() == 0 {
        None
    } else if msg[0] == SegV::Mention(uid) {
        Some(0int)
    } else {
        match first_mention_index(msg.drop_first(), uid) {
            None => None,
            Some(i) => Some(i + 1),
        }
    }
}

/// The position of the first configured nickname that prefixes `t`, if any.
pub open spec fn first_nick_index(nicks: Seq<Seq<char>>, t: Seq<char>) -> Option<int>
    decreases nicks.len(),
{
    if nicks.len() == 0 {
        None
    } else if starts_with(t, nicks[0]) {
        Some(0int)
    } else {
        match first_nick_index(nicks.drop_first(), t) {
            None => None,
            Some(k) => Some(k + 1),
        }
    }
}

pub proof fn lemma_first_text_index(msg: Seq<SegV>)
    ensures
        match first_text_index(msg) {
            None => forall|j: int| 0 <= j < msg.len() ==> !((#[trigger] msg[j]) is Text),
            Some(i) => 0 <= i < msg.len() && msg[i] is Text && (forall|j: int|
                0 <= j < i ==> !((#[trigger] msg[j]) is Text)),
        },
    decreases msg.len(),
{
    if msg.len() > 0 && !(msg[0] is Text) {
        lemma_first_text_index(msg.drop_first());
        match first_text_index(msg.drop_first()) {
            None => {
                assert forall|j: int| 0 <= j < msg.len() implies !((#[trigger] msg[j]) is Text) by {
                    if j > 0 {
                        assert(msg.drop_first()[j - 1] == msg[j]);
                    }
                }
            },
            Some(i) => {
                assert(msg.drop_first()[i] == msg[i + 1]);
                assert forall|j: int| 0 <= j < i + 1 implies !((#[trigger] msg[j]) is Text) by {
                    if j > 0 {
                        assert(msg.drop_first()[j - 1] == msg[j]);
                    }
                }
            },
        }
    }
}

pub proof fn lemma_last_text_index(msg: Seq<SegV>)
    ensures
        match last_text_index(msg) {
            None => forall|j: int| 0 <= j < msg.len() ==> !((#[trigger] msg[j]) is Text),
            Some(i) => 0 <= i < msg.len() && msg[i] is Text && (forall|j: int|
                i < j < msg.len() ==> !((#[trigger] msg[j]) is Text)),
        },
    decreases msg.len(),
{
    if msg.len() > 0 && !(msg.last() is Text) {
        lemma_last_text_index(msg.drop_last());
        match last_text_index(msg.drop_last()) {
            None => {
                assert forall|j: int| 0 <= j < msg.len() implies !((#[trigger] msg[j]) is Text) by {
                    if j < msg.len() - 1 {
                        assert(msg.drop_last()[j] == msg[j]);
                    }
                }
            },
            Some(i) => {
                assert(msg.drop_last()[i] == msg[i]);
                assert forall|j: int| i < j < msg.len() implies !((#[trigger] msg[j]) is Text) by {
                    if j < msg.len() - 1 {
                        assert(msg.drop_last()[j] == msg[j]);
                    }
                }
            },
        }
    }
}

pub proof fn lemma_first_mention_index(msg: Seq<SegV>, uid: Seq<char>)
    ensures
        match first_mention_index(msg, uid) {
            None => forall|j: int| 0 <= j < msg.len() ==> (#[trigger] msg[j]) != SegV::Mention(uid),
            Some(i) => 0 <= i < msg.len() && msg[i] == SegV::Mention(uid) && (forall|j: int|
                0 <= j < i ==> (#[trigger] msg[j]) != SegV::Mention(uid)),
        },
    decreases msg.len(),
{
    if msg.len() > 0 && msg[0] != SegV::Mention(uid) {
        lemma_first_mention_index(msg.drop_first(), uid);
        match first_mention_index(msg.drop_first(), uid) {
            None => {
                assert forall|j: int| 0 <= j < msg.len() implies (#[trigger] msg[j])
                    != SegV::Mention(uid) by {
                    if j > 0 {
                        assert(msg.drop_first()[j - 1] == msg[j]);
                    }
                }
            },
            Some(i) => {
                assert(msg.drop_first()[i] == msg[i + 1]);
                assert forall|j: int| 0 <= j < i + 1 implies (#[trigger] msg[j])
                    != SegV::Mention(uid) by {
                    if j > 0 {
                        assert(msg.drop_first()[j - 1] == msg[j]);
                    }
                }
            },
        }
    }
}

pub proof fn lemma_first_nick_index(nicks: Seq<Seq<char>>, t: Seq<char>)
    ensures
        match first_nick_index(nicks, t) {
            None => forall|k: int| 0 <= k < nicks.len() ==> !starts_with(t, #[trigger] nicks[k]),
            Some(k) => 0 <= k < nicks.len() && starts_with(t, nicks[k]) && (forall|j: int|
                0 <= j < k ==> !starts_with(t, #[trigger] nicks[j])),
        },
    decreases nicks.len(),
{
    if nicks.len() > 0 && !starts_with(t, nicks[0]) {
        lemma_first_nick_index(nicks.drop_first(), t);
        match first_nick_index(nicks.drop_first(), t) {
            None => {
                assert forall|j: int| 0 <= j < nicks.len() implies !starts_with(
                    t,
                    #[trigger] nicks[j],
                ) by {
                    if j > 0 {
                        assert(nicks.drop_first()[j - 1] == nicks[j]);
                    }
                }
            },
            Some(k) => {
                assert(nicks.drop_first()[k] == nicks[k + 1]);
                assert forall|j: int| 0 <= j < k + 1 implies !starts_with(
                    t,
                    #[trigger] nicks[j],
                ) by {
                    if j > 0 {
                        assert(nicks.drop_first()[j - 1] == nicks[j]);
                    }
                }
            },
        }
    }
}

// ------------------------- the rewrites themselves -------------------------

/// Stripping a literal prefix off the first text segment: a match rewrites
/// that segment to the remainder; anything else leaves the message alone.
pub open spec fn strip_prefix_msg(msg: Seq<SegV>, p: Seq<char>) -> (Signal, Seq<SegV>) {
    match first_text_index(msg) {
        None => (Signal::NotMatch, msg),
        Some(i) => {
            let t = msg[i]->Text_0;
            if starts_with(t, p) {
                (Signal::Matched, msg.update(i, SegV::Text(t.skip(p.len() as int))))
            } else {
                (Signal::NotMatch, msg)
            }
        },
    }
}

/// Stripping a command prefix: the remainder also loses its leading
/// whitespace, and a segment left empty is removed entirely.
pub open spec fn command_msg(msg: Seq<SegV>, p: Seq<char>) -> (Signal, Seq<SegV>) {
    match first_text_index(msg) {
        None => (Signal::NotMatch, msg),
        Some(i) => {
            let t = msg[i]->Text_0;
            if starts_with(t, p) {
                let rest = trim_start_of(t.skip(p.len() as int));
                if rest.len() > 0 {
                    (Signal::Matched, msg.update(i, SegV::Text(rest)))
                } else {
                    (Signal::Matched, msg.remove(i))
                }
            } else {
                (Signal::NotMatch, msg)
            }
        },
    }
}

/// Trimming whitespace: the first text segment loses its leading and the
/// last text segment its trailing whitespace. The signal reports a match
/// when `always_match` is set, or when whitespace was actually present at
/// the front of the first or the end of the last text segment.
pub open spec fn trim_msg(msg: Seq<SegV>, always_match: bool) -> (Signal, Seq<SegV>) {
    let s0 = if always_match {
        Signal::Matched
    } else {
        Signal::NotMatch
    };
    let r1 = match first_text_index(msg) {
        None => (s0, msg),
        Some(i) => {
            let t = msg[i]->Text_0;
            let si = if t.len() > 0 && is_space(t[0]) {
                Signal::Matched
            } else {
                s0
            };
            (si, msg.update(i, SegV::Text(trim_start_of(t))))
        },
    };
    match last_text_index(r1.1) {
        None => r1,
        Some(i) => {
            let t = r1.1[i]->Text_0;
            let se = if t.len() > 0 && is_space(t[t.len() - 1]) {
                Signal::Matched
            } else {
                r1.0
            };
            (se, r1.1.update(i, SegV::Text(trim_end_of(t))))
        },
    }
}

/// Removing the first mention of `uid`, if there is one.
pub open spec fn mention_user_msg(msg: Seq<SegV>, uid: Seq<char>) -> (Signal, Seq<SegV>) {
    match first_mention_index(msg, uid) {
        None => (Signal::NotMatch, msg),
        Some(i) => (Signal::Matched, msg.remove(i)),
    }
}

/// Stripping the first configured nickname that prefixes the first text
/// segment; a segment left empty is removed entirely.
pub open spec fn nickname_msg(nicks: Seq<Seq<char>>, msg: Seq<SegV>) -> (Signal, Seq<SegV>) {
    match first_text_index(msg) {
        None => (Signal::NotMatch, msg),
        Some(i) => {
            let t = msg[i]->Text_0;
            match first_nick_index(nicks, t) {
                None => (Signal::NotMatch, msg),
                Some(k) => {
                    let rest = t.skip(nicks[k].len() as int);
                    if rest.len() > 0 {
                        (Signal::Matched, msg.update(i, SegV::Text(rest)))
                    } else {
                        (Signal::Matched, msg.remove(i))
                    }
                },
            }
        },
    }
}

/// Removing a mention of the bot, then a nickname prefix: both rewrites run
/// for their side effects and either one counts as a match.
pub open spec fn mention_me_msg(nicks: Seq<Seq<char>>, msg: Seq<SegV>, self_uid: Seq<char>) -> (
    Signal,
    Seq<SegV>,
) {
    let r1 = mention_user_msg(msg, self_uid);
    let r2 = nickname_msg(nicks, r1.1);
    (r1.0.spec_bitor(r2.0), r2.1)
}

// ------------------------- pre-handlers -------------------------

/// Strips a literal prefix off the first text segment; absence of the
/// prefix is a miss.
pub struct StripPrefix {
    pub prefix: Vec<char>,
}

/// Two pre-handlers joined: both run, in order, and both must match.
pub struct JoinedPreHandler(pub PreHandler, pub PreHandler);

/// A pre-handler followed by a rule: the rule observes the rewrite.
pub struct JoinedPreHandlerRule(pub PreHandler, pub Rule);

/// A rule followed by a pre-handler: the rule observes the message as it
/// was before the rewrite.
pub struct JoinedRulePreHandler(pub Rule, pub PreHandler);

/// A predicate over a session that may rewrite the message segments as a
/// side effect of matching. Evaluation yields a [`Signal`]; a miss is an
/// expected outcome, not an error.
pub enum PreHandler {
    StripPrefix(StripPrefix),
    /// Trims surrounding whitespace from the message text; the signal is a
    /// match when surrounding whitespace was present, or always with
    /// `always_match`.
    Trim { always_match: bool },
    /// Strips a command prefix and the whitespace that follows it.
    Command { prefix: Vec<char> },
    /// Removes the first mention of one fixed user.
    MentionUser { user_id: Vec<char> },
    /// Removes a mention of the bot itself or a configured nickname prefix.
    MentionMe,
    /// Matches a private chat, and also runs the mention-me rewrite.
    ToMe,
    /// Matches every event and rewrites nothing.
    Nothing,
    Joined(Box<JoinedPreHandler>),
    WithRule(Box<JoinedPreHandlerRule>),
    RuleThen(Box<JoinedRulePreHandler>),
}

/// The mention-me rewrite on a whole session: a session without segments is
/// left alone with a miss.
pub open spec fn mention_me_pre_eval(s: SessionV) -> (Signal, SessionV) {
    match s.event.message {
        None => (Signal::NotMatch, s),
        Some(msg) => {
            let r = mention_me_msg(s.config.nicknames, msg, s.event.self_id_or_empty());
            (r.0, s.with_message(Some(r.1)))
        },
    }
}

/// What a pre-handler yields on a session: the signal and the session as
/// rewritten.
pub open spec fn pre_handle_eval(p: PreHandler, s: SessionV) -> (Signal, SessionV)
    decreases p,
{
    match p {
        PreHandler::StripPrefix(sp) => match s.event.message {
            None => (Signal::NotMatch, s),
            Some(msg) => {
                let r = strip_prefix_msg(msg, sp.prefix@);
                (r.0, s.with_message(Some(r.1)))
            },
        },
        PreHandler::Trim { always_match } => match s.event.message {
            None => (
                if always_match {
                    Signal::Matched
                } else {
                    Signal::NotMatch
                },
                s,
            ),
            Some(msg) => {
                let r = trim_msg(msg, always_match);
                (r.0, s.with_message(Some(r.1)))
            },
        },
        PreHandler::Command { prefix } => match s.event.message {
            None => (Signal::NotMatch, s),
            Some(msg) => {
                let r = command_msg(msg, prefix@);
                (r.0, s.with_message(Some(r.1)))
            },
        },
        PreHandler::MentionUser { user_id } => match s.event.message {
            None => (Signal::NotMatch, s),
            Some(msg) => {
                let r = mention_user_msg(msg, user_id@);
                (r.0, s.with_message(Some(r.1)))
            },
        },
        PreHandler::MentionMe => mention_me_pre_eval(s),
        PreHandler::ToMe => {
            let sp = if s.event.detail_type == private_chars() {
                Signal::Matched
            } else {
                Signal::NotMatch
            };
            let r = mention_me_pre_eval(s);
            (sp.spec_bitor(r.0), r.1)
        },
        PreHandler::Nothing => (Signal::Matched, s),
        PreHandler::Joined(j) => {
            let r1 = pre_handle_eval((*j).0, s);
            let r2 = pre_handle_eval((*j).1, r1.1);
            (r1.0.spec_bitand(r2.0), r2.1)
        },
        PreHandler::WithRule(j) => {
            let r1 = pre_handle_eval((*j).0, s);
            (r1.0.spec_bitand(rule_eval((*j).1, r1.1)), r1.1)
        },
        PreHandler::RuleThen(j) => {
            let s1 = rule_eval((*j).0, s);
            let r2 = pre_handle_eval((*j).1, s);
            (s1.spec_bitand(r2.0), r2.1)
        },
    }
}

// ------------------------- executable rewrites -------------------------

/// Finds the first text segment.
pub(crate) fn find_first_text(msg: &Vec<MsgSegment>) -> (r: Option<usize>)
    ensures
        match r {
            None => first_text_index(msg_view(msg@)) is None,
            Some(i) => first_text_index(msg_view(msg@)) == Some(i as int) && i < msg@.len()
                && msg@[i as int]@ is Text,
        },
{
    let mut k: usize = 0;
    while k < msg.len()
        invariant
            k <= msg@.len(),
            forall|j: int| 0 <= j < k ==> !((#[trigger] msg_view(msg@)[j]) is Text),
        decreases msg@.len() - k,
    {
        let is_t = match &msg[k] {
            MsgSegment::Text { .. } => true,
            _ => false,
        };
        proof {
            assert(msg_view(msg@)[k as int] == msg@[k as int]@);
        }
        if is_t {
            proof {
                lemma_first_text_index(msg_view(msg@));
            }
            return Some(k);
        }
        k = k + 1;
    }
    proof {
        lemma_first_text_index(msg_view(msg@));
    }
    None
}

/// Finds the last text segment.
fn find_last_text(msg: &Vec<MsgSegment>) -> (r: Option<usize>)
    ensures
        match r {
            None => last_text_index(msg_view(msg@)) is None,
            Some(i) => last_text_index(msg_view(msg@)) == Some(i as int) && i < msg@.len()
                && msg@[i as int]@ is Text,
        },
{
    let mut k: usize = msg.len();
    while k > 0
        invariant
            k <= msg@.len(),
            forall|j: int| k <= j < msg@.len() ==> !((#[trigger] msg_view(msg@)[j]) is Text),
        decreases k,
    {
        let is_t = match &msg[k - 1] {
            MsgSegment::Text { .. } => true,
            _ => false,
        };
        proof {
            assert(msg_view(msg@)[k - 1] == msg@[k - 1]@);
        }
        if is_t {
            proof {
                lemma_last_text_index(msg_view(msg@));
            }
            return Some(k - 1);
        }
        k = k - 1;
    }
    proof {
        lemma_last_text_index(msg_view(msg@));
    }
    None
}

/// Strips `prefix` off the first text segment of `msg`.
fn strip_prefix_in_msg(msg: &mut Vec<MsgSegment>, prefix: &Vec<char>) -> (r: Signal)
    ensures
        ({
            let sm = strip_prefix_msg(msg_view(old(msg)@), prefix@);
            r == sm.0 && msg_view(final(msg)@) == sm.1
        }),
{
    match find_first_text(msg) {
        None => Signal::NotMatch,
        Some(i) => {
            let stripped: Option<Vec<char>> = match &msg[i] {
                MsgSegment::Text { text } => {
                    if chars_start_with(text, prefix) {
                        Some(chars_suffix(text, prefix.len()))
                    } else {
                        None
                    }
                },
                _ => {
                    proof {
                        assert(false);
                    }
                    None
                },
            };
            match stripped {
                Some(t) => {
                    let ghost target = msg_view(msg@).update(
                        i as int,
                        SegV::Text(msg_view(msg@)[i as int]->Text_0.skip(prefix@.len() as int)),
                    );
                    msg.set(i, MsgSegment::Text { text: t });
                    proof {
                        assert(msg_view(msg@) =~= target);
                    }
                    Signal::Matched
                },
                None => Signal::NotMatch,
            }
        },
    }
}

/// Strips the command `prefix` and any whitespace after it off the first
/// text segment of `msg`, removing the segment when nothing is left.
pub(crate) fn command_in_msg(msg: &mut Vec<MsgSegment>, prefix: &Vec<char>) -> (r: Signal)
    ensures
        ({
            let cm = command_msg(msg_view(old(msg)@), prefix@);
            r == cm.0 && msg_view(final(msg)@) == cm.1
        }),
{
    match find_first_text(msg) {
        None => Signal::NotMatch,
        Some(i) => {
            let rest_opt: Option<Vec<char>> = match &msg[i] {
                MsgSegment::Text { text } => {
                    if chars_start_with(text, prefix) {
                        let mut rest = chars_suffix(text, prefix.len());
                        trim_start_chars(&mut rest);
                        Some(rest)
                    } else {
                        None
                    }
                },
                _ => {
                    proof {
                        assert(false);
                    }
                    None
                },
            };
            match rest_opt {
                Some(t) => {
                    let ghost target = command_msg(msg_view(msg@), prefix@).1;
                    if t.len() > 0 {
                        msg.set(i, MsgSegment::Text { text: t });
                        proof {
                            assert(msg_view(msg@) =~= target);
                        }
                    } else {
                        msg.remove(i);
                        proof {
                            assert(msg_view(msg@) =~= target);
                        }
                    }
                    Signal::Matched
                },
                None => Signal::NotMatch,
            }
        },
    }
}

/// Trims whitespace around the message text of `msg`.
fn trim_in_msg(msg: &mut Vec<MsgSegment>, always_match: bool) -> (r: Signal)
    ensures
        ({
            let tm = trim_msg(msg_view(old(msg)@), always_match);
            r == tm.0 && msg_view(final(msg)@) == tm.1
        }),
{
    let mut sig: Signal = if always_match {
        Signal::Matched
    } else {
        Signal::NotMatch
    };
    let ghost whole = trim_msg(msg_view(msg@), always_match);
    let ghost mid = match first_text_index(msg_view(msg@)) {
        None => msg_view(msg@),
        Some(i) => msg_view(msg@).update(
            i,
            SegV::Text(trim_start_of(msg_view(msg@)[i]->Text_0)),
        ),
    };
    match find_first_text(msg) {
        None => {},
        Some(i) => {
            let new_text: Vec<char> = match &msg[i] {
                MsgSegment::Text { text } => {
                    if text.len() > 0 && is_space_char(text[0]) {
                        sig = Signal::Matched;
                    }
                    let mut t = clone_chars(text);
                    trim_start_chars(&mut t);
                    t
                },
                _ => {
                    proof {
                        assert(false);
                    }
                    Vec::new()
                },
            };
            msg.set(i, MsgSegment::Text { text: new_text });
            proof {
                assert(msg_view(msg@) =~= mid);
            }
        },
    }
    match find_last_text(msg) {
        None => {},
        Some(i) => {
            let new_text: Vec<char> = match &msg[i] {
                MsgSegment::Text { text } => {
                    if text.len() > 0 && is_space_char(text[text.len() - 1]) {
                        sig = Signal::Matched;
                    }
                    let mut t = clone_chars(text);
                    trim_end_chars(&mut t);
                    t
                },
                _ => {
                    proof {
                        assert(false);
                    }
                    Vec::new()
                },
            };
            let ghost target = mid.update(i as int, SegV::Text(trim_end_of(mid[i as int]->Text_0)));
            msg.set(i, MsgSegment::Text { text: new_text });
            proof {
                assert(msg_view(msg@) =~= target);
            }
        },
    }
    sig
}

/// Removes the first mention of `uid` from `msg`.
fn mention_user_in_msg(msg: &mut Vec<MsgSegment>, uid: &Vec<char>) -> (r: Signal)
    ensures
        ({
            let mm = mention_user_msg(msg_view(old(msg)@), uid@);
            r == mm.0 && msg_view(final(msg)@) == mm.1
        }),
{
    let mut k: usize = 0;
    while k < msg.len()
        invariant
            k <= msg@.len(),
            msg@ == old(msg)@,
            forall|j: int| 0 <= j < k ==> (#[trigger] msg_view(msg@)[j]) != SegV::Mention(uid@),
        decreases msg@.len() - k,
    {
        let found = match &msg[k] {
            MsgSegment::Mention { user_id } => chars_eq(user_id, uid),
            _ => false,
        };
        proof {
            assert(msg_view(msg@)[k as int] == msg@[k as int]@);
        }
        if found {
            proof {
                lemma_first_mention_index(msg_view(msg@), uid@);
            }
            let ghost target = msg_view(msg@).remove(k as int);
            msg.remove(k);
            proof {
                assert(msg_view(msg@) =~= target);
            }
            return Signal::Matched;
        }
        k = k + 1;
    }
    proof {
        lemma_first_mention_index(msg_view(msg@), uid@);
    }
    Signal::NotMatch
}

/// Strips the first configured nickname that prefixes the first text
/// segment of `msg`, removing the segment when nothing is left.
fn nickname_in_msg(config: &MatchersConfig, msg: &mut Vec<MsgSegment>) -> (r: Signal)
    ensures
        ({
            let nm = nickname_msg(config@.nicknames, msg_view(old(msg)@));
            r == nm.0 && msg_view(final(msg)@) == nm.1
        }),
{
    match find_first_text(msg) {
        None => Signal::NotMatch,
        Some(i) => {
            let rest_opt: Option<Vec<char>> = match &msg[i] {
                MsgSegment::Text { text } => {
                    let mut k: usize = 0;
                    let mut hit: Option<usize> = None;
                    while k < config.nicknames.len() && hit.is_none()
                        invariant
                            k <= config.nicknames@.len(),
                            match hit {
                                None => forall|j: int|
                                    0 <= j < k ==> !starts_with(
                                        text@,
                                        #[trigger] config@.nicknames[j],
                                    ),
                                Some(h) => h < config.nicknames@.len() && first_nick_index(
                                    config@.nicknames,
                                    text@,
                                ) == Some(h as int) && starts_with(
                                    text@,
                                    config@.nicknames[h as int],
                                ),
                            },
                        decreases config.nicknames@.len() - k,
                    {
                        proof {
                            assert(config@.nicknames[k as int] == config.nicknames@[k as int]@);
                        }
                        if chars_start_with(text, &config.nicknames[k]) {
                            proof {
                                lemma_first_nick_index(config@.nicknames, text@);
                            }
                            hit = Some(k);
                        }
                        k = k + 1;
                    }
                    proof {
                        if hit is None {
                            lemma_first_nick_index(config@.nicknames, text@);
                        }
                    }
                    match hit {
                        None => None,
                        Some(h) => {
                            proof {
                                assert(config@.nicknames[h as int]
                                    == config.nicknames@[h as int]@);
                            }
                            Some(chars_suffix(text, config.nicknames[h].len()))
                        },
                    }
                },
                _ => {
                    proof {
                        assert(false);
                    }
                    None
                },
            };
            match rest_opt {
                Some(t) => {
                    let ghost target = nickname_msg(config@.nicknames, msg_view(msg@)).1;
                    if t.len() > 0 {
                        msg.set(i, MsgSegment::Text { text: t });
                        proof {
                            assert(msg_view(msg@) =~= target);
                        }
                    } else {
                        msg.remove(i);
                        proof {
                            assert(msg_view(msg@) =~= target);
                        }
                    }
                    Signal::Matched
                },
                None => Signal::NotMatch,
            }
        },
    }
}

/// Runs the mention-me rewrite on a whole session.
fn mention_me_pre(session: &mut Session) -> (r: Signal)
    ensures
        ({
            let me = mention_me_pre_eval(old(session)@);
            r == me.0 && final(session)@ == me.1
        }),
{
    let uid: Vec<char> = match &session.event.extra.self_id {
        Some(s) => clone_chars(s),
        None => Vec::new(),
    };
    proof {
        if session.event.extra.self_id is None {
            assert(uid@ =~= Seq::<char>::empty());
        }
        assert(uid@ == session@.event.self_id_or_empty());
    }
    let cfg = &session.config;
    match &mut session.event.extra.message {
        Some(m) => {
            let s1 = mention_user_in_msg(m, &uid);
            let s2 = nickname_in_msg(cfg, m);
            s1.bitor(s2)
        },
        None => Signal::NotMatch,
    }
}

impl PreHandler {
    /// Evaluates the pre-handler, rewriting the session's message as its
    /// side effect.
    pub fn pre_handle(&self, session: &mut Session) -> (r: Signal)
        ensures
            ({
                let pe = pre_handle_eval(*self, old(session)@);
                r == pe.0 && final(session)@ == pe.1
            }),
        decreases self,
    {
        match self {
            PreHandler::StripPrefix(sp) => match &mut session.event.extra.message {
                Some(m) => strip_prefix_in_msg(m, &sp.prefix),
                None => Signal::NotMatch,
            },
            PreHandler::Trim { always_match } => match &mut session.event.extra.message {
                Some(m) => trim_in_msg(m, *always_match),
                None => {
                    if *always_match {
                        Signal::Matched
                    } else {
                        Signal::NotMatch
                    }
                },
            },
            PreHandler::Command { prefix } => match &mut session.event.extra.message {
                Some(m) => command_in_msg(m, prefix),
                None => Signal::NotMatch,
            },
            PreHandler::MentionUser { user_id } => match &mut session.event.extra.message {
                Some(m) => mention_user_in_msg(m, user_id),
                None => Signal::NotMatch,
            },
            PreHandler::MentionMe => mention_me_pre(session),
            PreHandler::ToMe => {
                let pv = private_vec();
                let sp = if chars_eq(&session.event.detail_type, &pv) {
                    Signal::Matched
                } else {
                    Signal::NotMatch
                };
                let s2 = mention_me_pre(session);
                sp.bitor(s2)
            },
            PreHandler::Nothing => Signal::Matched,
            PreHandler::Joined(j) => {
                let JoinedPreHandler(a, b) = &**j;
                let s1 = a.pre_handle(session);
                let s2 = b.pre_handle(session);
                s1.bitand(s2)
            },
            PreHandler::WithRule(j) => {
                let JoinedPreHandlerRule(a, rl) = &**j;
                let s1 = a.pre_handle(session);
                let s2 = rl.rule(session);
                s1.bitand(s2)
            },
            PreHandler::RuleThen(j) => {
                let JoinedRulePreHandler(rl, b) = &**j;
                let s1 = rl.rule(session);
                let s2 = b.pre_handle(session);
                s1.bitand(s2)
            },
        }
    }

    /// Joins this pre-handler with another: both run, in order, and both
    /// must match.
    pub fn with(self, other: PreHandler) -> (r: PreHandler)
        ensures
            r == PreHandler::Joined(Box::new(JoinedPreHandler(self, other))),
    {
        PreHandler::Joined(Box::new(JoinedPreHandler(self, other)))
    }

    /// Joins this pre-handler with a rule that observes the rewrite.
    pub fn with_rule(self, rule: Rule) -> (r: PreHandler)
        ensures
            r == PreHandler::WithRule(Box::new(JoinedPreHandlerRule(self, rule))),
    {
        PreHandler::WithRule(Box::new(JoinedPreHandlerRule(self, rule)))
    }
}

impl Rule {
    /// Puts this rule in front of a pre-handler; the rule observes the
    /// message as it was before the rewrite.
    pub fn with_pre_handler(self, pre: PreHandler) -> (r: PreHandler)
        ensures
            r == PreHandler::RuleThen(Box::new(JoinedRulePreHandler(self, pre))),
    {
        PreHandler::RuleThen(Box::new(JoinedRulePreHandler(self, pre)))
    }
}

/// A pre-handler that strips the literal `prefix` off the first text
/// segment.
pub fn strip_prefix(prefix: Vec<char>) -> (r: PreHandler)
    ensures
        r == PreHandler::StripPrefix(StripPrefix { prefix }),
{
    PreHandler::StripPrefix(StripPrefix { prefix })
}

/// A pre-handler that trims surrounding whitespace from the message text.
pub fn trim(always_match: bool) -> (r: PreHandler)
    ensures
        r == (PreHandler::Trim { always_match }),
{
    PreHandler::Trim { always_match }
}

/// A pre-handler that strips the command `prefix` and the whitespace after
/// it.
pub fn strip_command(prefix: Vec<char>) -> (r: PreHandler)
    ensures
        r == (PreHandler::Command { prefix }),
{
    PreHandler::Command { prefix }
}

/// A pre-handler that removes the first mention of `user_id`.
pub fn mention_user(user_id: Vec<char>) -> (r: PreHandler)
    ensures
        r == (PreHandler::MentionUser { user_id }),
{
    PreHandler::MentionUser { user_id }
}

/// A pre-handler that removes a mention of the bot or a nickname prefix.
pub fn mention_me() -> (r: PreHandler)
    ensures
        r == PreHandler::MentionMe,
{
    PreHandler::MentionMe
}

/// A pre-handler that matches a private chat or a message addressing the
/// bot, removing the addressing.
pub fn to_me() -> (r: PreHandler)
    ensures
        r == PreHandler::ToMe,
{
    PreHandler::ToMe
}

} // verus!
