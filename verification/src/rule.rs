//! Rules: read-only predicates over a session, composable into AND-chains.

use vstd::prelude::*;

use crate::config::MatchersConfig;
use crate::event::msg_view;
use crate::event::private_chars;
use crate::event::private_vec;
use crate::event::MsgSegment;
use crate::event::SegV;
use crate::session::Session;
use crate::session::SessionV;
use crate::signal::Signal;
use crate::text::chars_eq;
use crate::text::chars_start_with;
use crate::text::starts_with;

verus! {

/// Checks that the event's sender is one fixed user; a missing sender counts
/// as the empty id.
pub struct UserIdChecker {
    pub user_id: Vec<char>,
}

/// Checks that the event comes from one fixed group; a missing group counts
/// as the empty id.
pub struct GroupIdChecker {
    pub group_id: Vec<char>,
}

/// Checks that the event comes from one fixed channel of one fixed guild;
/// a missing field is a miss.
pub struct ChannelIdChecker {
    pub guild_id: Vec<char>,
    pub channel_id: Vec<char>,
}

/// Two rules joined so that both must hold.
pub struct JoinedRule(pub Rule, pub Rule);

/// A read-only predicate over a session. Evaluation never mutates the event
/// and yields a [`Signal`]; a miss is an expected outcome, not an error.
pub enum Rule {
    UserId(UserIdChecker),
    GroupId(GroupIdChecker),
    ChannelId(ChannelIdChecker),
    /// The plain-text rendering of the message starts with a literal pattern.
    StartWith { pat: Vec<char> },
    /// The message addresses the bot: a configured nickname prefixes the
    /// plain-text rendering, or a mention segment names the bot itself.
    MentionMe,
    /// The chat is private, or the message addresses the bot.
    ToMe,
    /// Always matches.
    Always,
    Joined(Box<JoinedRule>),
}

/// Some configured nickname is a prefix of `t`.
pub open spec fn nickname_prefix_exists(nicks: Seq<Seq<char>>, t: Seq<char>) -> bool {
    exists|k: int| 0 <= k < nicks.len() && starts_with(t, nicks[k])
}

/// The message holds a mention segment naming `uid`.
pub open spec fn has_mention(msg: Seq<SegV>, uid: Seq<char>) -> bool {
    exists|j: int| 0 <= j < msg.len() && msg[j] == SegV::Mention(uid)
}

/// What the mention-me rule yields: a nickname prefix on the plain-text
/// rendering, or a mention of the bot among the segments. An event without
/// a plain-text rendering, or without segments when segments are needed, is
/// a miss.
pub open spec fn mention_me_eval(s: SessionV) -> Signal {
    match s.event.alt_message {
        None => Signal::NotMatch,
        Some(alt) => if nickname_prefix_exists(s.config.nicknames, alt) {
            Signal::Matched
        } else {
            match s.event.message {
                None => Signal::NotMatch,
                Some(msg) => if has_mention(msg, s.event.self_id_or_empty()) {
                    Signal::Matched
                } else {
                    Signal::NotMatch
                },
            }
        },
    }
}

/// What a rule yields on a session.
pub open spec fn rule_eval(r: Rule, s: SessionV) -> Signal
    decreases r,
{
    match r {
        Rule::UserId(c) => if s.event.user_id_or_empty() == c.user_id@ {
            Signal::Matched
        } else {
            Signal::NotMatch
        },
        Rule::GroupId(c) => if s.event.group_id_or_empty() == c.group_id@ {
            Signal::Matched
        } else {
            Signal::NotMatch
        },
        Rule::ChannelId(c) => if s.event.guild_id == Some(c.guild_id@) && s.event.channel_id
            == Some(c.channel_id@) {
            Signal::Matched
        } else {
            Signal::NotMatch
        },
        Rule::StartWith { pat } => if starts_with(s.event.alt_or_empty(), pat@) {
            Signal::Matched
        } else {
            Signal::NotMatch
        },
        Rule::MentionMe => mention_me_eval(s),
        Rule::ToMe => if s.event.detail_type == private_chars() {
            Signal::Matched
        } else {
            mention_me_eval(s)
        },
        Rule::Always => Signal::Matched,
        Rule::Joined(j) => rule_eval((*j).0, s).spec_bitand(rule_eval((*j).1, s)),
    }
}

/// Searches the configured nicknames for one that prefixes `alt`.
fn nickname_prefix_search(config: &MatchersConfig, alt: &Vec<char>) -> (r: bool)
    ensures
        r == nickname_prefix_exists(config@.nicknames, alt@),
{
    let mut k: usize = 0;
    while k < config.nicknames.len()
        invariant
            k <= config.nicknames@.len(),
            forall|j: int| 0 <= j < k ==> !starts_with(alt@, config@.nicknames[j]),
        decreases config.nicknames@.len() - k,
    {
        if chars_start_with(alt, &config.nicknames[k]) {
            proof {
                assert(config@.nicknames[k as int] == config.nicknames@[k as int]@);
            }
            return true;
        }
        proof {
            assert(config@.nicknames[k as int] == config.nicknames@[k as int]@);
        }
        k = k + 1;
    }
    false
}

/// Searches the segments for a mention of `uid`.
fn find_mention(msg: &Vec<MsgSegment>, uid: &Vec<char>) -> (r: bool)
    ensures
        r == has_mention(msg_view(msg@), uid@),
{
    let mut i: usize = 0;
    while i < msg.len()
        invariant
            i <= msg@.len(),
            forall|j: int| 0 <= j < i ==> msg_view(msg@)[j] != SegV::Mention(uid@),
        decreases msg@.len() - i,
    {
        let found = match &msg[i] {
            MsgSegment::Mention { user_id } => chars_eq(user_id, uid),
            _ => false,
        };
        proof {
            assert(msg_view(msg@)[i as int] == msg@[i as int]@);
        }
        if found {
            return true;
        }
        i = i + 1;
    }
    false
}

/// Evaluates the mention-me condition against a session.
fn mention_me_signal(session: &Session) -> (r: Signal)
    ensures
        r == mention_me_eval(session@),
{
    let alt = match &session.event.extra.alt_message {
        Some(a) => a,
        None => {
            return Signal::NotMatch;
        },
    };
    if nickname_prefix_search(&session.config, alt) {
        return Signal::Matched;
    }
    let msg = match &session.event.extra.message {
        Some(m) => m,
        None => {
            return Signal::NotMatch;
        },
    };
    let empty: Vec<char> = Vec::new();
    let uid: &Vec<char> = match &session.event.extra.self_id {
        Some(s) => s,
        None => &empty,
    };
    proof {
        assert(uid@ == session@.event.self_id_or_empty()) by {
            if session.event.extra.self_id is None {
                assert(uid@ =~= Seq::<char>::empty());
            }
        }
    }
    if find_mention(msg, uid) {
        Signal::Matched
    } else {
        Signal::NotMatch
    }
}

impl Rule {
    /// Evaluates the rule against a session, reading it only.
    pub fn rule(&self, session: &Session) -> (r: Signal)
        ensures
            r == rule_eval(*self, session@),
        decreases self,
    {
        match self {
            Rule::UserId(c) => {
                let hit = match &session.event.extra.user_id {
                    Some(v) => chars_eq(v, &c.user_id),
                    None => c.user_id.len() == 0,
                };
                proof {
                    if session.event.extra.user_id is None && c.user_id@.len() == 0 {
                        assert(session@.event.user_id_or_empty() =~= c.user_id@);
                    }
                }
                if hit {
                    Signal::Matched
                } else {
                    Signal::NotMatch
                }
            },
            Rule::GroupId(c) => {
                let hit = match &session.event.extra.group_id {
                    Some(v) => chars_eq(v, &c.group_id),
                    None => c.group_id.len() == 0,
                };
                proof {
                    if session.event.extra.group_id is None && c.group_id@.len() == 0 {
                        assert(session@.event.group_id_or_empty() =~= c.group_id@);
                    }
                }
                if hit {
                    Signal::Matched
                } else {
                    Signal::NotMatch
                }
            },
            Rule::ChannelId(c) => {
                let guild_hit = match &session.event.extra.guild_id {
                    Some(v) => chars_eq(v, &c.guild_id),
                    None => false,
                };
                let channel_hit = match &session.event.extra.channel_id {
                    Some(v) => chars_eq(v, &c.channel_id),
                    None => false,
                };
                if guild_hit && channel_hit {
                    Signal::Matched
                } else {
                    Signal::NotMatch
                }
            },
            Rule::StartWith { pat } => {
                let empty: Vec<char> = Vec::new();
                let alt: &Vec<char> = match &session.event.extra.alt_message {
                    Some(a) => a,
                    None => &empty,
                };
                proof {
                    assert(alt@ == session@.event.alt_or_empty()) by {
                        if session.event.extra.alt_message is None {
                            assert(alt@ =~= Seq::<char>::empty());
                        }
                    }
                }
                if chars_start_with(alt, pat) {
                    Signal::Matched
                } else {
                    Signal::NotMatch
                }
            },
            Rule::MentionMe => mention_me_signal(session),
            Rule::ToMe => {
                let pv = private_vec();
                if chars_eq(&session.event.detail_type, &pv) {
                    Signal::Matched
                } else {
                    mention_me_signal(session)
                }
            },
            Rule::Always => Signal::Matched,
            Rule::Joined(j) => {
                let JoinedRule(a, b) = &**j;
                let s1 = a.rule(session);
                let s2 = b.rule(session);
                s1.bitand(s2)
            },
        }
    }

    /// Joins this rule with another so that both must hold.
    pub fn with(self, other: Rule) -> (r: Rule)
        ensures
            r == Rule::Joined(Box::new(JoinedRule(self, other))),
    {
        Rule::Joined(Box::new(JoinedRule(self, other)))
    }
}

/// A rule that requires the event's sender to be exactly `user_id`.
pub fn user_id_check(user_id: Vec<char>) -> (r: Rule)
    ensures
        r == Rule::UserId(UserIdChecker { user_id }),
{
    Rule::UserId(UserIdChecker { user_id })
}

/// A rule that requires the event's group to be exactly `group_id`.
pub fn group_id_check(group_id: Vec<char>) -> (r: Rule)
    ensures
        r == Rule::GroupId(GroupIdChecker { group_id }),
{
    Rule::GroupId(GroupIdChecker { group_id })
}

/// A rule that requires the event's guild and channel to be exactly the two
/// given ids.
pub fn channel_id_check(guild_id: Vec<char>, channel_id: Vec<char>) -> (r: Rule)
    ensures
        r == Rule::ChannelId(ChannelIdChecker { guild_id, channel_id }),
{
    Rule::ChannelId(ChannelIdChecker { guild_id, channel_id })
}

/// A rule that requires the plain-text rendering to start with `pat`.
pub fn start_with(pat: Vec<char>) -> (r: Rule)
    ensures
        r == (Rule::StartWith { pat }),
{
    Rule::StartWith { pat }
}

/// A rule that requires the message to address the bot.
pub fn mention_me_rule() -> (r: Rule)
    ensures
        r == Rule::MentionMe,
{
    Rule::MentionMe
}

/// A rule that requires a private chat or a message addressing the bot.
pub fn to_me_rule() -> (r: Rule)
    ensures
        r == Rule::ToMe,
{
    Rule::ToMe
}

} // verus!
