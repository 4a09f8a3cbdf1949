//! The per-event execution context handed to rules, pre-handlers and
//! handlers, and the conversational "ask and wait" primitive built on the
//! temporary-matcher table.

use vstd::prelude::*;

use crate::actions::Action;
use crate::actions::ActionV;
use crate::actions::SendMessageAction;
use crate::actions::SendMessageV;
use crate::config::ConfigV;
use crate::config::MatchersConfig;
use crate::event::channel_vec;
use crate::event::group_vec;
use crate::event::msg_view;
use crate::event::private_vec;
use crate::event::channel_chars;
use crate::event::group_chars;
use crate::event::private_chars;
use crate::event::Event;
use crate::event::EventV;
use crate::event::MsgSegment;
use crate::handle::matcher;
use crate::handle::BoxedMatcherHandler;
use crate::handle::LayeredPreHandler;
use crate::handle::MatcherHandler;
use crate::handle::PayloadKind;
use crate::matchers::key_index;
use crate::matchers::TempEntry;
use crate::matchers::TempMatchers;
use crate::pre_handle::JoinedPreHandler;
use crate::pre_handle::JoinedPreHandlerRule;
use crate::pre_handle::PreHandler;
use crate::rule::ChannelIdChecker;
use crate::rule::GroupIdChecker;
use crate::rule::JoinedRule;
use crate::rule::Rule;
use crate::rule::UserIdChecker;
use crate::signal::Signal;
use crate::text::append_chars;
use crate::text::clone_chars;

verus! {

/// The context one dispatched event runs in: the event itself (owned, and
/// replaced wholesale when a conversational exchange receives a reply) and
/// the configuration.
pub struct Session {
    pub event: Event,
    pub config: MatchersConfig,
}

/// The view of a session.
pub ghost struct SessionV {
    pub event: EventV,
    pub config: ConfigV,
}

impl View for Session {
    type V = SessionV;

    open spec fn view(&self) -> SessionV {
        SessionV { event: self.event@, config: self.config@ }
    }
}

impl SessionV {
    /// This session with its event's message replaced: the only part a
    /// pre-handler may rewrite.
    pub open spec fn with_message(self, m: Option<Seq<crate::event::SegV>>) -> SessionV {
        SessionV { event: self.event.with_message(m), config: self.config }
    }
}

/// The failures a conversational exchange can surface. A routing miss is
/// never one of them.
#[derive(Clone, Copy, Debug, PartialEq, Eq, Structural)]
pub enum SessionError {
    /// The event carries no identity a reply could be routed by.
    Unreplyable,
    /// A conversational wait is already pending under the same correlation
    /// key; registering a second one would silently orphan the first.
    KeyOccupied,
    /// The wait for a reply elapsed.
    Timeout,
}

/// Where a reply to an event can go: the identity fields the event carries
/// decide the scope, from the most specific (a guild channel) down to a
/// private chat; an event with none is unreplyable.
pub enum ReplySign {
    Private(Vec<char>),
    Group(Vec<char>, Vec<char>),
    Channel(Vec<char>, Vec<char>, Vec<char>),
    UnReplyAble,
}

/// The view of a reply scope.
pub ghost enum ReplySignV {
    Private(Seq<char>),
    Group(Seq<char>, Seq<char>),
    Channel(Seq<char>, Seq<char>, Seq<char>),
    UnReplyAble,
}

impl View for ReplySign {
    type V = ReplySignV;

    open spec fn view(&self) -> ReplySignV {
        match self {
            ReplySign::Private(u) => ReplySignV::Private(u@),
            ReplySign::Group(g, u) => ReplySignV::Group(g@, u@),
            ReplySign::Channel(g, c, u) => ReplySignV::Channel(g@, c@, u@),
            ReplySign::UnReplyAble => ReplySignV::UnReplyAble,
        }
    }
}

/// The reply scope of an event: channel when guild, channel and sender are
/// all present; else group when group and sender are present; else private
/// when a sender is present; else unreplyable.
pub open spec fn reply_sign_of(e: EventV) -> ReplySignV {
    if e.guild_id is Some && e.channel_id is Some && e.user_id is Some {
        ReplySignV::Channel(e.guild_id->Some_0, e.channel_id->Some_0, e.user_id->Some_0)
    } else if e.group_id is Some && e.user_id is Some {
        ReplySignV::Group(e.group_id->Some_0, e.user_id->Some_0)
    } else if e.user_id is Some {
        ReplySignV::Private(e.user_id->Some_0)
    } else {
        ReplySignV::UnReplyAble
    }
}

/// The correlation key a conversational wait is registered under: a tag
/// naming the reply scope's kind, then the scope's identity, qualified by
/// the asking user when `this_user_only` holds. The tag keeps waits in
/// different scopes from ever colliding on a raw id. An unreplyable scope
/// has no key.
pub open spec fn correlation_key_of(sign: ReplySignV, this_user_only: bool) -> Option<Seq<char>> {
    match sign {
        ReplySignV::Private(u) => Some(seq!['p', ':'] + u),
        ReplySignV::Group(g, u) => if this_user_only {
            Some(seq!['g', ':'] + g + seq![':'] + u)
        } else {
            Some(seq!['g', ':'] + g)
        },
        ReplySignV::Channel(g, c, u) => if this_user_only {
            Some(seq!['c', ':'] + g + seq![':'] + c + seq![':'] + u)
        } else {
            Some(seq!['c', ':'] + g + seq![':'] + c)
        },
        ReplySignV::UnReplyAble => None,
    }
}

/// The outbound send that answers within a reply scope: a private scope
/// addresses the sender, a group scope the group, a channel scope the
/// channel; an unreplyable scope has no send.
pub open spec fn reply_action_of(sign: ReplySignV, msg: Seq<crate::event::SegV>) -> Option<
    SendMessageV,
> {
    match sign {
        ReplySignV::Private(u) => Some(
            SendMessageV {
                detail_type: private_chars(),
                user_id: Some(u),
                group_id: None,
                guild_id: None,
                channel_id: None,
                message: msg,
            },
        ),
        ReplySignV::Group(g, _u) => Some(
            SendMessageV {
                detail_type: group_chars(),
                user_id: None,
                group_id: Some(g),
                guild_id: None,
                channel_id: None,
                message: msg,
            },
        ),
        ReplySignV::Channel(g, c, _u) => Some(
            SendMessageV {
                detail_type: channel_chars(),
                user_id: None,
                group_id: None,
                guild_id: Some(g),
                channel_id: Some(c),
                message: msg,
            },
        ),
        ReplySignV::UnReplyAble => None,
    }
}

/// The one-shot handler a conversational wait registers: `handler` (the
/// terminal that accepts the reply) gated behind the caller's extra
/// predicate joined with the identity rules of the reply scope. The sender
/// is checked only under `this_user_only`, except in a private scope where
/// it always is.
pub open spec fn ruled_chain(
    sign: ReplySign,
    handler: MatcherHandler,
    extra: PreHandler,
    this_user_only: bool,
) -> Option<MatcherHandler> {
    match sign {
        ReplySign::Private(u) => Some(
            MatcherHandler::LayeredPreHandler(
                Box::new(
                    LayeredPreHandler {
                        pre: PreHandler::WithRule(
                            Box::new(
                                JoinedPreHandlerRule(
                                    extra,
                                    Rule::UserId(UserIdChecker { user_id: u }),
                                ),
                            ),
                        ),
                        before: true,
                        handler,
                    },
                ),
            ),
        ),
        ReplySign::Group(g, u) => {
            let pre = if this_user_only {
                PreHandler::WithRule(
                    Box::new(
                        JoinedPreHandlerRule(
                            PreHandler::WithRule(
                                Box::new(
                                    JoinedPreHandlerRule(
                                        extra,
                                        Rule::UserId(UserIdChecker { user_id: u }),
                                    ),
                                ),
                            ),
                            Rule::GroupId(GroupIdChecker { group_id: g }),
                        ),
                    ),
                )
            } else {
                PreHandler::WithRule(
                    Box::new(
                        JoinedPreHandlerRule(extra, Rule::GroupId(GroupIdChecker { group_id: g })),
                    ),
                )
            };
            Some(
                MatcherHandler::LayeredPreHandler(
                    Box::new(LayeredPreHandler { pre, before: true, handler }),
                ),
            )
        },
        ReplySign::Channel(g, c, u) => {
            let pre = if this_user_only {
                PreHandler::WithRule(
                    Box::new(
                        JoinedPreHandlerRule(
                            PreHandler::WithRule(
                                Box::new(
                                    JoinedPreHandlerRule(
                                        extra,
                                        Rule::UserId(UserIdChecker { user_id: u }),
                                    ),
                                ),
                            ),
                            Rule::ChannelId(ChannelIdChecker { guild_id: g, channel_id: c }),
                        ),
                    ),
                )
            } else {
                PreHandler::WithRule(
                    Box::new(
                        JoinedPreHandlerRule(
                            extra,
                            Rule::ChannelId(ChannelIdChecker { guild_id: g, channel_id: c }),
                        ),
                    ),
                )
            };
            Some(
                MatcherHandler::LayeredPreHandler(
                    Box::new(LayeredPreHandler { pre, before: true, handler }),
                ),
            )
        },
        ReplySign::UnReplyAble => None,
    }
}

impl ReplySign {
    /// Derives the reply scope of an event.
    pub fn new(event: &Event) -> (r: ReplySign)
        ensures
            r@ == reply_sign_of(event@),
    {
        match (&event.extra.guild_id, &event.extra.channel_id, &event.extra.user_id) {
            (Some(g), Some(c), Some(u)) => ReplySign::Channel(
                clone_chars(g),
                clone_chars(c),
                clone_chars(u),
            ),
            _ => {
                match (&event.extra.group_id, &event.extra.user_id) {
                    (Some(g), Some(u)) => ReplySign::Group(clone_chars(g), clone_chars(u)),
                    _ => {
                        match &event.extra.user_id {
                            Some(u) => ReplySign::Private(clone_chars(u)),
                            None => ReplySign::UnReplyAble,
                        }
                    },
                }
            },
        }
    }

    /// Builds the correlation key of this scope.
    pub fn correlation_key(&self, this_user_only: bool) -> (r: Option<Vec<char>>)
        ensures
            match correlation_key_of(self@, this_user_only) {
                Some(kv) => r matches Some(k) && k@ == kv,
                None => r is None,
            },
    {
        match self {
            ReplySign::Private(u) => {
                let mut k: Vec<char> = Vec::new();
                k.push('p');
                k.push(':');
                proof {
                    assert(k@ =~= seq!['p', ':']);
                }
                append_chars(&mut k, u);
                Some(k)
            },
            ReplySign::Group(g, u) => {
                let mut k: Vec<char> = Vec::new();
                k.push('g');
                k.push(':');
                proof {
                    assert(k@ =~= seq!['g', ':']);
                }
                append_chars(&mut k, g);
                if this_user_only {
                    k.push(':');
                    proof {
                        assert(k@ =~= seq!['g', ':'] + g@ + seq![':']);
                    }
                    append_chars(&mut k, u);
                }
                Some(k)
            },
            ReplySign::Channel(g, c, u) => {
                let mut k: Vec<char> = Vec::new();
                k.push('c');
                k.push(':');
                proof {
                    assert(k@ =~= seq!['c', ':']);
                }
                append_chars(&mut k, g);
                k.push(':');
                proof {
                    assert(k@ =~= seq!['c', ':'] + g@ + seq![':']);
                }
                append_chars(&mut k, c);
                if this_user_only {
                    k.push(':');
                    proof {
                        assert(k@ =~= seq!['c', ':'] + g@ + seq![':'] + c@ + seq![':']);
                    }
                    append_chars(&mut k, u);
                }
                Some(k)
            },
            ReplySign::UnReplyAble => None,
        }
    }

    /// Wraps `handler` with this scope's identity rules around the caller's
    /// extra predicate; an unreplyable scope has nothing to wrap for.
    pub fn ruled(self, handler: MatcherHandler, extra: PreHandler, this_user_only: bool) -> (r:
        Result<MatcherHandler, SessionError>)
        ensures
            match ruled_chain(self, handler, extra, this_user_only) {
                Some(h) => r matches Ok(h2) && h2 == h,
                None => r matches Err(e) && e == SessionError::Unreplyable,
            },
    {
        match self {
            ReplySign::Private(u) => Ok(
                extra.with_rule(crate::rule::user_id_check(u)).layer(handler, true),
            ),
            ReplySign::Group(g, u) => {
                if this_user_only {
                    Ok(
                        extra.with_rule(crate::rule::user_id_check(u)).with_rule(
                            crate::rule::group_id_check(g),
                        ).layer(handler, true),
                    )
                } else {
                    Ok(extra.with_rule(crate::rule::group_id_check(g)).layer(handler, true))
                }
            },
            ReplySign::Channel(g, c, u) => {
                if this_user_only {
                    Ok(
                        extra.with_rule(crate::rule::user_id_check(u)).with_rule(
                            crate::rule::channel_id_check(g, c),
                        ).layer(handler, true),
                    )
                } else {
                    Ok(extra.with_rule(crate::rule::channel_id_check(g, c)).layer(handler, true))
                }
            },
            ReplySign::UnReplyAble => Err(SessionError::Unreplyable),
        }
    }
}

impl Session {
    /// A fresh session around one event.
    pub fn new(event: Event, config: MatchersConfig) -> (r: Session)
        ensures
            r@.event == event@,
            r@.config == config@,
    {
        Session { event, config }
    }

    /// Builds the outbound send that answers this session's event within its
    /// reply scope. An event without a usable identity is refused at once:
    /// nothing is sent for it.
    pub fn reply(&self, message: Vec<MsgSegment>) -> (r: Result<Action, SessionError>)
        ensures
            match reply_action_of(reply_sign_of(self@.event), msg_view(message@)) {
                Some(a) => r matches Ok(act) && act@ == ActionV::SendMessage(a),
                None => r matches Err(e) && e == SessionError::Unreplyable,
            },
    {
        match ReplySign::new(&self.event) {
            ReplySign::Private(u) => Ok(
                Action::SendMessage(
                    SendMessageAction {
                        detail_type: private_vec(),
                        user_id: Some(u),
                        group_id: None,
                        guild_id: None,
                        channel_id: None,
                        message,
                    },
                ),
            ),
            ReplySign::Group(g, _u) => Ok(
                Action::SendMessage(
                    SendMessageAction {
                        detail_type: group_vec(),
                        user_id: None,
                        group_id: Some(g),
                        guild_id: None,
                        channel_id: None,
                        message,
                    },
                ),
            ),
            ReplySign::Channel(g, c, _u) => Ok(
                Action::SendMessage(
                    SendMessageAction {
                        detail_type: channel_vec(),
                        user_id: None,
                        group_id: None,
                        guild_id: Some(g),
                        channel_id: Some(c),
                        message,
                    },
                ),
            ),
            ReplySign::UnReplyAble => Err(SessionError::Unreplyable),
        }
    }

    /// A builder for a conversational exchange on this session, with no
    /// extra predicate and any replying user admitted. The wait bound has no
    /// canonical value: every exchange names its own.
    pub fn getter(&self, timeout: u64) -> (r: SessionGetter)
        ensures
            r == (SessionGetter {
                rule: Rule::Always,
                pre_handler: PreHandler::Nothing,
                this_user_only: false,
                timeout,
            }),
    {
        SessionGetter {
            rule: Rule::Always,
            pre_handler: PreHandler::Nothing,
            this_user_only: false,
            timeout,
        }
    }

    /// Begins a conversational exchange with no extra predicate; see
    /// [`SessionGetter::get`].
    pub fn get(&self, temps: &mut TempMatchers, timeout: u64, message: Vec<MsgSegment>) -> (r:
        Result<(PendingGet, Action), SessionError>)
        requires
            old(temps).wf(),
        ensures
            final(temps).wf(),
            get_begin_post(
                self.spec_getter(timeout),
                *self,
                *old(temps),
                *final(temps),
                msg_view(message@),
                r,
            ),
    {
        self.getter(timeout).get(self, temps, message)
    }

    /// The builder [`Session::getter`] yields, as a spec value.
    pub open spec fn spec_getter(&self, timeout: u64) -> SessionGetter {
        SessionGetter {
            rule: Rule::Always,
            pre_handler: PreHandler::Nothing,
            this_user_only: false,
            timeout,
        }
    }
}

/// A conversational exchange under construction: the extra predicate a reply
/// must satisfy, whether only the asking user may answer, and the wait
/// bound, in seconds, that the runtime must enforce.
pub struct SessionGetter {
    pub rule: Rule,
    pub pre_handler: PreHandler,
    pub this_user_only: bool,
    pub timeout: u64,
}

/// A begun conversational wait: the key its one-shot matcher sits under and
/// the wait bound the runtime enforces. It ends in exactly one of two ways:
/// the reply event arrives ([`PendingGet::complete`]) or the wait elapses
/// ([`PendingGet::on_timeout`]).
pub struct PendingGet {
    pub key: Vec<char>,
    pub timeout: u64,
}

/// What beginning a conversational exchange guarantees: it succeeds exactly
/// when the event is replyable and no wait is pending under the same key.
/// On success the one-shot matcher is registered under the scope's key and
/// the prompt's send action is handed back; on failure the table is
/// untouched and no send is produced.
pub open spec fn get_begin_post(
    g: SessionGetter,
    session: Session,
    temps_before: TempMatchers,
    temps_after: TempMatchers,
    msg: Seq<crate::event::SegV>,
    r: Result<(PendingGet, Action), SessionError>,
) -> bool {
    let sign_v = reply_sign_of(session@.event);
    let key_o = correlation_key_of(sign_v, g.this_user_only);
    let act_o = reply_action_of(sign_v, msg);
    match r {
        Ok(pa) => {
            &&& key_o matches Some(kv) && pa.0.key@ == kv && !temps_before.spec_contains_key(kv)
                && temps_after.spec_contains_key(kv)
            &&& pa.0.timeout == g.timeout
            &&& act_o matches Some(a) && pa.1@ == ActionV::SendMessage(a)
            &&& exists|e: TempEntry|
                {
                    &&& #[trigger] temps_after.entries@ == temps_before.entries@.push(e)
                    &&& e.key@ == key_o->Some_0
                    &&& exists|sign: ReplySign|
                        sign@ == sign_v && Some(e.handler) == #[trigger] ruled_chain(
                            sign,
                            MatcherHandler::Handler(
                                BoxedMatcherHandler {
                                    payload: PayloadKind::Any,
                                    signal: Signal::MatchAndBlock,
                                },
                            ),
                            PreHandler::WithRule(
                                Box::new(JoinedPreHandlerRule(g.pre_handler, g.rule)),
                            ),
                            g.this_user_only,
                        )
                }
        },
        Err(e) => {
            &&& temps_after == temps_before
            &&& e != SessionError::Timeout
            &&& (e == SessionError::Unreplyable <==> sign_v is UnReplyAble)
            &&& (e == SessionError::KeyOccupied <==> !(sign_v is UnReplyAble)
                && temps_before.spec_contains_key(key_o->Some_0))
        },
    }
}

impl SessionGetter {
    /// Adds a rule a reply must satisfy, beside the ones already set.
    pub fn with_rule(self, rule: Rule) -> (r: SessionGetter)
        ensures
            r == (SessionGetter {
                rule: Rule::Joined(Box::new(JoinedRule(self.rule, rule))),
                ..self
            }),
    {
        SessionGetter {
            rule: self.rule.with(rule),
            pre_handler: self.pre_handler,
            this_user_only: self.this_user_only,
            timeout: self.timeout,
        }
    }

    /// Adds a pre-handler a reply must satisfy, beside the ones already set.
    pub fn with_pre_handler(self, pre_handler: PreHandler) -> (r: SessionGetter)
        ensures
            r == (SessionGetter {
                pre_handler: PreHandler::Joined(
                    Box::new(JoinedPreHandler(self.pre_handler, pre_handler)),
                ),
                ..self
            }),
    {
        SessionGetter {
            rule: self.rule,
            pre_handler: self.pre_handler.with(pre_handler),
            this_user_only: self.this_user_only,
            timeout: self.timeout,
        }
    }

    /// Admits only the asking user's reply.
    pub fn this_user_only(self) -> (r: SessionGetter)
        ensures
            r == (SessionGetter { this_user_only: true, ..self }),
    {
        SessionGetter {
            rule: self.rule,
            pre_handler: self.pre_handler,
            this_user_only: true,
            timeout: self.timeout,
        }
    }

    /// Sets the wait bound, in seconds.
    pub fn timeout(self, timeout: u64) -> (r: SessionGetter)
        ensures
            r == (SessionGetter { timeout, ..self }),
    {
        SessionGetter {
            rule: self.rule,
            pre_handler: self.pre_handler,
            this_user_only: self.this_user_only,
            timeout,
        }
    }

    /// Begins the conversational exchange: derives the reply scope's
    /// correlation key, registers the one-shot matcher under it, and yields
    /// the prompt's send action together with the pending wait. The runtime
    /// sends the prompt and awaits the reply within the wait bound; a
    /// delivered reply goes to [`PendingGet::complete`], an elapsed wait to
    /// [`PendingGet::on_timeout`]. An unreplyable event, or a key already
    /// pending, is refused with the table untouched and nothing sent.
    pub fn get(self, session: &Session, temps: &mut TempMatchers, message: Vec<MsgSegment>) -> (r:
        Result<(PendingGet, Action), SessionError>)
        requires
            old(temps).wf(),
        ensures
            final(temps).wf(),
            get_begin_post(self, *session, *old(temps), *final(temps), msg_view(message@), r),
    {
        let sign = ReplySign::new(&session.event);
        let key = match sign.correlation_key(self.this_user_only) {
            Some(k) => k,
            None => {
                return Err(SessionError::Unreplyable);
            },
        };
        if temps.contains_key(&key) {
            return Err(SessionError::KeyOccupied);
        }
        let ghost gsign = sign;
        let SessionGetter { rule, pre_handler, this_user_only, timeout } = self;
        let extra = pre_handler.with_rule(rule);
        let chain = match sign.ruled(
            matcher(PayloadKind::Any, Signal::MatchAndBlock),
            extra,
            this_user_only,
        ) {
            Ok(c) => c,
            Err(_) => {
                proof {
                    assert(false);
                }
                return Err(SessionError::Unreplyable);
            },
        };
        let entry_key = clone_chars(&key);
        let ghost entry = TempEntry { key: entry_key, handler: chain };
        let inserted = temps.insert(entry_key, chain);
        proof {
            assert(inserted);
        }
        let act = match session.reply(message) {
            Ok(a) => a,
            Err(_) => {
                proof {
                    assert(false);
                }
                return Err(SessionError::Unreplyable);
            },
        };
        proof {
            assert(temps.entries@ == old(temps).entries@.push(entry));
            assert(temps.spec_contains_key(entry.key@)) by {
                assert(temps.entries@[temps.entries@.len() - 1] == entry);
            }
            assert(Some(entry.handler) == ruled_chain(
                gsign,
                MatcherHandler::Handler(
                    BoxedMatcherHandler { payload: PayloadKind::Any, signal: Signal::MatchAndBlock },
                ),
                PreHandler::WithRule(Box::new(JoinedPreHandlerRule(self.pre_handler, self.rule))),
                self.this_user_only,
            ));
        }
        Ok((PendingGet { key, timeout }, act))
    }
}

impl PendingGet {
    /// The reply arrived in time: the session adopts the reply event, with
    /// the rewrites the one-shot matcher's pre-handlers made, so the rest of
    /// the conversation operates on the new message. The one-shot matcher
    /// was already consumed by the dispatch that delivered the reply.
    pub fn complete(self, session: &mut Session, reply: Event)
        ensures
            final(session).event == reply,
            final(session).config == old(session).config,
    {
        session.event = reply;
    }

    /// The wait elapsed with no reply: the stale one-shot matcher is removed
    /// from the table, so it can never consume a later, unrelated event, and
    /// the timeout is reported.
    pub fn on_timeout(self, temps: &mut TempMatchers) -> (r: SessionError)
        requires
            old(temps).wf(),
        ensures
            final(temps).wf(),
            r == SessionError::Timeout,
            !final(temps).spec_contains_key(self.key@),
            match key_index(old(temps).entries@, self.key@) {
                None => *final(temps) == *old(temps),
                Some(i) => final(temps).entries@ == old(temps).entries@.remove(i),
            },
    {
        temps.remove(&self.key);
        SessionError::Timeout
    }
}

} // verus!
