//! Matcher handlers: the terminal unit of dispatch, wrapped in layers of
//! rules and pre-handlers that decide by a [`Signal`] whether the handler's
//! body fires. The body itself runs on a concurrent task outside this core;
//! dispatch depends only on the signal computation modelled here.

use vstd::prelude::*;

use crate::event::group_chars;
use crate::event::group_vec;
use crate::event::message_chars;
use crate::event::message_vec;
use crate::event::private_chars;
use crate::event::private_vec;
use crate::event::EventV;
use crate::pre_handle::pre_handle_eval;
use crate::pre_handle::PreHandler;
use crate::rule::rule_eval;
use crate::rule::Rule;
use crate::session::Session;
use crate::session::SessionV;
use crate::signal::Signal;
use crate::text::chars_eq;

verus! {

/// The closed set of typed payloads a handler can ask for. Dispatch parses
/// the opaque event into the requested shape; failure to fit is a routing
/// miss, never an error.
#[derive(Clone, Copy, Debug, PartialEq, Eq, Structural)]
pub enum PayloadKind {
    /// Any event fits.
    Any,
    /// A chat message: the event type says so and segments are present.
    Message,
    /// A chat message in a private chat, with a sender.
    PrivateMessage,
    /// A chat message in a group, with the group and a sender.
    GroupMessage,
}

/// Whether an event fits a payload shape.
pub open spec fn payload_fits(k: PayloadKind, e: EventV) -> bool {
    match k {
        PayloadKind::Any => true,
        PayloadKind::Message => e.ty == message_chars() && e.message is Some,
        PayloadKind::PrivateMessage => e.ty == message_chars() && e.message is Some
            && e.detail_type == private_chars() && e.user_id is Some,
        PayloadKind::GroupMessage => e.ty == message_chars() && e.message is Some
            && e.detail_type == group_chars() && e.group_id is Some && e.user_id is Some,
    }
}

/// The terminal handler behind the uniform boxed call: the payload shape it
/// parses the event into, and the signal its own pre-match declares when the
/// payload fits. An unset precondition is `NotMatch`, so a handler with no
/// declared condition never fires by accident.
pub struct BoxedMatcherHandler {
    pub payload: PayloadKind,
    pub signal: Signal,
}

/// A rule layered around a handler to gate it. With `before` the rule runs
/// first and a miss keeps the handler's own pre-match from running; without
/// it the handler's own pre-match runs first and a miss keeps the rule from
/// being consulted.
pub struct LayeredRule {
    pub rule: Rule,
    pub before: bool,
    pub handler: MatcherHandler,
}

/// A pre-handler layered around a handler, with the same `before` ordering;
/// the later predicate observes the rewrites of the earlier one.
pub struct LayeredPreHandler {
    pub pre: PreHandler,
    pub before: bool,
    pub handler: MatcherHandler,
}

/// A handler as the registry sees it: the terminal unit wrapped in gating
/// layers.
pub enum MatcherHandler {
    Handler(BoxedMatcherHandler),
    LayeredRule(Box<LayeredRule>),
    LayeredPreHandler(Box<LayeredPreHandler>),
}

/// What a handler yields on a session: the signal, and the session with the
/// rewrites its pre-handlers made. Once any layer reports a miss, nothing
/// further runs. Opaque: reasoning about whole chains goes through
/// [`MatcherHandler::handle`]'s contract; reveal it to unfold one layer.
#[verifier::opaque]
pub open spec fn handler_eval(h: MatcherHandler, s: SessionV) -> (Signal, SessionV)
    decreases h,
{
    match h {
        MatcherHandler::Handler(b) => (
            if payload_fits(b.payload, s.event) {
                b.signal
            } else {
                Signal::NotMatch
            },
            s,
        ),
        MatcherHandler::LayeredRule(l) => {
            if (*l).before {
                let s1 = rule_eval((*l).rule, s);
                if s1 == Signal::NotMatch {
                    (Signal::NotMatch, s)
                } else {
                    let r = handler_eval((*l).handler, s);
                    (r.0.spec_bitand(s1), r.1)
                }
            } else {
                let r = handler_eval((*l).handler, s);
                if r.0 == Signal::NotMatch {
                    (Signal::NotMatch, r.1)
                } else {
                    (r.0.spec_bitand(rule_eval((*l).rule, r.1)), r.1)
                }
            }
        },
        MatcherHandler::LayeredPreHandler(l) => {
            if (*l).before {
                let p = pre_handle_eval((*l).pre, s);
                if p.0 == Signal::NotMatch {
                    (Signal::NotMatch, p.1)
                } else {
                    let r = handler_eval((*l).handler, p.1);
                    (r.0.spec_bitand(p.0), r.1)
                }
            } else {
                let r = handler_eval((*l).handler, s);
                if r.0 == Signal::NotMatch {
                    (Signal::NotMatch, r.1)
                } else {
                    let p = pre_handle_eval((*l).pre, r.1);
                    (r.0.spec_bitand(p.0), p.1)
                }
            }
        },
    }
}

/// Checks whether the session's event fits a payload shape.
fn payload_check(k: &PayloadKind, session: &Session) -> (r: bool)
    ensures
        r == payload_fits(*k, session@.event),
{
    match k {
        PayloadKind::Any => true,
        PayloadKind::Message => {
            let mv = message_vec();
            chars_eq(&session.event.ty, &mv) && session.event.extra.message.is_some()
        },
        PayloadKind::PrivateMessage => {
            let mv = message_vec();
            let pv = private_vec();
            chars_eq(&session.event.ty, &mv) && session.event.extra.message.is_some() && chars_eq(
                &session.event.detail_type,
                &pv,
            ) && session.event.extra.user_id.is_some()
        },
        PayloadKind::GroupMessage => {
            let mv = message_vec();
            let gv = group_vec();
            chars_eq(&session.event.ty, &mv) && session.event.extra.message.is_some() && chars_eq(
                &session.event.detail_type,
                &gv,
            ) && session.event.extra.group_id.is_some() && session.event.extra.user_id.is_some()
        },
    }
}

impl MatcherHandler {
    /// Computes the handler's signal on a session, applying the rewrites of
    /// its pre-handler layers. A signal other than a miss means the terminal
    /// body fires (it is scheduled outside this core); dispatch never waits
    /// for it.
    pub fn handle(&self, session: &mut Session) -> (r: Signal)
        ensures
            ({
                let he = handler_eval(*self, old(session)@);
                r == he.0 && final(session)@ == he.1
            }),
        decreases self,
    {
        proof {
            reveal(handler_eval);
        }
        match self {
            MatcherHandler::Handler(b) => {
                if payload_check(&b.payload, session) {
                    b.signal
                } else {
                    Signal::NotMatch
                }
            },
            MatcherHandler::LayeredRule(l) => {
                let LayeredRule { rule, before, handler } = &**l;
                if *before {
                    let s1 = rule.rule(session);
                    if matches!(s1, Signal::NotMatch) {
                        Signal::NotMatch
                    } else {
                        let s2 = handler.handle(session);
                        s2.bitand(s1)
                    }
                } else {
                    let s2 = handler.handle(session);
                    if matches!(s2, Signal::NotMatch) {
                        Signal::NotMatch
                    } else {
                        let s1 = rule.rule(session);
                        s2.bitand(s1)
                    }
                }
            },
            MatcherHandler::LayeredPreHandler(l) => {
                let LayeredPreHandler { pre, before, handler } = &**l;
                if *before {
                    let s1 = pre.pre_handle(session);
                    if matches!(s1, Signal::NotMatch) {
                        Signal::NotMatch
                    } else {
                        let s2 = handler.handle(session);
                        s2.bitand(s1)
                    }
                } else {
                    let s2 = handler.handle(session);
                    if matches!(s2, Signal::NotMatch) {
                        Signal::NotMatch
                    } else {
                        let s1 = pre.pre_handle(session);
                        s2.bitand(s1)
                    }
                }
            },
        }
    }
}

/// The uniform terminal handler: parse the event into `payload` and declare
/// `signal` when it fits.
pub fn matcher(payload: PayloadKind, signal: Signal) -> (r: MatcherHandler)
    ensures
        r == MatcherHandler::Handler(BoxedMatcherHandler { payload, signal }),
{
    MatcherHandler::Handler(BoxedMatcherHandler { payload, signal })
}

impl Rule {
    /// Gates `handler` behind this rule. With `before` the rule is checked
    /// ahead of the handler's own pre-match.
    pub fn layer(self, handler: MatcherHandler, before: bool) -> (r: MatcherHandler)
        ensures
            r == MatcherHandler::LayeredRule(Box::new(LayeredRule { rule: self, before, handler })),
    {
        MatcherHandler::LayeredRule(Box::new(LayeredRule { rule: self, before, handler }))
    }
}

impl PreHandler {
    /// Gates `handler` behind this pre-handler. With `before` the rewrite
    /// runs ahead of the handler's own pre-match, which then observes it.
    pub fn layer(self, handler: MatcherHandler, before: bool) -> (r: MatcherHandler)
        ensures
            r == MatcherHandler::LayeredPreHandler(
                Box::new(LayeredPreHandler { pre: self, before, handler }),
            ),
    {
        MatcherHandler::LayeredPreHandler(Box::new(LayeredPreHandler { pre: self, before, handler }))
    }
}

} // verus!
