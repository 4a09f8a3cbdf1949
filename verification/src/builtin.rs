//! Ready-made matcher constructors: the usual ways of gating a handler
//! behind a command prefix, a literal start, or addressing of the bot, and
//! the declarative dispatch over a list of command prefixes.

use vstd::prelude::*;

use crate::event::msg_view;
use crate::event::MsgSegment;
use crate::event::SegV;
use crate::handle::LayeredPreHandler;
use crate::handle::LayeredRule;
use crate::handle::MatcherHandler;
use crate::pre_handle::command_msg;
use crate::pre_handle::find_first_text;
use crate::pre_handle::first_nick_index;
use crate::pre_handle::first_text_index;
use crate::pre_handle::lemma_first_nick_index;
use crate::pre_handle::JoinedPreHandler;
use crate::pre_handle::PreHandler;
use crate::pre_handle::StripPrefix;
use crate::rule::Rule;
use crate::signal::Signal;
use crate::text::chars_start_with;
use crate::text::starts_with;

pub use crate::pre_handle::mention_me;
pub use crate::pre_handle::mention_user;
pub use crate::pre_handle::strip_command;
pub use crate::pre_handle::strip_prefix;
pub use crate::pre_handle::to_me;
pub use crate::pre_handle::trim;
pub use crate::rule::channel_id_check;
pub use crate::rule::group_id_check;
pub use crate::rule::mention_me_rule;
pub use crate::rule::start_with;
pub use crate::rule::to_me_rule;
pub use crate::rule::user_id_check;

verus! {

/// Gates `handler` behind a command: whitespace is trimmed, then the literal
/// `command` prefix is stripped; only then does the handler's own pre-match
/// run, on the rewritten text.
pub fn on_command(command: Vec<char>, handler: MatcherHandler) -> (r: MatcherHandler)
    ensures
        r == MatcherHandler::LayeredPreHandler(
            Box::new(
                LayeredPreHandler {
                    pre: PreHandler::Joined(
                        Box::new(
                            JoinedPreHandler(
                                PreHandler::Trim { always_match: true },
                                PreHandler::StripPrefix(StripPrefix { prefix: command }),
                            ),
                        ),
                    ),
                    before: true,
                    handler,
                },
            ),
        ),
{
    crate::pre_handle::trim(true).with(crate::pre_handle::strip_prefix(command)).layer(
        handler,
        true,
    )
}

/// Gates `handler` behind a literal start of the plain-text rendering.
pub fn on_start_with(pat: Vec<char>, handler: MatcherHandler) -> (r: MatcherHandler)
    ensures
        r == MatcherHandler::LayeredRule(
            Box::new(LayeredRule { rule: Rule::StartWith { pat }, before: true, handler }),
        ),
{
    crate::rule::start_with(pat).layer(handler, true)
}

/// Gates `handler` behind addressing of the bot: whitespace is trimmed and
/// the mention or nickname prefix is removed before the handler's own
/// pre-match runs.
pub fn on_mention_me(handler: MatcherHandler) -> (r: MatcherHandler)
    ensures
        r == MatcherHandler::LayeredPreHandler(
            Box::new(
                LayeredPreHandler {
                    pre: PreHandler::Joined(
                        Box::new(
                            JoinedPreHandler(
                                PreHandler::Trim { always_match: true },
                                PreHandler::MentionMe,
                            ),
                        ),
                    ),
                    before: true,
                    handler,
                },
            ),
        ),
{
    crate::pre_handle::trim(true).with(crate::pre_handle::mention_me()).layer(handler, true)
}

/// Gates `handler` behind a private chat or addressing of the bot, with the
/// same trimming and removal.
pub fn on_to_me(handler: MatcherHandler) -> (r: MatcherHandler)
    ensures
        r == MatcherHandler::LayeredPreHandler(
            Box::new(
                LayeredPreHandler {
                    pre: PreHandler::Joined(
                        Box::new(
                            JoinedPreHandler(
                                PreHandler::Trim { always_match: true },
                                PreHandler::ToMe,
                            ),
                        ),
                    ),
                    before: true,
                    handler,
                },
            ),
        ),
{
    crate::pre_handle::trim(true).with(crate::pre_handle::to_me()).layer(handler, true)
}

/// The views of a list of command prefixes.
pub open spec fn prefix_views(ps: Seq<Vec<char>>) -> Seq<Seq<char>> {
    ps.map_values(|p: Vec<char>| p@)
}

/// Which of the given command prefixes the message selects: the first one
/// that prefixes the first text segment.
pub open spec fn command_choice(prefixes: Seq<Seq<char>>, msg: Seq<SegV>) -> Option<int> {
    match first_text_index(msg) {
        None => None,
        Some(i) => first_nick_index(prefixes, msg[i]->Text_0),
    }
}

/// Dispatches over a list of command prefixes: tries each in order against
/// the first text segment, strips the first one that fits (with the
/// whitespace after it, removing the segment when nothing is left), and
/// tags the match by returning its position. A message that selects no
/// prefix is left alone.
pub fn match_command(prefixes: &Vec<Vec<char>>, msg: &mut Vec<MsgSegment>) -> (r: Option<usize>)
    ensures
        ({
            let choice = command_choice(prefix_views(prefixes@), msg_view(old(msg)@));
            match r {
                None => choice is None && msg_view(final(msg)@) == msg_view(old(msg)@),
                Some(k) => {
                    &&& choice == Some(k as int)
                    &&& k < prefixes@.len()
                    &&& command_msg(msg_view(old(msg)@), prefixes@[k as int]@).0 == Signal::Matched
                    &&& msg_view(final(msg)@) == command_msg(
                        msg_view(old(msg)@),
                        prefixes@[k as int]@,
                    ).1
                },
            }
        }),
{
    match find_first_text(msg) {
        None => None,
        Some(i) => {
            proof {
                assert(msg_view(msg@)[i as int] == msg@[i as int]@);
            }
            let hit: Option<usize> = match &msg[i] {
                MsgSegment::Text { text } => {
                    let mut k: usize = 0;
                    let mut found: Option<usize> = None;
                    while k < prefixes.len() && found.is_none()
                        invariant
                            k <= prefixes@.len(),
                            match found {
                                None => forall|j: int|
                                    0 <= j < k ==> !starts_with(
                                        text@,
                                        #[trigger] prefix_views(prefixes@)[j],
                                    ),
                                Some(h) => h < prefixes@.len() && first_nick_index(
                                    prefix_views(prefixes@),
                                    text@,
                                ) == Some(h as int) && starts_with(
                                    text@,
                                    prefix_views(prefixes@)[h as int],
                                ),
                            },
                        decreases prefixes@.len() - k,
                    {
                        proof {
                            assert(prefix_views(prefixes@)[k as int] == prefixes@[k as int]@);
                        }
                        if chars_start_with(text, &prefixes[k]) {
                            proof {
                                lemma_first_nick_index(prefix_views(prefixes@), text@);
                            }
                            found = Some(k);
                        }
                        k = k + 1;
                    }
                    proof {
                        if found is None {
                            lemma_first_nick_index(prefix_views(prefixes@), text@);
                        }
                    }
                    found
                },
                _ => {
                    proof {
                        assert(false);
                    }
                    None
                },
            };
            match hit {
                None => None,
                Some(k) => {
                    let sig = crate::pre_handle::command_in_msg(msg, &prefixes[k]);
                    proof {
                        assert(prefix_views(prefixes@)[k as int] == prefixes@[k as int]@);
                    }
                    Some(k)
                },
            }
        },
    }
}

} // verus!
