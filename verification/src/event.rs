//! The inbound event model: the plain values that the dispatch core reads
//! from a normalized chat event, together with its mathematical view.

use vstd::prelude::*;

use crate::text::opt_chars;

verus! {

/// One segment of a chat message. The core only distinguishes text segments
/// (whose text the pre-handlers may rewrite), mention segments (which the
/// "to-me" detection inspects and may remove), and everything else.
pub enum MsgSegment {
    Text { text: Vec<char> },
    Mention { user_id: Vec<char> },
    Other,
}

/// The view of a message segment.
pub ghost enum SegV {
    Text(Seq<char>),
    Mention(Seq<char>),
    Other,
}

impl View for MsgSegment {
    type V = SegV;

    open spec fn view(&self) -> SegV {
        match self {
            MsgSegment::Text { text } => SegV::Text(text@),
            MsgSegment::Mention { user_id } => SegV::Mention(user_id@),
            MsgSegment::Other => SegV::Other,
        }
    }
}

/// The view of a whole segment list.
pub open spec fn msg_view(m: Seq<MsgSegment>) -> Seq<SegV> {
    m.map_values(|s: MsgSegment| s@)
}

/// The view of an optional segment list.
pub open spec fn opt_msg_view(m: Option<Vec<MsgSegment>>) -> Option<Seq<SegV>> {
    match m {
        Some(v) => Some(msg_view(v@)),
        None => None,
    }
}

/// The open extension fields of an event, reduced to what the core reads:
/// the identity fields that decide where a reply can go, the bot's own
/// identity, the message segments, and the plain-text rendering of the
/// message. A field an event does not carry is `None`.
pub struct EventExtra {
    pub user_id: Option<Vec<char>>,
    pub group_id: Option<Vec<char>>,
    pub guild_id: Option<Vec<char>>,
    pub channel_id: Option<Vec<char>>,
    /// The bot identity this event was delivered to.
    pub self_id: Option<Vec<char>>,
    pub message: Option<Vec<MsgSegment>>,
    pub alt_message: Option<Vec<char>>,
}

/// An inbound event: a unique id, a timestamp, the type triple, and the
/// extension fields.
pub struct Event {
    pub id: Vec<char>,
    pub time: u64,
    pub ty: Vec<char>,
    pub detail_type: Vec<char>,
    pub sub_type: Vec<char>,
    pub extra: EventExtra,
}

/// The view of an event.
pub ghost struct EventV {
    pub id: Seq<char>,
    pub time: u64,
    pub ty: Seq<char>,
    pub detail_type: Seq<char>,
    pub sub_type: Seq<char>,
    pub user_id: Option<Seq<char>>,
    pub group_id: Option<Seq<char>>,
    pub guild_id: Option<Seq<char>>,
    pub channel_id: Option<Seq<char>>,
    pub self_id: Option<Seq<char>>,
    pub message: Option<Seq<SegV>>,
    pub alt_message: Option<Seq<char>>,
}

impl View for Event {
    type V = EventV;

    open spec fn view(&self) -> EventV {
        EventV {
            id: self.id@,
            time: self.time,
            ty: self.ty@,
            detail_type: self.detail_type@,
            sub_type: self.sub_type@,
            user_id: opt_chars(self.extra.user_id),
            group_id: opt_chars(self.extra.group_id),
            guild_id: opt_chars(self.extra.guild_id),
            channel_id: opt_chars(self.extra.channel_id),
            self_id: opt_chars(self.extra.self_id),
            message: opt_msg_view(self.extra.message),
            alt_message: opt_chars(self.extra.alt_message),
        }
    }
}

impl EventV {
    /// This event with its message replaced: the only part of an event a
    /// pre-handler may rewrite.
    pub open spec fn with_message(self, m: Option<Seq<SegV>>) -> EventV {
        EventV { message: m, ..self }
    }

    /// The plain-text rendering, an empty text standing in for a missing one.
    pub open spec fn alt_or_empty(self) -> Seq<char> {
        match self.alt_message {
            Some(a) => a,
            None => Seq::empty(),
        }
    }

    /// The bot's own user id, an empty id standing in for a missing one.
    pub open spec fn self_id_or_empty(self) -> Seq<char> {
        match self.self_id {
            Some(s) => s,
            None => Seq::empty(),
        }
    }

    /// The sender's user id, an empty id standing in for a missing one.
    pub open spec fn user_id_or_empty(self) -> Seq<char> {
        match self.user_id {
            Some(s) => s,
            None => Seq::empty(),
        }
    }

    /// The group id, an empty id standing in for a missing one.
    pub open spec fn group_id_or_empty(self) -> Seq<char> {
        match self.group_id {
            Some(s) => s,
            None => Seq::empty(),
        }
    }
}

/// The characters of the detail type that marks a direct chat.
pub open spec fn private_chars() -> Seq<char> {
    seq!['p', 'r', 'i', 'v', 'a', 't', 'e']
}

/// The characters of the detail type that marks a group chat.
pub open spec fn group_chars() -> Seq<char> {
    seq!['g', 'r', 'o', 'u', 'p']
}

/// The characters of the detail type that marks a guild-channel chat.
pub open spec fn channel_chars() -> Seq<char> {
    seq!['c', 'h', 'a', 'n', 'n', 'e', 'l']
}

/// The characters of the event type that marks a chat message.
pub open spec fn message_chars() -> Seq<char> {
    seq!['m', 'e', 's', 's', 'a', 'g', 'e']
}

pub fn private_vec() -> (r: Vec<char>)
    ensures
        r@ == private_chars(),
{
    let mut v: Vec<char> = Vec::new();
    v.push('p');
    v.push('r');
    v.push('i');
    v.push('v');
    v.push('a');
    v.push('t');
    v.push('e');
    proof {
        assert(v@ =~= private_chars());
    }
    v
}

pub fn group_vec() -> (r: Vec<char>)
    ensures
        r@ == group_chars(),
{
    let mut v: Vec<char> = Vec::new();
    v.push('g');
    v.push('r');
    v.push('o');
    v.push('u');
    v.push('p');
    proof {
        assert(v@ =~= group_chars());
    }
    v
}

pub fn channel_vec() -> (r: Vec<char>)
    ensures
        r@ == channel_chars(),
{
    let mut v: Vec<char> = Vec::new();
    v.push('c');
    v.push('h');
    v.push('a');
    v.push('n');
    v.push('n');
    v.push('e');
    v.push('l');
    proof {
        assert(v@ =~= channel_chars());
    }
    v
}

pub fn message_vec() -> (r: Vec<char>)
    ensures
        r@ == message_chars(),
{
    let mut v: Vec<char> = Vec::new();
    v.push('m');
    v.push('e');
    v.push('s');
    v.push('s');
    v.push('a');
    v.push('g');
    v.push('e');
    proof {
        assert(v@ =~= message_chars());
    }
    v
}

impl Clone for MsgSegment {
    /// A copy of the segment with the same view.
    fn clone(&self) -> (r: Self)
        ensures
            r@ == self@,
    {
        match self {
            MsgSegment::Text { text } => MsgSegment::Text { text: crate::text::clone_chars(text) },
            MsgSegment::Mention { user_id } => MsgSegment::Mention {
                user_id: crate::text::clone_chars(user_id),
            },
            MsgSegment::Other => MsgSegment::Other,
        }
    }
}

/// A copy of a segment list with the same view.
pub fn clone_segments(m: &Vec<MsgSegment>) -> (r: Vec<MsgSegment>)
    ensures
        msg_view(r@) == msg_view(m@),
{
    let mut r: Vec<MsgSegment> = Vec::new();
    let mut i: usize = 0;
    while i < m.len()
        invariant
            i <= m@.len(),
            r@.len() == i,
            forall|j: int| 0 <= j < i ==> r@[j]@ == m@[j]@,
        decreases m@.len() - i,
    {
        r.push(m[i].clone());
        i = i + 1;
    }
    proof {
        assert(msg_view(r@) =~= msg_view(m@));
    }
    r
}

impl Clone for Event {
    /// A copy of the event with the same view.
    fn clone(&self) -> (r: Self)
        ensures
            r@ == self@,
    {
        Event {
            id: crate::text::clone_chars(&self.id),
            time: self.time,
            ty: crate::text::clone_chars(&self.ty),
            detail_type: crate::text::clone_chars(&self.detail_type),
            sub_type: crate::text::clone_chars(&self.sub_type),
            extra: EventExtra {
                user_id: crate::text::clone_opt_chars(&self.extra.user_id),
                group_id: crate::text::clone_opt_chars(&self.extra.group_id),
                guild_id: crate::text::clone_opt_chars(&self.extra.guild_id),
                channel_id: crate::text::clone_opt_chars(&self.extra.channel_id),
                self_id: crate::text::clone_opt_chars(&self.extra.self_id),
                message: match &self.extra.message {
                    Some(m) => Some(clone_segments(m)),
                    None => None,
                },
                alt_message: crate::text::clone_opt_chars(&self.extra.alt_message),
            },
        }
    }
}

} // verus!
