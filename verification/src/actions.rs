//! The outbound requests the core hands to the action-calling capability.
//! The capability itself (transport, serialization) is an external
//! collaborator; the core only builds these values.

use vstd::prelude::*;

use crate::event::msg_view;
use crate::event::MsgSegment;
use crate::event::SegV;
use crate::text::opt_chars;

verus! {

/// A request to send a message into one chat scope.
pub struct SendMessageAction {
    pub detail_type: Vec<char>,
    pub user_id: Option<Vec<char>>,
    pub group_id: Option<Vec<char>>,
    pub guild_id: Option<Vec<char>>,
    pub channel_id: Option<Vec<char>>,
    pub message: Vec<MsgSegment>,
}

/// A request to accept or refuse a friend request.
pub struct SetNewFriend {
    pub user_id: Vec<char>,
    pub request_id: i64,
    pub accept: bool,
}

/// A request to remove a friend.
pub struct DeleteFriend {
    pub user_id: Vec<char>,
}

/// An outbound action.
pub enum Action {
    SendMessage(SendMessageAction),
    SetNewFriend(SetNewFriend),
    DeleteFriend(DeleteFriend),
}

/// The view of a send-message request.
pub ghost struct SendMessageV {
    pub detail_type: Seq<char>,
    pub user_id: Option<Seq<char>>,
    pub group_id: Option<Seq<char>>,
    pub guild_id: Option<Seq<char>>,
    pub channel_id: Option<Seq<char>>,
    pub message: Seq<SegV>,
}

/// The view of a friend-request answer.
pub ghost struct SetNewFriendV {
    pub user_id: Seq<char>,
    pub request_id: i64,
    pub accept: bool,
}

/// The view of a friend removal.
pub ghost struct DeleteFriendV {
    pub user_id: Seq<char>,
}

/// The view of an outbound action.
pub ghost enum ActionV {
    SendMessage(SendMessageV),
    SetNewFriend(SetNewFriendV),
    DeleteFriend(DeleteFriendV),
}

impl View for SendMessageAction {
    type V = SendMessageV;

    open spec fn view(&self) -> SendMessageV {
        SendMessageV {
            detail_type: self.detail_type@,
            user_id: opt_chars(self.user_id),
            group_id: opt_chars(self.group_id),
            guild_id: opt_chars(self.guild_id),
            channel_id: opt_chars(self.channel_id),
            message: msg_view(self.message@),
        }
    }
}

impl View for SetNewFriend {
    type V = SetNewFriendV;

    open spec fn view(&self) -> SetNewFriendV {
        SetNewFriendV {
            user_id: self.user_id@,
            request_id: self.request_id,
            accept: self.accept,
        }
    }
}

impl View for DeleteFriend {
    type V = DeleteFriendV;

    open spec fn view(&self) -> DeleteFriendV {
        DeleteFriendV { user_id: self.user_id@ }
    }
}

impl View for Action {
    type V = ActionV;

    open spec fn view(&self) -> ActionV {
        match self {
            Action::SendMessage(a) => ActionV::SendMessage(a@),
            Action::SetNewFriend(a) => ActionV::SetNewFriend(a@),
            Action::DeleteFriend(a) => ActionV::DeleteFriend(a@),
        }
    }
}

} // verus!
