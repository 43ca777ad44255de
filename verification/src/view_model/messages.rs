//! The message panel: what the client shows of a room's conversation.

use vstd::prelude::*;

use crate::model::{Message as ModelMessage, MessageV as ModelMessageV, User, UserV};

verus! {

/// Who a displayed message is from: a participant, or the client itself
/// announcing something.
pub enum SomeUser {
    User(User),
    System,
}

/// Mathematical view of a [`SomeUser`].
#[verifier::ext_equal]
pub ghost enum SomeUserV {
    User(UserV),
    System,
}

impl View for SomeUser {
    type V = SomeUserV;

    open spec fn view(&self) -> SomeUserV {
        match self {
            SomeUser::User(u) => SomeUserV::User(u@),
            SomeUser::System => SomeUserV::System,
        }
    }
}

impl Clone for SomeUser {
    fn clone(&self) -> (r: Self)
        ensures
            r@ == self@,
    {
        match self {
            SomeUser::User(u) => SomeUser::User(u.clone()),
            SomeUser::System => SomeUser::System,
        }
    }
}

/// One displayed message.
pub struct Message {
    pub time: i64,
    pub content: String,
    pub user: SomeUser,
}

/// Mathematical view of a displayed [`Message`].
#[verifier::ext_equal]
pub ghost struct MessageVmV {
    pub time: int,
    pub content: Seq<char>,
    pub user: SomeUserV,
}

impl View for Message {
    type V = MessageVmV;

    open spec fn view(&self) -> MessageVmV {
        MessageVmV { time: self.time as int, content: self.content@, user: self.user@ }
    }
}

impl Clone for Message {
    fn clone(&self) -> (r: Self)
        ensures
            r@ == self@,
    {
        Message { time: self.time, content: self.content.clone(), user: self.user.clone() }
    }
}

/// How a stored chat message is displayed.
pub open spec fn displayed(m: ModelMessageV) -> MessageVmV {
    MessageVmV { time: m.time, content: m.content, user: SomeUserV::User(m.user) }
}

impl Message {
    pub fn new(time: i64, content: String, user: SomeUser) -> (r: Self)
        ensures
            r@ == (MessageVmV { time: time as int, content: content@, user: user@ }),
    {
        Message { time, content, user }
    }

    /// Displays a chat message received from the server.
    pub fn from_message(msg: ModelMessage) -> (r: Self)
        ensures
            r@ == displayed(msg@),
    {
        Message { time: msg.time, content: msg.content, user: SomeUser::User(msg.user) }
    }
}

/// Where the cursor of the message panel should scroll.
pub enum ScrollMove {
    Up,
    Down,
    PageUp,
}

/// The conversation panel: messages and scroll state.
pub struct ChatMessageViewModel {
    pub messages: Vec<Message>,
    pub scroll_pos: usize,
    pub scroll_to_pos: usize,
}

impl ChatMessageViewModel {
    /// An empty panel.
    pub fn new() -> (r: Self)
        ensures
            r.messages@ == Seq::<Message>::empty(),
            r.scroll_pos == 0,
            r.scroll_to_pos == 0,
    {
        let r = Self { messages: Vec::new(), scroll_pos: 0, scroll_to_pos: 0 };
        proof {
            assert(r.messages@ =~= Seq::<Message>::empty());
        }
        r
    }

    /// Requests a scroll to the latest message.
    pub fn scroll_to_end(&mut self)
        ensures
            final(self).messages == old(self).messages,
            final(self).scroll_pos == old(self).scroll_pos,
            final(self).scroll_to_pos == old(self).messages@.len(),
    {
        self.scroll_to_pos = self.messages.len();
    }

    /// Scrolls one line up or down; a page-up request leaves the position
    /// alone.
    pub fn messages_scroll(&mut self, movement: ScrollMove)
        requires
            old(self).scroll_pos < usize::MAX,
        ensures
            final(self).messages == old(self).messages,
            final(self).scroll_to_pos == old(self).scroll_to_pos,
            final(self).scroll_pos == (match movement {
                ScrollMove::Up => if old(self).scroll_pos > 0 {
                    (old(self).scroll_pos - 1) as usize
                } else {
                    0
                },
                ScrollMove::Down => (old(self).scroll_pos + 1) as usize,
                ScrollMove::PageUp => old(self).scroll_pos,
            }),
    {
        match movement {
            ScrollMove::Up => {
                if self.scroll_pos > 0 {
                    self.scroll_pos = self.scroll_pos - 1;
                }
            },
            ScrollMove::Down => {
                self.scroll_pos = self.scroll_pos + 1;
            },
            ScrollMove::PageUp => {},
        }
    }
}

} // verus!
