//! Message store: the history of each room, append-only.

use vstd::prelude::*;

use crate::command::clone_messages;
use crate::model::{Message, MessageV};
use crate::seqtools::{
    distinct_by, find_first, lemma_find_first_push, lemma_find_prefix_settled,
    lemma_overwrite_distinct_by, lemma_remove_where_clears, lemma_remove_where_disjoint,
    lemma_remove_where_push, remove_where,
};

verus! {

/// One room's message history.
pub struct MessageLog {
    pub chat_id: i64,
    pub messages: Vec<Message>,
}

/// Mathematical view of a [`MessageLog`].
#[verifier::ext_equal]
pub ghost struct MessageLogV {
    pub chat_id: int,
    pub messages: Seq<MessageV>,
}

impl View for MessageLog {
    type V = MessageLogV;

    open spec fn view(&self) -> MessageLogV {
        MessageLogV {
            chat_id: self.chat_id as int,
            messages: self.messages@.map_values(|m: Message| m@),
        }
    }
}

/// Matches a history by room id.
pub open spec fn by_log(chat_id: int) -> spec_fn(MessageLogV) -> bool {
    |l: MessageLogV| l.chat_id == chat_id
}

/// In-memory message store.
pub struct MessageMemoryImpl {
    logs: Vec<MessageLog>,
}

impl MessageMemoryImpl {
    /// All histories.
    pub closed spec fn records(self) -> Seq<MessageLogV> {
        self.logs@.map_values(|l: MessageLog| l@)
    }

    /// Room ids are unique.
    pub open spec fn wf(self) -> bool {
        distinct_by(self.records(), |l: MessageLogV| l.chat_id)
    }

    /// The history of a room, oldest message first; empty if nothing was
    /// ever sent there.
    pub open spec fn spec_messages(self, chat_id: int) -> Seq<MessageV> {
        match find_first(self.records(), by_log(chat_id)) {
            Some(l) => l.messages,
            None => Seq::empty(),
        }
    }

    /// An empty store.
    pub fn new() -> (r: Self)
        ensures
            r.records() =~= Seq::<MessageLogV>::empty(),
            r.wf(),
    {
        let r = MessageMemoryImpl { logs: Vec::new() };
        proof {
            assert(r.records() =~= Seq::<MessageLogV>::empty());
        }
        r
    }

    /// Appends a message to the history of the sender's room.
    pub fn save(&mut self, msg: Message)
        requires
            old(self).wf(),
        ensures
            final(self).wf(),
            final(self).spec_messages(msg@.user.chat_id) == old(self).spec_messages(
                msg@.user.chat_id,
            ).push(msg@),
            forall|c: int|
                c != msg@.user.chat_id ==> final(self).spec_messages(c) == old(self).spec_messages(
                    c,
                ),
    {
        let chat_id = msg.user.chat_id;
        let ghost pred = by_log(chat_id as int);
        let ghost old_records = self.records();
        let mut kept: Vec<MessageLog> = Vec::new();
        let mut messages: Vec<Message> = Vec::new();
        let mut found = false;
        let n = self.logs.len();
        for i in 0..n
            invariant
                n == self.logs.len(),
                kept@.map_values(|l: MessageLog| l@) == remove_where(
                    self.records().take(i as int),
                    pred,
                ),
                found == (find_first(self.records().take(i as int), pred) is Some),
                messages@.map_values(|m: Message| m@) == (match find_first(
                    self.records().take(i as int),
                    pred,
                ) {
                    Some(l) => l.messages,
                    None => Seq::<MessageV>::empty(),
                }),
        {
            proof {
                assert(self.records()[i as int] == self.logs@[i as int]@);
                assert(self.records().take(i + 1) =~= self.records().take(i as int).push(
                    self.records()[i as int],
                ));
                lemma_remove_where_push(self.records().take(i as int), pred, self.records()[i as int]);
                lemma_find_first_push(self.records().take(i as int), pred, self.records()[i as int]);
            }
            if self.logs[i].chat_id == chat_id {
                if !found {
                    messages = clone_messages(&self.logs[i].messages);
                    found = true;
                }
            } else {
                let ghost pre = kept@.map_values(|l: MessageLog| l@);
                kept.push(MessageLog {
                    chat_id: self.logs[i].chat_id,
                    messages: clone_messages(&self.logs[i].messages),
                });
                proof {
                    assert(kept@.map_values(|l: MessageLog| l@) =~= pre.push(
                        self.records()[i as int],
                    ));
                }
            }
        }
        proof {
            assert(self.records().take(n as int) =~= self.records());
        }
        let ghost pre_msgs = messages@.map_values(|m: Message| m@);
        messages.push(msg);
        proof {
            assert(messages@.map_values(|m: Message| m@) =~= pre_msgs.push(msg@));
        }
        let ghost kept_v = kept@.map_values(|l: MessageLog| l@);
        let log = MessageLog { chat_id, messages };
        let ghost log_v = log@;
        kept.push(log);
        self.logs = kept;
        proof {
            assert(self.records() =~= kept_v.push(log_v));
            lemma_remove_where_clears(old_records, pred);
            lemma_find_first_push(remove_where(old_records, pred), pred, log_v);
            assert forall|c: int| c != msg@.user.chat_id implies final(self).spec_messages(c) == old(
                self,
            ).spec_messages(c) by {
                lemma_find_first_push(remove_where(old_records, pred), by_log(c), log_v);
                lemma_remove_where_disjoint(old_records, pred, by_log(c));
            }
            lemma_overwrite_distinct_by(old_records, pred, |l: MessageLogV| l.chat_id, log_v);
        }
    }

    /// The history of a room; empty if the room has no messages.
    pub fn get(&self, chat_id: i64) -> (r: Vec<Message>)
        ensures
            r@.map_values(|m: Message| m@) == self.spec_messages(chat_id as int),
    {
        let ghost pred = by_log(chat_id as int);
        let n = self.logs.len();
        for i in 0..n
            invariant
                n == self.logs.len(),
                find_first(self.records().take(i as int), pred) == None::<MessageLogV>,
        {
            proof {
                assert(self.records()[i as int] == self.logs@[i as int]@);
                assert(self.records().take(i + 1) =~= self.records().take(i as int).push(
                    self.records()[i as int],
                ));
                lemma_find_first_push(self.records().take(i as int), pred, self.records()[i as int]);
            }
            if self.logs[i].chat_id == chat_id {
                proof {
                    lemma_find_prefix_settled(self.records(), pred, i + 1);
                }
                return clone_messages(&self.logs[i].messages);
            }
        }
        proof {
            assert(self.records().take(n as int) =~= self.records());
        }
        Vec::new()
    }
}

} // verus!
