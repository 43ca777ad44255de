//! Connection registry: which remote addresses currently have a live
//! transport handle.
//!
//! The handles themselves are opaque to the core; the registry records the
//! addresses that can be reached, and the host process keeps the matching
//! transport handle for each.  One entry per address: a later registration
//! under the same address wins.

use vstd::prelude::*;

use crate::seqtools::{
    distinct_by, find_first, lemma_find_first_push, lemma_find_prefix_settled,
    lemma_overwrite_distinct_by, lemma_remove_where_clears, lemma_remove_where_disjoint,
    lemma_remove_where_distinct_by, lemma_remove_where_push, remove_where,
};
use crate::strutil::str_eq;

verus! {

/// Matches an address.
pub open spec fn same_address(addr: Seq<char>) -> spec_fn(Seq<char>) -> bool {
    |a: Seq<char>| a == addr
}

/// In-memory connection registry.
pub struct ConnectionManager {
    addrs: Vec<String>,
}

impl ConnectionManager {
    /// The registered addresses, oldest first.
    pub closed spec fn addresses(self) -> Seq<Seq<char>> {
        self.addrs@.map_values(|a: String| a@)
    }

    /// Each address is registered at most once.
    pub open spec fn wf(self) -> bool {
        distinct_by(self.addresses(), |a: Seq<char>| a)
    }

    /// Whether an address has a live handle.
    pub open spec fn connected(self, addr: Seq<char>) -> bool {
        find_first(self.addresses(), same_address(addr)) is Some
    }

    /// An empty registry.
    pub fn new() -> (r: Self)
        ensures
            r.addresses() =~= Seq::<Seq<char>>::empty(),
            r.wf(),
    {
        let r = ConnectionManager { addrs: Vec::new() };
        proof {
            assert(r.addresses() =~= Seq::<Seq<char>>::empty());
        }
        r
    }

    /// Registers an address, silently replacing an earlier registration
    /// under the same address.
    pub fn put(&mut self, remote_address: String)
        requires
            old(self).wf(),
        ensures
            final(self).wf(),
            final(self).addresses() == remove_where(
                old(self).addresses(),
                same_address(remote_address@),
            ).push(remote_address@),
            final(self).connected(remote_address@),
            forall|b: Seq<char>|
                b != remote_address@ ==> final(self).connected(b) == old(self).connected(b),
    {
        let ghost pred = same_address(remote_address@);
        let ghost old_addrs = self.addresses();
        let mut kept: Vec<String> = Vec::new();
        let n = self.addrs.len();
        for i in 0..n
            invariant
                n == self.addrs.len(),
                kept@.map_values(|a: String| a@) == remove_where(
                    self.addresses().take(i as int),
                    pred,
                ),
        {
            proof {
                assert(self.addresses()[i as int] == self.addrs@[i as int]@);
                assert(self.addresses().take(i + 1) =~= self.addresses().take(i as int).push(
                    self.addresses()[i as int],
                ));
                lemma_remove_where_push(
                    self.addresses().take(i as int),
                    pred,
                    self.addresses()[i as int],
                );
            }
            if !str_eq(self.addrs[i].as_str(), remote_address.as_str()) {
                let ghost pre = kept@.map_values(|a: String| a@);
                kept.push(self.addrs[i].clone());
                proof {
                    assert(kept@.map_values(|a: String| a@) =~= pre.push(
                        self.addresses()[i as int],
                    ));
                }
            }
        }
        proof {
            assert(self.addresses().take(n as int) =~= self.addresses());
        }
        let ghost kept_v = kept@.map_values(|a: String| a@);
        let ghost addr_v = remote_address@;
        kept.push(remote_address);
        self.addrs = kept;
        proof {
            assert(self.addresses() =~= kept_v.push(addr_v));
            lemma_remove_where_clears(old_addrs, pred);
            lemma_find_first_push(remove_where(old_addrs, pred), pred, addr_v);
            assert forall|b: Seq<char>| b != addr_v implies final(self).connected(b) == old(
                self,
            ).connected(b) by {
                lemma_find_first_push(remove_where(old_addrs, pred), same_address(b), addr_v);
                lemma_remove_where_disjoint(old_addrs, pred, same_address(b));
            }
            lemma_overwrite_distinct_by(old_addrs, pred, |a: Seq<char>| a, addr_v);
        }
    }

    /// Whether an address can currently be reached.
    pub fn get(&self, remote_address: &str) -> (r: bool)
        ensures
            r == self.connected(remote_address@),
    {
        let ghost pred = same_address(remote_address@);
        let n = self.addrs.len();
        for i in 0..n
            invariant
                n == self.addrs.len(),
                find_first(self.addresses().take(i as int), pred) == None::<Seq<char>>,
        {
            proof {
                assert(self.addresses()[i as int] == self.addrs@[i as int]@);
                assert(self.addresses().take(i + 1) =~= self.addresses().take(i as int).push(
                    self.addresses()[i as int],
                ));
                lemma_find_first_push(
                    self.addresses().take(i as int),
                    pred,
                    self.addresses()[i as int],
                );
            }
            if str_eq(self.addrs[i].as_str(), remote_address) {
                proof {
                    lemma_find_prefix_settled(self.addresses(), pred, i + 1);
                }
                return true;
            }
        }
        proof {
            assert(self.addresses().take(n as int) =~= self.addresses());
        }
        false
    }

    /// Deregisters an address.  Removing an address that is not registered
    /// changes nothing.
    pub fn remove(&mut self, remote_address: &str)
        requires
            old(self).wf(),
        ensures
            final(self).wf(),
            final(self).addresses() == remove_where(
                old(self).addresses(),
                same_address(remote_address@),
            ),
            !final(self).connected(remote_address@),
            forall|b: Seq<char>|
                b != remote_address@ ==> final(self).connected(b) == old(self).connected(b),
    {
        let ghost pred = same_address(remote_address@);
        let ghost old_addrs = self.addresses();
        let mut kept: Vec<String> = Vec::new();
        let n = self.addrs.len();
        for i in 0..n
            invariant
                n == self.addrs.len(),
                kept@.map_values(|a: String| a@) == remove_where(
                    self.addresses().take(i as int),
                    pred,
                ),
        {
            proof {
                assert(self.addresses()[i as int] == self.addrs@[i as int]@);
                assert(self.addresses().take(i + 1) =~= self.addresses().take(i as int).push(
                    self.addresses()[i as int],
                ));
                lemma_remove_where_push(
                    self.addresses().take(i as int),
                    pred,
                    self.addresses()[i as int],
                );
            }
            if !str_eq(self.addrs[i].as_str(), remote_address) {
                let ghost pre = kept@.map_values(|a: String| a@);
                kept.push(self.addrs[i].clone());
                proof {
                    assert(kept@.map_values(|a: String| a@) =~= pre.push(
                        self.addresses()[i as int],
                    ));
                }
            }
        }
        proof {
            assert(self.addresses().take(n as int) =~= self.addresses());
        }
        self.addrs = kept;
        proof {
            lemma_remove_where_clears(old_addrs, pred);
            lemma_remove_where_distinct_by(old_addrs, pred, |a: Seq<char>| a);
            assert forall|b: Seq<char>| b != remote_address@ implies final(self).connected(b) == old(
                self,
            ).connected(b) by {
                lemma_remove_where_disjoint(old_addrs, pred, same_address(b));
            }
        }
    }
}

} // verus!
