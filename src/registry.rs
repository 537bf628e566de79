//! The connection registry: which connection of which workspace is reachable
//! through which outbound sender, and the plan of a broadcast sweep over it.
use vstd::prelude::*;
use crate::table::{map_of, unique_keys, lemma_map_of_dom, lemma_map_of_push, lemma_map_of_remove};

verus! {

/// One live connection: its workspace, its connection id and the sender that
/// feeds its outbound channel.
pub struct Registration<S> {
    pub workspace: String,
    pub conn: String,
    pub sender: S,
}

/// The key of a registration: (workspace id, connection id).
pub open spec fn reg_key<S>() -> spec_fn(Registration<S>) -> (Seq<char>, Seq<char>) {
    |r: Registration<S>| (r.workspace@, r.conn@)
}

pub open spec fn reg_sender<S>() -> spec_fn(Registration<S>) -> S {
    |r: Registration<S>| r.sender
}

/// Map from (workspace id, connection id) to the connection's outbound sender.
pub struct ConnectionRegistry<S> {
    entries: Vec<Registration<S>>,
}

impl<S> View for ConnectionRegistry<S> {
    type V = Map<(Seq<char>, Seq<char>), S>;

    open spec fn view(&self) -> Map<(Seq<char>, Seq<char>), S> {
        map_of(self.entries(), reg_key(), reg_sender())
    }
}

impl<S> ConnectionRegistry<S> {
    /// The registrations in the order a sweep visits them.
    pub closed spec fn entries(&self) -> Seq<Registration<S>> {
        self.entries@
    }

    /// No two registrations share a key.
    pub open spec fn wf(&self) -> bool {
        unique_keys(self.entries(), reg_key())
    }

    pub fn new() -> (r: Self)
        ensures
            r.wf(),
            r@ == Map::<(Seq<char>, Seq<char>), S>::empty(),
            r.entries().len() == 0,
    {
        ConnectionRegistry { entries: Vec::new() }
    }

    pub fn len(&self) -> (r: usize)
        ensures
            r == self.entries().len(),
    {
        self.entries.len()
    }

    /// The registration that a sweep visits at position `i`.
    pub fn entry(&self, i: usize) -> (r: &Registration<S>)
        requires
            i < self.entries().len(),
        ensures
            *r == self.entries()[i as int],
    {
        &self.entries[i]
    }

    fn position(&self, workspace: &String, conn: &String) -> (r: Option<usize>)
        ensures
            match r {
                Some(i) => i < self.entries().len() && reg_key()(self.entries()[i as int]) == (
                workspace@, conn@),
                None => forall|j: int|
                    0 <= j < self.entries().len() ==> reg_key()(#[trigger] self.entries()[j]) != (
                    workspace@, conn@),
            },
    {
        let mut i: usize = 0;
        while i < self.entries.len()
            invariant
                i <= self.entries@.len(),
                forall|j: int| 0 <= j < i ==> reg_key()(#[trigger] self.entries@[j]) != (workspace@, conn@),
            decreases self.entries@.len() - i,
        {
            let e = &self.entries[i];
            if e.workspace == *workspace && e.conn == *conn {
                return Some(i);
            }
            i = i + 1;
        }
        None
    }

    /// Whether (workspace, conn) is registered.
    pub fn contains(&self, workspace: &String, conn: &String) -> (r: bool)
        ensures
            r == self@.dom().contains((workspace@, conn@)),
    {
        proof {
            lemma_map_of_dom(self.entries(), reg_key(), reg_sender(), (workspace@, conn@));
        }
        self.position(workspace, conn).is_some()
    }

    /// Removes the registration of (workspace, conn); a missing key is no error.
    pub fn remove(&mut self, workspace: &String, conn: &String)
        requires
            old(self).wf(),
        ensures
            final(self).wf(),
            final(self)@ == old(self)@.remove((workspace@, conn@)),
    {
        proof {
            lemma_map_of_dom(self.entries(), reg_key(), reg_sender(), (workspace@, conn@));
        }
        match self.position(workspace, conn) {
            Some(i) => {
                proof {
                    lemma_map_of_remove(self.entries@, reg_key(), reg_sender(), i as int);
                }
                self.entries.remove(i);
            },
            None => {
                assert(self@ =~= self@.remove((workspace@, conn@)));
            },
        }
    }

    /// Registers `sender` under (workspace, conn), replacing an earlier one.
    pub fn insert(&mut self, workspace: String, conn: String, sender: S)
        requires
            old(self).wf(),
        ensures
            final(self).wf(),
            final(self)@ == old(self)@.insert((workspace@, conn@), sender),
    {
        self.remove(&workspace, &conn);
        let ghost before = self.entries@;
        let ghost k = (workspace@, conn@);
        proof {
            lemma_map_of_dom(before, reg_key(), reg_sender(), k);
        }
        let r = Registration { workspace, conn, sender };
        self.entries.push(r);
        proof {
            lemma_map_of_push(before, reg_key(), reg_sender(), r);
            assert(self.entries@ == before.push(r));
            assert forall|a: int, b: int|
                0 <= a < self.entries@.len() && 0 <= b < self.entries@.len() && a != b implies reg_key()(
            #[trigger] self.entries@[a]) != reg_key()(#[trigger] self.entries@[b]) by {
                if a < before.len() && b < before.len() {
                    assert(self.entries@[a] == before[a] && self.entries@[b] == before[b]);
                } else if a < before.len() {
                    assert(self.entries@[a] == before[a]);
                } else {
                    assert(self.entries@[b] == before[b]);
                }
            }
            assert(old(self)@.insert(k, sender) =~= old(self)@.remove(k).insert(k, sender));
        }
    }
}

} // verus!
