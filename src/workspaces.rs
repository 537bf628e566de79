//! The workspace registry: at most one document per workspace id, created on
//! first access.
use vstd::prelude::*;
use crate::table::{map_of, unique_keys, lemma_map_of_dom, lemma_map_of_at, lemma_map_of_push, lemma_map_of_remove};

verus! {

/// One workspace and the handle of its document.
pub struct Slot<D> {
    pub workspace: String,
    pub doc: D,
}

pub open spec fn slot_key<D>() -> spec_fn(Slot<D>) -> Seq<char> {
    |s: Slot<D>| s.workspace@
}

pub open spec fn slot_doc<D>() -> spec_fn(Slot<D>) -> D {
    |s: Slot<D>| s.doc
}

/// What a first step of `get_or_create` found.
pub enum Access<'a, D> {
    /// The workspace has a document already: this one.
    Existing(&'a D),
    /// The workspace has none: the caller creates it and hands it to `install`.
    Vacant,
}

/// Map from workspace id to the handle of its document.
pub struct WorkspaceRegistry<D> {
    slots: Vec<Slot<D>>,
}

impl<D> View for WorkspaceRegistry<D> {
    type V = Map<Seq<char>, D>;

    open spec fn view(&self) -> Map<Seq<char>, D> {
        map_of(self.slots(), slot_key(), slot_doc())
    }
}

/// Whether an access to `ws` in a registry holding `m` must create a document.
pub open spec fn must_create<D>(m: Map<Seq<char>, D>, ws: Seq<char>) -> bool {
    !m.dom().contains(ws)
}

/// The registry after a creation attempt for `ws` came back with `created`.
pub open spec fn after_install<D, E>(m: Map<Seq<char>, D>, ws: Seq<char>, created: Result<D, E>) -> Map<
    Seq<char>,
    D,
> {
    match created {
        Ok(d) => m.insert(ws, d),
        Err(_) => m,
    }
}

impl<D> WorkspaceRegistry<D> {
    pub closed spec fn slots(&self) -> Seq<Slot<D>> {
        self.slots@
    }

    /// No two slots share a workspace id.
    pub open spec fn wf(&self) -> bool {
        unique_keys(self.slots(), slot_key())
    }

    pub fn new() -> (r: Self)
        ensures
            r.wf(),
            r@ == Map::<Seq<char>, D>::empty(),
    {
        WorkspaceRegistry { slots: Vec::new() }
    }

    fn position(&self, workspace: &String) -> (r: Option<usize>)
        ensures
            match r {
                Some(i) => i < self.slots().len() && self.slots()[i as int].workspace@ == workspace@,
                None => forall|j: int|
                    0 <= j < self.slots().len() ==> (#[trigger] self.slots()[j]).workspace@ != workspace@,
            },
    {
        let mut i: usize = 0;
        while i < self.slots.len()
            invariant
                i <= self.slots@.len(),
                forall|j: int| 0 <= j < i ==> (#[trigger] self.slots@[j]).workspace@ != workspace@,
            decreases self.slots@.len() - i,
        {
            if self.slots[i].workspace == *workspace {
                return Some(i);
            }
            i = i + 1;
        }
        None
    }

    /// The document of `workspace`, if it has one.
    pub fn get(&self, workspace: &String) -> (r: Option<&D>)
        requires
            self.wf(),
        ensures
            r is Some == self@.dom().contains(workspace@),
            r is Some ==> *r.unwrap() == self@[workspace@],
    {
        proof {
            lemma_map_of_dom(self.slots(), slot_key(), slot_doc(), workspace@);
        }
        match self.position(workspace) {
            Some(i) => {
                proof {
                    lemma_map_of_at(self.slots(), slot_key(), slot_doc(), i as int);
                }
                Some(&self.slots[i].doc)
            },
            None => None,
        }
    }

    /// First step of `get_or_create`: the existing document, or `Vacant` when
    /// the caller must create one. The caller holds the registry exclusively
    /// from this call until `install`, so that one creation happens at most.
    pub fn access(&self, workspace: &String) -> (r: Access<'_, D>)
        requires
            self.wf(),
        ensures
            r is Vacant == must_create(self@, workspace@),
            r matches Access::Existing(d) ==> *d == self@[workspace@],
    {
        match self.get(workspace) {
            Some(d) => Access::Existing(d),
            None => Access::Vacant,
        }
    }

    /// Second step of `get_or_create`: registers the created document, or
    /// hands the creation error back and registers nothing.
    pub fn install<E>(&mut self, workspace: String, created: Result<D, E>) -> (r: Result<(), E>)
        requires
            old(self).wf(),
            must_create(old(self)@, workspace@),
        ensures
            final(self).wf(),
            final(self)@ == after_install(old(self)@, workspace@, created),
            r is Ok == created is Ok,
            created matches Err(e) ==> r == Err::<(), E>(e),
    {
        match created {
            Ok(doc) => {
                let ghost before = self.slots@;
                let s = Slot { workspace, doc };
                proof {
                    lemma_map_of_dom(before, slot_key(), slot_doc(), s.workspace@);
                }
                self.slots.push(s);
                proof {
                    lemma_map_of_push(before, slot_key(), slot_doc(), s);
                    assert forall|a: int, b: int|
                        0 <= a < self.slots@.len() && 0 <= b < self.slots@.len() && a != b implies slot_key()(
                    #[trigger] self.slots@[a]) != slot_key()(#[trigger] self.slots@[b]) by {
                        if a < before.len() {
                            assert(self.slots@[a] == before[a]);
                        }
                        if b < before.len() {
                            assert(self.slots@[b] == before[b]);
                        }
                    }
                }
                Ok(())
            },
            Err(e) => Err(e),
        }
    }

    /// Stops tracking `workspace`; a missing id is no error.
    pub fn remove(&mut self, workspace: &String)
        requires
            old(self).wf(),
        ensures
            final(self).wf(),
            final(self)@ == old(self)@.remove(workspace@),
    {
        proof {
            lemma_map_of_dom(self.slots(), slot_key(), slot_doc(), workspace@);
        }
        match self.position(workspace) {
            Some(i) => {
                proof {
                    lemma_map_of_remove(self.slots@, slot_key(), slot_doc(), i as int);
                }
                self.slots.remove(i);
            },
            None => {
                assert(self@ =~= self@.remove(workspace@));
            },
        }
    }
}

/// Exactly one creation per workspace: once a creation for an unseen id has
/// succeeded, every later access finds that same document and creates nothing;
/// a failed creation leaves the id unseen.
pub proof fn lemma_exclusive_creation<D, E>(m: Map<Seq<char>, D>, ws: Seq<char>, created: Result<D, E>)
    requires
        must_create(m, ws),
    ensures
        created matches Ok(d) ==> !must_create(after_install(m, ws, created), ws) && after_install(
            m,
            ws,
            created,
        )[ws] == d,
        created is Err ==> must_create(after_install(m, ws, created), ws) && after_install(m, ws, created)
            == m,
{
}

} // verus!
