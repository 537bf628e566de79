//! The periodic persistence task of a session, as a state machine driven by
//! timer ticks and store results.
use vstd::prelude::*;
use crate::workspaces::WorkspaceRegistry;

verus! {

/// Seconds between two ticks of a persistence task.
pub const PERSIST_INTERVAL_SECS: u64 = 10;

/// What one tick asks of the caller.
pub enum Tick<'a, D> {
    /// Take a migration snapshot of this document under its lock and write
    /// it to the store.
    Persist(&'a D),
    /// The workspace is no longer tracked: the task ends.
    Stop,
}

/// What a store result asks of the caller.
#[derive(Clone, Copy, Debug, PartialEq, Eq, Structural)]
pub enum AfterStore {
    /// The write succeeded: wait for the next tick.
    Wait,
    /// The write failed: log it, then wait for the next tick.
    LogAndWait,
}

/// Whether a task that is `running` persists on a tick while the workspace
/// registry holds `m`.
pub open spec fn tick_persists<D>(running: bool, m: Map<Seq<char>, D>, ws: Seq<char>) -> bool {
    running && m.dom().contains(ws)
}

/// The persistence task of one session for one workspace.
pub struct PersistTask {
    workspace: String,
    running: bool,
}

impl PersistTask {
    pub closed spec fn spec_workspace(&self) -> Seq<char> {
        self.workspace@
    }

    pub closed spec fn spec_running(&self) -> bool {
        self.running
    }

    pub fn new(workspace: String) -> (r: PersistTask)
        ensures
            r.spec_running(),
            r.spec_workspace() == workspace@,
    {
        PersistTask { workspace, running: true }
    }

    pub fn is_running(&self) -> (r: bool)
        ensures
            r == self.spec_running(),
    {
        self.running
    }

    /// One timer tick: persist the workspace's document if the registry still
    /// tracks it, else stop for good.
    pub fn tick<'a, D>(&mut self, registry: &'a WorkspaceRegistry<D>) -> (r: Tick<'a, D>)
        requires
            registry.wf(),
        ensures
            final(self).spec_workspace() == old(self).spec_workspace(),
            final(self).spec_running() == tick_persists(
                old(self).spec_running(),
                registry@,
                old(self).spec_workspace(),
            ),
            r is Persist == tick_persists(old(self).spec_running(), registry@, old(self).spec_workspace()),
            r matches Tick::Persist(d) ==> *d == registry@[old(self).spec_workspace()],
    {
        if !self.running {
            return Tick::Stop;
        }
        match registry.get(&self.workspace) {
            Some(d) => Tick::Persist(d),
            None => {
                self.running = false;
                Tick::Stop
            },
        }
    }

    /// The store's answer to the last write: a failure is logged, and the task
    /// goes on either way.
    pub fn stored(&mut self, ok: bool) -> (r: AfterStore)
        ensures
            *final(self) == *old(self),
            r == (if ok {
                AfterStore::Wait
            } else {
                AfterStore::LogAndWait
            }),
    {
        if ok {
            AfterStore::Wait
        } else {
            AfterStore::LogAndWait
        }
    }
}

/// While the workspace is tracked, every tick of a running task writes a
/// snapshot, and a failed write leaves the task running; once the workspace
/// is gone, the next tick stops the task, and a stopped task never writes again.
pub proof fn lemma_persistence_liveness<D>(m: Map<Seq<char>, D>, later: Map<Seq<char>, D>, ws: Seq<char>)
    ensures
        m.dom().contains(ws) ==> tick_persists(true, m, ws),
        !m.dom().contains(ws) ==> !tick_persists(true, m, ws),
        !tick_persists(false, later, ws),
{
}

} // verus!
