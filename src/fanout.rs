//! Planning a broadcast sweep: which registrations receive an update, and
//! which are pruned because their channel is already closed.
use vstd::prelude::*;
use crate::registry::{ConnectionRegistry, Registration, reg_key, reg_sender};
use crate::table::lemma_map_of_dom;

verus! {

/// A registration that an update originating from `origin` in workspace `ws`
/// is meant for: same workspace, another connection.
pub open spec fn is_peer<S>(r: Registration<S>, ws: Seq<char>, origin: Seq<char>) -> bool {
    r.workspace@ == ws && r.conn@ != origin
}

/// Positions among the first `n` registrations that receive the update: the
/// peers whose channel is open, in sweep order.
pub open spec fn deliver_upto<S>(
    s: Seq<Registration<S>>,
    closed: Seq<bool>,
    ws: Seq<char>,
    origin: Seq<char>,
    n: int,
) -> Seq<int>
    decreases n,
{
    if n <= 0 {
        Seq::empty()
    } else {
        let prev = deliver_upto(s, closed, ws, origin, n - 1);
        if is_peer(s[n - 1], ws, origin) && !closed[n - 1] {
            prev.push(n - 1)
        } else {
            prev
        }
    }
}

/// Connection ids among the first `n` registrations that are pruned: the
/// peers whose channel is closed, in sweep order.
pub open spec fn prune_upto<S>(
    s: Seq<Registration<S>>,
    closed: Seq<bool>,
    ws: Seq<char>,
    origin: Seq<char>,
    n: int,
) -> Seq<Seq<char>>
    decreases n,
{
    if n <= 0 {
        Seq::empty()
    } else {
        let prev = prune_upto(s, closed, ws, origin, n - 1);
        if is_peer(s[n - 1], ws, origin) && closed[n - 1] {
            prev.push(s[n - 1].conn@)
        } else {
            prev
        }
    }
}

/// The registry after removing (ws, c) for every connection id c of `dead`.
pub open spec fn pruned<S>(m: Map<(Seq<char>, Seq<char>), S>, ws: Seq<char>, dead: Seq<Seq<char>>) -> Map<
    (Seq<char>, Seq<char>),
    S,
>
    decreases dead.len(),
{
    if dead.len() == 0 {
        m
    } else {
        pruned(m, ws, dead.drop_last()).remove((ws, dead.last()))
    }
}

proof fn lemma_deliver_upto<S>(
    s: Seq<Registration<S>>,
    closed: Seq<bool>,
    ws: Seq<char>,
    origin: Seq<char>,
    n: int,
)
    requires
        0 <= n <= s.len(),
        closed.len() == s.len(),
    ensures
        ({
            let d = deliver_upto(s, closed, ws, origin, n);
            &&& forall|k: int|
                0 <= k < d.len() ==> d[k] < n && 0 <= d[k] && is_peer(s[d[k]], ws, origin) && !closed[d[k]]
            &&& forall|a: int, b: int| 0 <= a < b < d.len() ==> d[a] < d[b]
            &&& forall|j: int|
                0 <= j < n && is_peer(s[j], ws, origin) && !closed[j] ==> exists|k: int| 0 <= k < d.len() && d[k] == j
        }),
    decreases n,
{
    if n > 0 {
        lemma_deliver_upto(s, closed, ws, origin, n - 1);
        let prev = deliver_upto(s, closed, ws, origin, n - 1);
        let d = deliver_upto(s, closed, ws, origin, n);
        assert forall|j: int| 0 <= j < n && is_peer(s[j], ws, origin) && !closed[j] implies exists|k: int|
            0 <= k < d.len() && d[k] == j by {
            if j < n - 1 {
                let k = choose|k: int| 0 <= k < prev.len() && prev[k] == j;
                assert(d[k] == prev[k]);
            } else {
                assert(d[d.len() - 1] == j);
            }
        }
    }
}

proof fn lemma_prune_upto<S>(
    s: Seq<Registration<S>>,
    closed: Seq<bool>,
    ws: Seq<char>,
    origin: Seq<char>,
    n: int,
    j: int,
)
    requires
        0 <= j < n <= s.len(),
        closed.len() == s.len(),
        is_peer(s[j], ws, origin),
        closed[j],
    ensures
        prune_upto(s, closed, ws, origin, n).contains(s[j].conn@),
    decreases n,
{
    let p = prune_upto(s, closed, ws, origin, n);
    if j < n - 1 {
        lemma_prune_upto(s, closed, ws, origin, n - 1, j);
        let prev = prune_upto(s, closed, ws, origin, n - 1);
        let k = choose|k: int| 0 <= k < prev.len() && prev[k] == s[j].conn@;
        assert(p[k] == prev[k]);
    } else {
        assert(p[p.len() - 1] == s[j].conn@);
    }
}

proof fn lemma_pruned_absent<S>(m: Map<(Seq<char>, Seq<char>), S>, ws: Seq<char>, dead: Seq<Seq<char>>, c: Seq<char>)
    requires
        dead.contains(c),
    ensures
        !pruned(m, ws, dead).dom().contains((ws, c)),
    decreases dead.len(),
{
    if dead.last() != c {
        let k = choose|k: int| 0 <= k < dead.len() && dead[k] == c;
        assert(dead.drop_last()[k] == c);
        lemma_pruned_absent(m, ws, dead.drop_last(), c);
    }
}

/// A sweep never hands an update back to the connection it came from, and
/// hands it exactly once to every other open connection of the workspace:
/// the delivery positions are increasing, each names an open peer, and every
/// open peer is among them.
pub proof fn lemma_no_echo_and_delivered_once<S>(
    reg: ConnectionRegistry<S>,
    ws: Seq<char>,
    origin: Seq<char>,
    closed: Seq<bool>,
)
    requires
        closed.len() == reg.entries().len(),
    ensures
        ({
            let s = reg.entries();
            let d = deliver_upto(s, closed, ws, origin, s.len() as int);
            &&& forall|k: int|
                0 <= k < d.len() ==> 0 <= d[k] < s.len() && s[d[k]].conn@ != origin
                    && s[d[k]].workspace@ == ws && !closed[d[k]]
            &&& forall|a: int, b: int| 0 <= a < b < d.len() ==> d[a] < d[b]
            &&& forall|j: int|
                0 <= j < s.len() && is_peer(s[j], ws, origin) && !closed[j] ==> exists|k: int| 0 <= k < d.len() && d[k] == j
        }),
{
    lemma_deliver_upto(reg.entries(), closed, ws, origin, reg.entries().len() as int);
}

/// A peer whose channel is closed before the sweep gets no delivery attempt,
/// and its registration is gone once the planned pruning is applied.
pub proof fn lemma_dead_peer_pruned<S>(
    reg: ConnectionRegistry<S>,
    ws: Seq<char>,
    origin: Seq<char>,
    closed: Seq<bool>,
    j: int,
)
    requires
        closed.len() == reg.entries().len(),
        0 <= j < reg.entries().len(),
        is_peer(reg.entries()[j], ws, origin),
        closed[j],
    ensures
        ({
            let s = reg.entries();
            let n = s.len() as int;
            &&& forall|k: int|
                0 <= k < deliver_upto(s, closed, ws, origin, n).len() ==> deliver_upto(
                    s,
                    closed,
                    ws,
                    origin,
                    n,
                )[k] != j
            &&& !pruned(reg@, ws, prune_upto(s, closed, ws, origin, n)).dom().contains((ws, s[j].conn@))
        }),
{
    let s = reg.entries();
    let n = s.len() as int;
    lemma_deliver_upto(s, closed, ws, origin, n);
    lemma_prune_upto(s, closed, ws, origin, n, j);
    lemma_pruned_absent(reg@, ws, prune_upto(s, closed, ws, origin, n), s[j].conn@);
}

/// Once (ws, conn) is no longer registered, no sweep targets it.
pub proof fn lemma_unregistered_never_targeted<S>(
    reg: ConnectionRegistry<S>,
    ws: Seq<char>,
    conn: Seq<char>,
    origin: Seq<char>,
    closed: Seq<bool>,
)
    requires
        closed.len() == reg.entries().len(),
        !reg@.dom().contains((ws, conn)),
    ensures
        ({
            let s = reg.entries();
            let d = deliver_upto(s, closed, ws, origin, s.len() as int);
            forall|k: int| 0 <= k < d.len() ==> reg_key()(s[d[k]]) != (ws, conn)
        }),
{
    let s = reg.entries();
    lemma_deliver_upto(s, closed, ws, origin, s.len() as int);
    lemma_map_of_dom(s, reg_key(), reg_sender(), (ws, conn));
}

/// The outcome of a sweep: positions to deliver to, connection ids to prune.
pub struct FanoutPlan {
    pub deliver: Vec<usize>,
    pub prune: Vec<String>,
}

impl<S> ConnectionRegistry<S> {
    /// Plans the broadcast of an update that connection `origin` of workspace
    /// `workspace` caused; `closed[i]` tells whether the channel of the
    /// registration at position `i` is already closed.
    pub fn plan_fanout(&self, workspace: &String, origin: &String, closed: &Vec<bool>) -> (r: FanoutPlan)
        requires
            closed@.len() == self.entries().len(),
        ensures
            r.deliver@.map_values(|i: usize| i as int) == deliver_upto(
                self.entries(),
                closed@,
                workspace@,
                origin@,
                self.entries().len() as int,
            ),
            r.prune@.map_values(|c: String| c@) == prune_upto(
                self.entries(),
                closed@,
                workspace@,
                origin@,
                self.entries().len() as int,
            ),
    {
        let mut deliver: Vec<usize> = Vec::new();
        let mut prune: Vec<String> = Vec::new();
        let n = self.len();
        let mut i: usize = 0;
        while i < n
            invariant
                n == self.entries().len(),
                closed@.len() == n,
                i <= n,
                deliver@.map_values(|i: usize| i as int) == deliver_upto(
                    self.entries(),
                    closed@,
                    workspace@,
                    origin@,
                    i as int,
                ),
                prune@.map_values(|c: String| c@) == prune_upto(
                    self.entries(),
                    closed@,
                    workspace@,
                    origin@,
                    i as int,
                ),
            decreases n - i,
        {
            let e = self.entry(i);
            if e.workspace == *workspace && e.conn != *origin {
                if closed[i] {
                    let ghost before = prune@;
                    prune.push(e.conn.clone());
                    assert(prune@.map_values(|c: String| c@) =~= before.map_values(|c: String| c@).push(
                        e.conn@,
                    ));
                } else {
                    let ghost before = deliver@;
                    deliver.push(i);
                    assert(deliver@.map_values(|i: usize| i as int) =~= before.map_values(
                        |i: usize| i as int,
                    ).push(i as int));
                }
            }
            i = i + 1;
        }
        FanoutPlan { deliver, prune }
    }

    /// Removes the registrations (workspace, c) for every c in `dead`.
    pub fn prune(&mut self, workspace: &String, dead: &Vec<String>)
        requires
            old(self).wf(),
        ensures
            final(self).wf(),
            final(self)@ == pruned(old(self)@, workspace@, dead@.map_values(|c: String| c@)),
    {
        let ghost start = self@;
        let mut i: usize = 0;
        while i < dead.len()
            invariant
                self.wf(),
                i <= dead@.len(),
                self@ == pruned(start, workspace@, dead@.map_values(|c: String| c@).take(i as int)),
            decreases dead@.len() - i,
        {
            self.remove(workspace, &dead[i]);
            proof {
                let d = dead@.map_values(|c: String| c@);
                assert(d.take(i + 1).drop_last() =~= d.take(i as int));
            }
            i = i + 1;
        }
        proof {
            let d = dead@.map_values(|c: String| c@);
            assert(d.take(dead@.len() as int) =~= d);
        }
    }
}

} // verus!
