use vstd::prelude::*;

verus! {

/// One in-flight render request's loop-visible record: the identity of the
/// surface it owns, its creation instant and its timeout. The native
/// resources themselves (surface, engine, result slot, delivery channel)
/// live beside the loop, keyed by the same identifier.
#[derive(Clone, Copy, PartialEq, Eq, Structural)]
pub struct Session {
    /// Surface identifier; unique among live sessions, reusable once the
    /// session has been removed.
    pub id: u64,
    /// Creation instant, in milliseconds of a monotonic clock.
    pub start_ms: u64,
    /// Configured timeout, in milliseconds.
    pub timeout_ms: u64,
}

/// True when some session in `q` carries the identifier `id`.
pub open spec fn id_in(q: Seq<Session>, id: u64) -> bool {
    exists|j: int| 0 <= j < q.len() && (#[trigger] q[j].id) == id
}

/// True when no two sessions in `q` share an identifier.
pub open spec fn ids_unique(q: Seq<Session>) -> bool {
    forall|j: int, k: int|
        0 <= j < k < q.len() ==> (#[trigger] q[j].id) != (#[trigger] q[k].id)
}

/// The sessions of `q` from position `i` on, with every session carrying
/// `id` left out.
pub open spec fn remove_id_from(q: Seq<Session>, id: u64, i: int) -> Seq<Session>
    decreases q.len() - i,
{
    if i < 0 || i >= q.len() {
        Seq::empty()
    } else if q[i].id == id {
        remove_id_from(q, id, i + 1)
    } else {
        seq![q[i]] + remove_id_from(q, id, i + 1)
    }
}

/// The sessions of `q` with every session carrying `id` left out.
pub open spec fn remove_id_model(q: Seq<Session>, id: u64) -> Seq<Session> {
    remove_id_from(q, id, 0)
}

/// What `remove_id_from` leaves: exactly the sessions at positions `i` and
/// beyond whose identifier differs from `id`; hence uniqueness of
/// identifiers survives the removal, and the removed identifier is gone.
pub proof fn lemma_remove_id_from_props(q: Seq<Session>, id: u64, i: int)
    requires
        0 <= i,
    ensures
        forall|x: Session| #[trigger]
            remove_id_from(q, id, i).contains(x) <==> (exists|j: int|
                i <= j < q.len() && q[j] == x) && x.id != id,
        forall|x: u64| #[trigger]
            id_in(remove_id_from(q, id, i), x) ==> (exists|j: int|
                i <= j < q.len() && (#[trigger] q[j].id) == x),
        !id_in(remove_id_from(q, id, i), id),
        ids_unique(q) ==> ids_unique(remove_id_from(q, id, i)),
    decreases q.len() - i,
{
    if i < 0 || i >= q.len() {
        assert(remove_id_from(q, id, i) =~= Seq::<Session>::empty());
    } else {
        lemma_remove_id_from_props(q, id, i + 1);
        let rest = remove_id_from(q, id, i + 1);
        if q[i].id == id {
            assert forall|x: Session| #[trigger]
                remove_id_from(q, id, i).contains(x) implies (exists|j: int|
                i <= j < q.len() && q[j] == x) && x.id != id by {
                assert(rest.contains(x));
                let j = choose|j: int| i + 1 <= j < q.len() && q[j] == x;
                assert(i <= j < q.len() && q[j] == x);
            }
            assert forall|x: Session|
                (exists|j: int| i <= j < q.len() && q[j] == x)
                    && x.id != id implies #[trigger] remove_id_from(q, id, i).contains(x) by {
                let j = choose|j: int| i <= j < q.len() && q[j] == x;
                if j == i {
                    assert(x.id == id);
                } else {
                    assert(i + 1 <= j < q.len() && q[j] == x);
                    assert(rest.contains(x));
                }
            }
        } else {
            let cur = remove_id_from(q, id, i);
            assert(cur == seq![q[i]] + rest);
            assert forall|x: Session| #[trigger]
                cur.contains(x) implies (exists|j: int| i <= j < q.len() && q[j] == x)
                && x.id != id by {
                let m = choose|m: int| 0 <= m < cur.len() && cur[m] == x;
                if m == 0 {
                    assert(cur[0] == q[i]);
                    assert(i <= i < q.len() && q[i] == x);
                } else {
                    assert(cur[m] == rest[m - 1]);
                    assert(rest.contains(x));
                }
            }
            assert forall|x: Session|
                (exists|j: int| i <= j < q.len() && q[j] == x)
                    && x.id != id implies #[trigger] cur.contains(x) by {
                let j = choose|j: int| i <= j < q.len() && q[j] == x;
                if j == i {
                    assert(cur[0] == x);
                } else {
                    assert(i + 1 <= j < q.len() && q[j] == x);
                    assert(rest.contains(x));
                    let m = choose|m: int| 0 <= m < rest.len() && rest[m] == x;
                    assert(cur[m + 1] == x);
                }
            }
            assert forall|x: u64| #[trigger]
                id_in(cur, x) implies (exists|j: int|
                i <= j < q.len() && (#[trigger] q[j].id) == x) by {
                let m = choose|m: int| 0 <= m < cur.len() && cur[m].id == x;
                assert(cur.contains(cur[m]));
            }
            assert(!id_in(cur, id)) by {
                if id_in(cur, id) {
                    let m = choose|m: int| 0 <= m < cur.len() && cur[m].id == id;
                    assert(cur.contains(cur[m]));
                }
            }
            if ids_unique(q) {
                assert(ids_unique(cur)) by {
                    assert forall|k1: int, k2: int|
                        0 <= k1 < k2 < cur.len() implies (#[trigger] cur[k1].id) != (
                    #[trigger] cur[k2].id) by {
                        if k1 == 0 {
                            assert(cur[k2] == rest[k2 - 1]);
                            assert(rest.contains(rest[k2 - 1]));
                            let j = choose|j: int| i + 1 <= j < q.len() && q[j] == rest[k2 - 1];
                            assert(q[i].id != q[j].id);
                        } else {
                            assert(cur[k1] == rest[k1 - 1]);
                            assert(cur[k2] == rest[k2 - 1]);
                        }
                    }
                }
            }
        }
    }
}

/// All live sessions, in registration order. The registry belongs to the
/// thread that runs the orchestration loop; nothing else may touch it.
pub struct Registry {
    /// The live sessions. Held in a vector in registration order; the
    /// well-formedness condition keeps identifiers unique.
    pub sessions: Vec<Session>,
}

impl View for Registry {
    type V = Seq<Session>;

    open spec fn view(&self) -> Seq<Session> {
        self.sessions@
    }
}

impl Registry {
    /// Well-formed: no two live sessions share a surface identifier.
    pub open spec fn wf(&self) -> bool {
        ids_unique(self@)
    }

    /// An empty registry.
    pub fn new() -> (r: Registry)
        ensures
            r@ == Seq::<Session>::empty(),
            r.wf(),
    {
        Registry { sessions: Vec::new() }
    }

    /// How many sessions are live.
    pub fn len(&self) -> (n: usize)
        ensures
            n == self@.len(),
    {
        self.sessions.len()
    }

    /// True when no session is live; the loop may then stop.
    pub fn is_empty(&self) -> (b: bool)
        ensures
            b == (self@.len() == 0),
    {
        self.sessions.len() == 0
    }

    /// The session at position `i`, in registration order.
    pub fn get(&self, i: usize) -> (s: &Session)
        requires
            i < self@.len(),
        ensures
            *s == self@[i as int],
    {
        &self.sessions[i]
    }

    /// Whether some live session carries the identifier `id`.
    pub fn contains(&self, id: u64) -> (b: bool)
        ensures
            b == id_in(self@, id),
    {
        let mut i: usize = 0;
        while i < self.sessions.len()
            invariant
                i <= self.sessions.len(),
                forall|j: int| 0 <= j < i ==> (#[trigger] self.sessions@[j].id) != id,
            decreases self.sessions.len() - i,
        {
            if self.sessions[i].id == id {
                return true;
            }
            i += 1;
        }
        false
    }

    /// Adds a session under its surface identifier. Registration fails — and
    /// changes nothing — exactly when the identifier is already live, which a
    /// correct caller never lets happen.
    pub fn register(&mut self, s: Session) -> (ok: bool)
        requires
            old(self).wf(),
        ensures
            final(self).wf(),
            ok == !id_in(old(self)@, s.id),
            ok ==> final(self)@ == old(self)@.push(s),
            !ok ==> final(self)@ == old(self)@,
    {
        if self.contains(s.id) {
            false
        } else {
            self.sessions.push(s);
            proof {
                assert forall|j: int, k: int|
                    0 <= j < k < self@.len() implies (#[trigger] self@[j].id) != (
                #[trigger] self@[k].id) by {
                    if k == self@.len() - 1 {
                        assert(!id_in(old(self)@, s.id));
                        assert(self@[j] == old(self)@[j]);
                    }
                }
            }
            true
        }
    }

    /// Evicts every session carrying `id` (at most one, in a well-formed
    /// registry), leaving the others in order. The identifier is free again
    /// afterwards.
    pub fn remove(&mut self, id: u64)
        requires
            old(self).wf(),
        ensures
            final(self).wf(),
            final(self)@ == remove_id_model(old(self)@, id),
            !id_in(final(self)@, id),
    {
        let ghost q0: Seq<Session> = self@;
        let mut kept: Vec<Session> = Vec::new();
        let mut i: usize = 0;
        while i < self.sessions.len()
            invariant
                i <= self.sessions.len(),
                self@ == q0,
                kept@ + remove_id_from(q0, id, i as int) == remove_id_from(q0, id, 0),
            decreases self.sessions.len() - i,
        {
            let s = self.sessions[i];
            if s.id != id {
                proof {
                    assert(remove_id_from(q0, id, i as int) == seq![q0[i as int]]
                        + remove_id_from(q0, id, i as int + 1));
                    assert((kept@.push(s)) + remove_id_from(q0, id, i as int + 1) =~= kept@
                        + remove_id_from(q0, id, i as int));
                }
                kept.push(s);
            }
            i += 1;
        }
        proof {
            assert(remove_id_from(q0, id, i as int) =~= Seq::<Session>::empty());
            assert(kept@ =~= kept@ + remove_id_from(q0, id, i as int));
            lemma_remove_id_from_props(q0, id, 0);
        }
        self.sessions = kept;
    }
}

} // verus!
