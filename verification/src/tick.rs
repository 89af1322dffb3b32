use vstd::prelude::*;
use crate::errors::{ErrorModel, RenderError};
use crate::script::opt_str_view;
use crate::session::{id_in, ids_unique, Registry, Session};

verus! {

/// The one aspect of the current native event that a tick's decisions read:
/// whether it closes a particular surface, and whether it is the marker that
/// all pending events of this iteration have been dispatched.
#[derive(Clone, Copy, PartialEq, Eq, Structural)]
pub enum TickEvent {
    /// A close was requested for the surface with this identifier.
    CloseRequested(u64),
    /// The events-drained marker: every pending native event of this loop
    /// iteration has been dispatched.
    EventsCleared,
    /// Any other native event.
    Other,
}

/// What the loop must do for one session on one tick.
pub enum TickAction {
    /// Push this outcome into the session's one-shot delivery channel and
    /// mark the session terminal.
    Deliver(Result<String, RenderError>),
    /// Invoke the page's readiness-and-extract callable, best effort.
    Evaluate,
    /// Leave the session for the next tick.
    Wait,
}

/// Mathematical model of a `TickAction`.
pub enum ActionModel {
    Deliver(Result<Seq<char>, ErrorModel>),
    Evaluate,
    Wait,
}

impl View for TickAction {
    type V = ActionModel;

    open spec fn view(&self) -> ActionModel {
        match self {
            TickAction::Deliver(Result::Ok(h)) => ActionModel::Deliver(Result::Ok(h@)),
            TickAction::Deliver(Result::Err(e)) => ActionModel::Deliver(Result::Err(e@)),
            TickAction::Evaluate => ActionModel::Evaluate,
            TickAction::Wait => ActionModel::Wait,
        }
    }
}

/// The detail message of the failure delivered when a surface closes before
/// any extraction message arrived.
pub open spec fn closed_msg() -> Seq<char> {
    "Window closed before HTML captured"@
}

/// The tick decision for one session, in the loop's significant order: a
/// result in the slot is delivered as success before anything else (so a
/// value arriving in the very tick the timeout would fire still wins); next
/// an expired deadline delivers the timeout failure; next a close request
/// for this session's surface delivers the closed-without-result failure
/// (and, coming before the poll step, keeps a closing surface from being
/// handed a stray script evaluation); on the events-drained marker the page
/// is polled; otherwise the session waits.
pub open spec fn decide_model(
    s: Session,
    slot: Option<Seq<char>>,
    now_ms: u64,
    ev: TickEvent,
) -> ActionModel {
    match slot {
        Option::Some(h) => ActionModel::Deliver(Result::Ok(h)),
        Option::None => if now_ms - s.start_ms > s.timeout_ms {
            ActionModel::Deliver(Result::Err(ErrorModel::Timeout))
        } else if ev == TickEvent::CloseRequested(s.id) {
            ActionModel::Deliver(Result::Err(ErrorModel::Unknown(closed_msg())))
        } else if ev == TickEvent::EventsCleared {
            ActionModel::Evaluate
        } else {
            ActionModel::Wait
        },
    }
}

/// Computes the tick decision for one session. `slot` is the value drained
/// from the session's result slot at the start of the tick; `now_ms` is the
/// tick's reading of the monotonic clock.
pub fn decide(s: &Session, slot: &Option<String>, now_ms: u64, ev: &TickEvent) -> (a: TickAction)
    requires
        s.start_ms <= now_ms,
    ensures
        a@ == decide_model(*s, opt_str_view(*slot), now_ms, *ev),
{
    match slot {
        Option::Some(h) => TickAction::Deliver(Ok(h.clone())),
        Option::None => {
            if now_ms - s.start_ms > s.timeout_ms {
                TickAction::Deliver(Err(RenderError::Timeout))
            } else if *ev == TickEvent::CloseRequested(s.id) {
                TickAction::Deliver(
                    Err(
                        RenderError::Unknown(
                            String::from_str("Window closed before HTML captured"),
                        ),
                    ),
                )
            } else if *ev == TickEvent::EventsCleared {
                TickAction::Evaluate
            } else {
                TickAction::Wait
            }
        },
    }
}

/// The views of a vector of drained result slots.
pub open spec fn slots_view(s: Seq<Option<String>>) -> Seq<Option<Seq<char>>> {
    s.map_values(|o: Option<String>| opt_str_view(o))
}

/// The sessions from position `i` on that survive a tick: those whose
/// decision delivers nothing.
pub open spec fn survivors_from(
    q: Seq<Session>,
    slots: Seq<Option<Seq<char>>>,
    now_ms: u64,
    ev: TickEvent,
    i: int,
) -> Seq<Session>
    decreases q.len() - i,
{
    if i < 0 || i >= q.len() {
        Seq::empty()
    } else if decide_model(q[i], slots[i], now_ms, ev) is Deliver {
        survivors_from(q, slots, now_ms, ev, i + 1)
    } else {
        seq![q[i]] + survivors_from(q, slots, now_ms, ev, i + 1)
    }
}

/// The sessions that survive a tick: those whose decision delivers nothing.
pub open spec fn survivors(
    q: Seq<Session>,
    slots: Seq<Option<Seq<char>>>,
    now_ms: u64,
    ev: TickEvent,
) -> Seq<Session> {
    survivors_from(q, slots, now_ms, ev, 0)
}

/// What survives a tick, characterised: exactly the sessions at positions
/// `i` and beyond whose decision is not a delivery; hence identifier
/// uniqueness survives the tick.
pub proof fn lemma_survivors_from_props(
    q: Seq<Session>,
    slots: Seq<Option<Seq<char>>>,
    now_ms: u64,
    ev: TickEvent,
    i: int,
)
    requires
        0 <= i,
        slots.len() == q.len(),
    ensures
        forall|x: Session| #[trigger]
            survivors_from(q, slots, now_ms, ev, i).contains(x) <==> (exists|j: int|
                i <= j < q.len() && q[j] == x && !(decide_model(
                    q[j],
                    slots[j],
                    now_ms,
                    ev,
                ) is Deliver)),
        forall|x: u64| #[trigger]
            id_in(survivors_from(q, slots, now_ms, ev, i), x) ==> (exists|j: int|
                i <= j < q.len() && (#[trigger] q[j].id) == x),
        ids_unique(q) ==> ids_unique(survivors_from(q, slots, now_ms, ev, i)),
    decreases q.len() - i,
{
    if i >= q.len() {
        assert(survivors_from(q, slots, now_ms, ev, i) =~= Seq::<Session>::empty());
    } else {
        lemma_survivors_from_props(q, slots, now_ms, ev, i + 1);
        let rest = survivors_from(q, slots, now_ms, ev, i + 1);
        let cur = survivors_from(q, slots, now_ms, ev, i);
        if decide_model(q[i], slots[i], now_ms, ev) is Deliver {
            assert forall|x: Session| #[trigger]
                cur.contains(x) implies (exists|j: int|
                i <= j < q.len() && q[j] == x && !(decide_model(
                    q[j],
                    slots[j],
                    now_ms,
                    ev,
                ) is Deliver)) by {
                assert(rest.contains(x));
                let j = choose|j: int|
                    i + 1 <= j < q.len() && q[j] == x && !(decide_model(
                        q[j],
                        slots[j],
                        now_ms,
                        ev,
                    ) is Deliver);
                assert(i <= j < q.len() && q[j] == x);
            }
            assert forall|x: Session|
                (exists|j: int|
                    i <= j < q.len() && q[j] == x && !(decide_model(
                        q[j],
                        slots[j],
                        now_ms,
                        ev,
                    ) is Deliver)) implies #[trigger] cur.contains(x) by {
                let j = choose|j: int|
                    i <= j < q.len() && q[j] == x && !(decide_model(
                        q[j],
                        slots[j],
                        now_ms,
                        ev,
                    ) is Deliver);
                assert(j != i);
                assert(rest.contains(x));
            }
        } else {
            assert(cur == seq![q[i]] + rest);
            assert forall|x: Session| #[trigger]
                cur.contains(x) implies (exists|j: int|
                i <= j < q.len() && q[j] == x && !(decide_model(
                    q[j],
                    slots[j],
                    now_ms,
                    ev,
                ) is Deliver)) by {
                let m = choose|m: int| 0 <= m < cur.len() && cur[m] == x;
                if m == 0 {
                    assert(cur[0] == q[i]);
                    assert(i <= i < q.len() && q[i] == x && !(decide_model(
                        q[i],
                        slots[i],
                        now_ms,
                        ev,
                    ) is Deliver));
                } else {
                    assert(cur[m] == rest[m - 1]);
                    assert(rest.contains(x));
                    let j = choose|j: int|
                        i + 1 <= j < q.len() && q[j] == x && !(decide_model(
                            q[j],
                            slots[j],
                            now_ms,
                            ev,
                        ) is Deliver);
                    assert(i <= j < q.len() && q[j] == x);
                }
            }
            assert forall|x: Session|
                (exists|j: int|
                    i <= j < q.len() && q[j] == x && !(decide_model(
                        q[j],
                        slots[j],
                        now_ms,
                        ev,
                    ) is Deliver)) implies #[trigger] cur.contains(x) by {
                let j = choose|j: int|
                    i <= j < q.len() && q[j] == x && !(decide_model(
                        q[j],
                        slots[j],
                        now_ms,
                        ev,
                    ) is Deliver);
                if j == i {
                    assert(cur[0] == x);
                } else {
                    assert(rest.contains(x));
                    let m = choose|m: int| 0 <= m < rest.len() && rest[m] == x;
                    assert(cur[m + 1] == x);
                }
            }
            assert forall|x: u64| #[trigger]
                id_in(cur, x) implies (exists|j: int|
                i <= j < q.len() && (#[trigger] q[j].id) == x) by {
                let m = choose|m: int| 0 <= m < cur.len() && cur[m].id == x;
                assert(cur.contains(cur[m]));
            }
            if ids_unique(q) {
                assert forall|k1: int, k2: int|
                    0 <= k1 < k2 < cur.len() implies (#[trigger] cur[k1].id) != (
                #[trigger] cur[k2].id) by {
                    if k1 == 0 {
                        assert(cur[k2] == rest[k2 - 1]);
                        assert(rest.contains(rest[k2 - 1]));
                        let j = choose|j: int| i + 1 <= j < q.len() && q[j] == rest[k2 - 1];
                        assert(q[i].id != q[j].id);
                    } else {
                        assert(cur[k1] == rest[k1 - 1]);
                        assert(cur[k2] == rest[k2 - 1]);
                    }
                }
            }
        }
    }
}

/// One orchestration tick over every live session, in registry order.
///
/// `slots` holds, for each session in the same order, the value drained from
/// that session's result slot at the start of the tick. The returned vector
/// pairs each session's identifier with its decided action; every session
/// whose action is a delivery has been removed from the registry when the
/// call returns, and every other session remains, in order.
pub fn tick(reg: &mut Registry, slots: &Vec<Option<String>>, now_ms: u64, ev: &TickEvent) -> (out:
    Vec<(u64, TickAction)>)
    requires
        old(reg).wf(),
        slots@.len() == old(reg)@.len(),
        forall|i: int| 0 <= i < old(reg)@.len() ==> (#[trigger] old(reg)@[i]).start_ms <= now_ms,
    ensures
        final(reg).wf(),
        out@.len() == old(reg)@.len(),
        forall|i: int|
            0 <= i < out@.len() ==> (#[trigger] out@[i]).0 == old(reg)@[i].id && out@[i].1@
                == decide_model(old(reg)@[i], slots_view(slots@)[i], now_ms, *ev),
        final(reg)@ == survivors(old(reg)@, slots_view(slots@), now_ms, *ev),
{
    let ghost q0: Seq<Session> = reg@;
    let ghost sv: Seq<Option<Seq<char>>> = slots_view(slots@);
    let mut out: Vec<(u64, TickAction)> = Vec::new();
    let mut kept: Vec<Session> = Vec::new();
    let mut i: usize = 0;
    while i < reg.sessions.len()
        invariant
            reg@ == q0,
            sv == slots_view(slots@),
            sv.len() == q0.len(),
            slots@.len() == q0.len(),
            forall|k: int| 0 <= k < q0.len() ==> (#[trigger] q0[k]).start_ms <= now_ms,
            i <= q0.len(),
            out@.len() == i,
            forall|k: int|
                0 <= k < i ==> (#[trigger] out@[k]).0 == q0[k].id && out@[k].1@ == decide_model(
                    q0[k],
                    sv[k],
                    now_ms,
                    *ev,
                ),
            kept@ + survivors_from(q0, sv, now_ms, *ev, i as int) == survivors_from(
                q0,
                sv,
                now_ms,
                *ev,
                0,
            ),
        decreases reg.sessions.len() - i,
    {
        let s = reg.sessions[i];
        let a = decide(&s, &slots[i], now_ms, ev);
        proof {
            assert(sv[i as int] == opt_str_view(slots@[i as int]));
        }
        if a.is_deliver() {
            proof {
                assert(survivors_from(q0, sv, now_ms, *ev, i as int) == survivors_from(
                    q0,
                    sv,
                    now_ms,
                    *ev,
                    i as int + 1,
                ));
            }
        } else {
            proof {
                assert(survivors_from(q0, sv, now_ms, *ev, i as int) == seq![q0[i as int]]
                    + survivors_from(q0, sv, now_ms, *ev, i as int + 1));
                assert((kept@.push(s)) + survivors_from(q0, sv, now_ms, *ev, i as int + 1) =~= kept@
                    + survivors_from(q0, sv, now_ms, *ev, i as int));
            }
            kept.push(s);
        }
        out.push((s.id, a));
        i += 1;
    }
    proof {
        assert(survivors_from(q0, sv, now_ms, *ev, i as int) =~= Seq::<Session>::empty());
        assert(kept@ =~= kept@ + survivors_from(q0, sv, now_ms, *ev, i as int));
        lemma_survivors_from_props(q0, sv, now_ms, *ev, 0);
    }
    reg.sessions = kept;
    out
}

impl TickAction {
    /// Whether this action delivers an outcome (and so ends its session).
    pub fn is_deliver(&self) -> (b: bool)
        ensures
            b == (self@ is Deliver),
    {
        match self {
            TickAction::Deliver(_) => true,
            _ => false,
        }
    }
}

} // verus!
