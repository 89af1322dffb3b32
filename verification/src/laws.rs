use vstd::prelude::*;
use crate::errors::ErrorModel;
use crate::session::{
    id_in, ids_unique, lemma_remove_id_from_props, remove_id_model, Session,
};
use crate::tick::{
    decide_model, lemma_survivors_from_props, survivors, ActionModel, TickEvent,
};

verus! {

/// Law: single delivery. `tick` pairs every live session with exactly one
/// action, in registry order. This lemma adds the two halves that make the
/// delivery one-shot across ticks: a session whose decision delivers an
/// outcome does not survive the tick — no session with its identifier
/// remains, so no later tick can reach its channel again — and a session
/// whose decision delivers nothing survives the tick unchanged, so a later
/// tick still reaches it and an outcome is never skipped.
pub proof fn lemma_single_delivery(
    q: Seq<Session>,
    slots: Seq<Option<Seq<char>>>,
    now_ms: u64,
    ev: TickEvent,
    j: int,
)
    requires
        ids_unique(q),
        slots.len() == q.len(),
        0 <= j < q.len(),
    ensures
        decide_model(q[j], slots[j], now_ms, ev) is Deliver ==> !id_in(
            survivors(q, slots, now_ms, ev),
            q[j].id,
        ),
        !(decide_model(q[j], slots[j], now_ms, ev) is Deliver) ==> survivors(
            q,
            slots,
            now_ms,
            ev,
        ).contains(q[j]),
{
    lemma_survivors_from_props(q, slots, now_ms, ev, 0);
    let surv = survivors(q, slots, now_ms, ev);
    if decide_model(q[j], slots[j], now_ms, ev) is Deliver {
        if id_in(surv, q[j].id) {
            let m = choose|m: int| 0 <= m < surv.len() && surv[m].id == q[j].id;
            assert(surv.contains(surv[m]));
            let k = choose|k: int|
                0 <= k < q.len() && q[k] == surv[m] && !(decide_model(
                    q[k],
                    slots[k],
                    now_ms,
                    ev,
                ) is Deliver);
            assert(k != j);
            assert(q[k].id == q[j].id);
            assert(false);
        }
    } else {
        assert(0 <= j < q.len() && q[j] == q[j] && !(decide_model(
            q[j],
            slots[j],
            now_ms,
            ev,
        ) is Deliver));
        assert(surv.contains(q[j]));
    }
}

/// Law: a session past its deadline cannot outlive its tick — whatever the
/// slot and the native event hold, its decision delivers some outcome, so a
/// render returns no later than one polling interval past its timeout.
pub proof fn lemma_overdue_delivers(
    s: Session,
    slot: Option<Seq<char>>,
    now_ms: u64,
    ev: TickEvent,
)
    requires
        now_ms - s.start_ms > s.timeout_ms,
    ensures
        decide_model(s, slot, now_ms, ev) is Deliver,
{
}

/// Law: timeout lower bound. A timeout failure is decided only once the
/// elapsed time strictly exceeds the configured timeout — never earlier —
/// and conversely, an empty slot past the deadline always decides exactly
/// the timeout failure.
pub proof fn lemma_timeout_bounds(s: Session, slot: Option<Seq<char>>, now_ms: u64, ev: TickEvent)
    ensures
        decide_model(s, slot, now_ms, ev) == ActionModel::Deliver(
            Result::<Seq<char>, ErrorModel>::Err(ErrorModel::Timeout),
        ) ==> slot is None && now_ms - s.start_ms > s.timeout_ms,
        slot is None && now_ms - s.start_ms > s.timeout_ms ==> decide_model(s, slot, now_ms, ev)
            == ActionModel::Deliver(Result::<Seq<char>, ErrorModel>::Err(ErrorModel::Timeout)),
{
}

/// Law: success precedence. A value in the result slot is delivered as the
/// success outcome whatever else the tick observes — in particular in the
/// very tick in which the timeout would otherwise fire, and in the tick in
/// which the surface's close arrives.
pub proof fn lemma_success_precedence(s: Session, h: Seq<char>, now_ms: u64, ev: TickEvent)
    ensures
        decide_model(s, Option::Some(h), now_ms, ev) == ActionModel::Deliver(
            Result::<Seq<char>, ErrorModel>::Ok(h),
        ),
{
}

/// Law: identifier reuse. Once every session carrying an identifier has
/// been removed, the identifier is free: no remaining session carries it,
/// uniqueness still holds, and registering a fresh session under that very
/// identifier keeps the registry well-formed — the newcomer shares no
/// record with the departed session.
pub proof fn lemma_identifier_reuse(q: Seq<Session>, id: u64, s: Session)
    requires
        ids_unique(q),
        s.id == id,
    ensures
        !id_in(remove_id_model(q, id), id),
        ids_unique(remove_id_model(q, id)),
        ids_unique(remove_id_model(q, id).push(s)),
{
    lemma_remove_id_from_props(q, id, 0);
    let rm = remove_id_model(q, id);
    assert forall|k1: int, k2: int|
        0 <= k1 < k2 < rm.push(s).len() implies (#[trigger] rm.push(s)[k1].id) != (
    #[trigger] rm.push(s)[k2].id) by {
        if k2 == rm.len() {
            assert(rm.push(s)[k1] == rm[k1]);
            if rm[k1].id == id {
                assert(id_in(rm, id));
            }
        } else {
            assert(rm.push(s)[k1] == rm[k1]);
            assert(rm.push(s)[k2] == rm[k2]);
        }
    }
}

} // verus!
