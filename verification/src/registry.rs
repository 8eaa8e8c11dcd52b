//! Subscription reconciliation: which creation calls a fresh session needs.
//!
//! Every welcome (or reconnect) frame delivers a session id. For each
//! configured chat target the client must hold exactly one pair of
//! subscriptions bound to that session: one for chat messages, one for chat
//! notifications. The remote listing of already-enabled subscriptions is
//! consulted first, so that a reconnect that resumes a session, or a naive
//! retry, never creates duplicates.

use vstd::prelude::*;

verus! {

/// A topic a subscription registers interest in.
#[derive(Clone, Copy, PartialEq, Eq, Structural)]
pub enum Topic {
    /// A chat message in the target's channel.
    ChatMessage,
    /// A chat notification (sub, raid, announcement) in the target's channel.
    ChatNotification,
}

/// One enabled subscription as the remote listing reports it: the transport
/// session it is bound to, its topic, and the channel owner it targets.
pub struct SubRecord {
    pub session_id: String,
    pub topic: Topic,
    pub target_user_id: String,
}

/// One subscription-creation call still to be made, bound to the new session.
pub struct CreateRequest {
    pub topic: Topic,
    pub target_user_id: String,
}

/// Whether the listing already holds an enabled subscription bound to
/// session `sid` for channel `target`. Topic is not consulted: any enabled
/// entry for the pair means the target was already set up on this session.
pub open spec fn covered(existing: Seq<SubRecord>, sid: Seq<char>, target: Seq<char>) -> bool {
    exists|i: int|
        #![trigger existing[i]]
        0 <= i < existing.len() && existing[i].session_id@ == sid
            && existing[i].target_user_id@ == target
}

/// The pair of creation calls an uncovered target needs.
pub open spec fn pair_for(target: String) -> Seq<CreateRequest> {
    seq![
        CreateRequest { topic: Topic::ChatMessage, target_user_id: target },
        CreateRequest { topic: Topic::ChatNotification, target_user_id: target },
    ]
}

/// The minimal set of creation calls for `targets` on session `sid`, given
/// the enabled subscriptions `existing`: two calls per uncovered target, in
/// target order, and none for a covered one.
pub open spec fn reconcile_plan(
    existing: Seq<SubRecord>,
    sid: Seq<char>,
    targets: Seq<String>,
) -> Seq<CreateRequest>
    decreases targets.len(),
{
    if targets.len() == 0 {
        Seq::empty()
    } else {
        reconcile_plan(existing, sid, targets.drop_last()) + (if covered(
            existing,
            sid,
            targets.last()@,
        ) {
            Seq::<CreateRequest>::empty()
        } else {
            pair_for(targets.last())
        })
    }
}

/// Compute the creation calls a fresh session `session_id` still needs for
/// `targets`, given the enabled subscriptions `existing` already bound to it.
pub fn plan_subscriptions(
    existing: &Vec<SubRecord>,
    session_id: &String,
    targets: &Vec<String>,
) -> (calls: Vec<CreateRequest>)
    ensures
        calls@ == reconcile_plan(existing@, session_id@, targets@),
{
    let mut calls: Vec<CreateRequest> = Vec::new();
    let mut t: usize = 0;
    while t < targets.len()
        invariant
            t <= targets.len(),
            calls@ == reconcile_plan(existing@, session_id@, targets@.take(t as int)),
        decreases targets.len() - t,
    {
        let target = &targets[t];
        let mut found = false;
        let mut i: usize = 0;
        while i < existing.len()
            invariant
                i <= existing.len(),
                found <==> covered(existing@.take(i as int), session_id@, target@),
            decreases existing.len() - i,
        {
            if existing[i].session_id == *session_id && existing[i].target_user_id == *target {
                found = true;
                proof {
                    assert(existing@.take(i + 1)[i as int] == existing@[i as int]);
                }
            }
            proof {
                if covered(existing@.take(i + 1), session_id@, target@) && !covered(
                    existing@.take(i as int),
                    session_id@,
                    target@,
                ) {
                    let w = choose|w: int|
                        #![trigger existing@.take(i + 1)[w]]
                        0 <= w < i + 1 && existing@.take(i + 1)[w].session_id@ == session_id@
                            && existing@.take(i + 1)[w].target_user_id@ == target@;
                    assert(existing@.take(i + 1)[w] == existing@[w]);
                    assert(w == i);
                }
            }
            i += 1;
        }
        proof {
            assert(existing@.take(existing@.len() as int) =~= existing@);
        }
        if !found {
            calls.push(CreateRequest { topic: Topic::ChatMessage, target_user_id: target.clone() });
            calls.push(
                CreateRequest { topic: Topic::ChatNotification, target_user_id: target.clone() },
            );
        }
        proof {
            let full = targets@.take(t + 1);
            assert(full.drop_last() =~= targets@.take(t as int));
            assert(full.last() == targets@[t as int]);
        }
        t += 1;
    }
    proof {
        assert(targets@.take(targets@.len() as int) =~= targets@);
    }
    calls
}

/// The enabled record that executing one creation call on session `sid`
/// produces on the remote side.
pub open spec fn record_of(call: CreateRequest, sid: String) -> SubRecord {
    SubRecord { session_id: sid, topic: call.topic, target_user_id: call.target_user_id }
}

/// The enabled records that executing a sequence of creation calls on
/// session `sid` produces, in call order.
pub open spec fn records_of(calls: Seq<CreateRequest>, sid: String) -> Seq<SubRecord> {
    calls.map_values(|call: CreateRequest| record_of(call, sid))
}

proof fn lemma_records_of_concat(a: Seq<CreateRequest>, b: Seq<CreateRequest>, sid: String)
    ensures
        records_of(a + b, sid) =~= records_of(a, sid) + records_of(b, sid),
{
}

/// A covered target stays covered when the listing grows.
proof fn lemma_covered_grows(ex: Seq<SubRecord>, more: Seq<SubRecord>, sid: Seq<char>, target: Seq<char>)
    requires
        covered(ex, sid, target),
    ensures
        covered(ex + more, sid, target),
{
    let w = choose|w: int|
        #![trigger ex[w]]
        0 <= w < ex.len() && ex[w].session_id@ == sid && ex[w].target_user_id@ == target;
    assert((ex + more)[w] == ex[w]);
}

/// Executing the whole plan leaves every target covered on session `sid`.
proof fn lemma_plan_covers(existing: Seq<SubRecord>, sid: String, targets: Seq<String>)
    ensures
        forall|j: int|
            0 <= j < targets.len() ==> covered(
                existing + records_of(reconcile_plan(existing, sid@, targets), sid),
                sid@,
                targets[j]@,
            ),
    decreases targets.len(),
{
    if targets.len() > 0 {
        let prefix = targets.drop_last();
        let head_plan = reconcile_plan(existing, sid@, prefix);
        let tail = if covered(existing, sid@, targets.last()@) {
            Seq::<CreateRequest>::empty()
        } else {
            pair_for(targets.last())
        };
        let whole = reconcile_plan(existing, sid@, targets);
        assert(whole == head_plan + tail);
        lemma_plan_covers(existing, sid, prefix);
        lemma_records_of_concat(head_plan, tail, sid);
        let after = existing + records_of(whole, sid);
        assert(after =~= (existing + records_of(head_plan, sid)) + records_of(tail, sid));
        assert forall|j: int| 0 <= j < prefix.len() implies covered(after, sid@, targets[j]@) by {
            assert(prefix[j] == targets[j]);
            lemma_covered_grows(
                existing + records_of(head_plan, sid),
                records_of(tail, sid),
                sid@,
                targets[j]@,
            );
        }
        let last = targets.len() - 1;
        if covered(existing, sid@, targets.last()@) {
            lemma_covered_grows(existing, records_of(whole, sid), sid@, targets[last]@);
        } else {
            let w = after.len() - 1;
            assert(after[w] == records_of(tail, sid)[1]);
            assert(after[w].session_id@ == sid@ && after[w].target_user_id@ == targets[last]@);
        }
    }
}

/// Subscriptions the registry reports as still enabled under the new
/// session id are never re-created: a plan over a listing that already
/// covers every target asks for nothing.
pub proof fn lemma_plan_empty_when_covered(ex: Seq<SubRecord>, sid: Seq<char>, targets: Seq<String>)
    requires
        forall|j: int| 0 <= j < targets.len() ==> covered(ex, sid, targets[j]@),
    ensures
        reconcile_plan(ex, sid, targets) =~= Seq::<CreateRequest>::empty(),
    decreases targets.len(),
{
    if targets.len() > 0 {
        assert(forall|j: int|
            0 <= j < targets.drop_last().len() ==> targets.drop_last()[j] == targets[j]);
        lemma_plan_empty_when_covered(ex, sid, targets.drop_last());
        assert(covered(ex, sid, targets.last()@));
    }
}

/// Reconciliation is idempotent: once the calls of one plan have been
/// executed on session `sid` — so their records stand in the listing beside
/// what was already enabled — replanning the same targets against that
/// listing asks for nothing.
pub proof fn lemma_reconcile_idempotent(
    existing: Seq<SubRecord>,
    sid: String,
    targets: Seq<String>,
)
    ensures
        reconcile_plan(
            existing + records_of(reconcile_plan(existing, sid@, targets), sid),
            sid@,
            targets,
        ) =~= Seq::<CreateRequest>::empty(),
{
    lemma_plan_covers(existing, sid, targets);
    lemma_plan_empty_when_covered(
        existing + records_of(reconcile_plan(existing, sid@, targets), sid),
        sid@,
        targets,
    );
}

} // verus!
