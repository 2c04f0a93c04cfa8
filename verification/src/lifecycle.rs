use vstd::prelude::*;

verus! {

/// Lifecycle of the shared model resource. The slot is `Absent` while no
/// instance has been constructed (or the last attempt failed), and `Ready`
/// once a construction succeeded. `Ready` is terminal: nothing unloads the
/// model short of a process restart.
#[derive(Clone, Copy, PartialEq, Eq, Structural, Debug)]
pub enum SlotStatus {
    Absent,
    Ready,
}

/// A request runs the initializer exactly when it finds the slot absent.
pub open spec fn constructs(s: SlotStatus) -> bool {
    s is Absent
}

/// The slot state after one request. `construction_ok` says whether that
/// request's construction attempt would succeed; it matters only when the
/// request finds the slot absent. A ready slot stays ready, a failed
/// construction leaves the slot absent.
pub open spec fn request_transition(s: SlotStatus, construction_ok: bool) -> SlotStatus {
    match s {
        SlotStatus::Absent => if construction_ok {
            SlotStatus::Ready
        } else {
            SlotStatus::Absent
        },
        SlotStatus::Ready => SlotStatus::Ready,
    }
}

/// The slot state after a series of requests, granted access one at a time;
/// `outcomes[k]` says whether the k-th request's construction attempt would
/// succeed, were one made.
pub open spec fn run_requests(s: SlotStatus, outcomes: Seq<bool>) -> SlotStatus
    decreases outcomes.len(),
{
    if outcomes.len() == 0 {
        s
    } else {
        run_requests(request_transition(s, outcomes[0]), outcomes.drop_first())
    }
}

/// Whether the k-th of a series of requests, all starting from a cold
/// (absent) slot, runs the initializer.
pub open spec fn constructs_at(outcomes: Seq<bool>, k: int) -> bool {
    constructs(run_requests(SlotStatus::Absent, outcomes.take(k)))
}

/// A request constructs the model exactly when it finds the slot absent.
pub fn would_construct(s: SlotStatus) -> (b: bool)
    ensures
        b == constructs(s),
{
    match s {
        SlotStatus::Absent => true,
        SlotStatus::Ready => false,
    }
}

/// Applies one request's effect on the slot state.
pub fn request_step(s: SlotStatus, construction_ok: bool) -> (r: SlotStatus)
    ensures
        r == request_transition(s, construction_ok),
{
    match s {
        SlotStatus::Absent => if construction_ok {
            SlotStatus::Ready
        } else {
            SlotStatus::Absent
        },
        SlotStatus::Ready => SlotStatus::Ready,
    }
}

proof fn lemma_run_snoc(s: SlotStatus, outcomes: Seq<bool>, b: bool)
    ensures
        run_requests(s, outcomes.push(b)) == request_transition(run_requests(s, outcomes), b),
    decreases outcomes.len(),
{
    if outcomes.len() == 0 {
        assert(outcomes.push(b)[0] == b);
        assert(outcomes.push(b).drop_first() =~= Seq::<bool>::empty());
        assert(run_requests(request_transition(s, b), Seq::<bool>::empty())
            == request_transition(s, b));
    } else {
        assert(outcomes.push(b)[0] == outcomes[0]);
        assert(outcomes.push(b).drop_first() =~= outcomes.drop_first().push(b));
        lemma_run_snoc(request_transition(s, outcomes[0]), outcomes.drop_first(), b);
    }
}

proof fn lemma_run_app(s: SlotStatus, a: Seq<bool>, b: Seq<bool>)
    ensures
        run_requests(s, a + b) == run_requests(run_requests(s, a), b),
    decreases a.len(),
{
    if a.len() == 0 {
        assert(a + b =~= b);
    } else {
        assert((a + b)[0] == a[0]);
        assert((a + b).drop_first() =~= a.drop_first() + b);
        lemma_run_app(request_transition(s, a[0]), a.drop_first(), b);
    }
}

/// Law: a ready slot stays ready through any series of requests — the model
/// is never unloaded or reconstructed.
pub proof fn lemma_ready_is_terminal(outcomes: Seq<bool>)
    ensures
        run_requests(SlotStatus::Ready, outcomes) == SlotStatus::Ready,
    decreases outcomes.len(),
{
    if outcomes.len() > 0 {
        lemma_ready_is_terminal(outcomes.drop_first());
    }
}

/// Law: the first request on a cold slot always runs the initializer.
pub proof fn lemma_first_request_constructs(outcomes: Seq<bool>)
    ensures
        constructs_at(outcomes, 0),
{
    assert(outcomes.take(0) =~= Seq::<bool>::empty());
}

/// Law: once a request's construction succeeds, no later request runs the
/// initializer again. Together with `lemma_first_request_constructs` and the
/// mutual exclusion of the slot's lock, this is the single-construction
/// guarantee: of any number of requests racing on a cold slot, exactly one
/// executes the initializer when its attempt succeeds.
pub proof fn lemma_single_construction(outcomes: Seq<bool>, i: int, j: int)
    requires
        0 <= i < j <= outcomes.len(),
        constructs_at(outcomes, i),
        outcomes[i],
    ensures
        !constructs_at(outcomes, j),
{
    assert(outcomes.take(i + 1) =~= outcomes.take(i).push(outcomes[i]));
    lemma_run_snoc(SlotStatus::Absent, outcomes.take(i), outcomes[i]);
    assert(outcomes.take(j) =~= outcomes.take(i + 1) + outcomes.subrange(i + 1, j));
    lemma_run_app(SlotStatus::Absent, outcomes.take(i + 1), outcomes.subrange(i + 1, j));
    lemma_ready_is_terminal(outcomes.subrange(i + 1, j));
}

/// Law: a failed construction is not sticky. A request that finds the slot
/// absent and fails to construct leaves it absent, so the very next request
/// runs the initializer again rather than failing without a retry.
pub proof fn lemma_failed_construction_retries(outcomes: Seq<bool>, i: int)
    requires
        0 <= i < outcomes.len(),
        constructs_at(outcomes, i),
        !outcomes[i],
    ensures
        constructs_at(outcomes, i + 1),
{
    assert(outcomes.take(i + 1) =~= outcomes.take(i).push(outcomes[i]));
    lemma_run_snoc(SlotStatus::Absent, outcomes.take(i), outcomes[i]);
}

} // verus!
