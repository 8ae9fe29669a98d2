//! What tasks leave behind, and why one does not change the outcome of another.
//!
//! A worker goes through its tasks one after the other, with the same caches. What a
//! task overrides or writes stays in the machine, so all that it leaves behind are
//! reads. The laws here speak of runs of such reads.

use vstd::prelude::*;
use crate::cache::diff::{ChainState, SHARED_EPOCH};
use crate::cache::GlobalSharedCache;
use crate::primitives::{AccountInfo, Address, B256, U256};
use crate::worker::cache::WorkerL1Cache;

verus! {

/// What can be read of the state.
pub ghost enum Query {
    Account(Address),
    Slot(Address, U256),
    Code(B256),
}

/// What a read gives.
pub ghost enum Fact {
    Account(Option<AccountInfo>),
    Slot(U256),
    Code(Seq<u8>),
}

/// What `state` says to `query`.
pub open spec fn fact_of(state: ChainState, query: Query) -> Fact {
    match query {
        Query::Account(address) => Fact::Account((state.account)(address)),
        Query::Slot(address, slot) => Fact::Slot((state.slot)(address, slot)),
        Query::Code(code_hash) => Fact::Code((state.code)(code_hash)),
    }
}

/// What the caches that a worker reads through may hand out: its own, and the
/// namespace of the shared one that follows the chain.
pub ghost struct ReadCaches {
    pub own: Map<Query, Fact>,
    pub shared: Map<Query, Fact>,
}

/// What a worker's own cache may hand out.
pub open spec fn own_facts(l1: WorkerL1Cache) -> Map<Query, Fact> {
    Map::new(
        |query: Query|
            match query {
                Query::Account(address) => l1.accounts@.contains_key(address),
                Query::Slot(address, slot) => l1.storage@.contains_key((address, slot)),
                Query::Code(code_hash) => l1.bytecodes@.contains_key(code_hash),
            },
        |query: Query|
            match query {
                Query::Account(address) => Fact::Account(l1.accounts@[address]),
                Query::Slot(address, slot) => Fact::Slot(l1.storage@[(address, slot)]),
                Query::Code(code_hash) => Fact::Code(l1.bytecodes@[code_hash]@),
            },
    )
}

/// What the shared cache may hand out of the state that follows the chain.
pub open spec fn shared_facts(global: GlobalSharedCache) -> Map<Query, Fact> {
    Map::new(
        |query: Query|
            match query {
                Query::Account(address) => global.accounts().contains_key((SHARED_EPOCH, address)),
                Query::Slot(address, slot) => global.storage().contains_key(
                    (SHARED_EPOCH, address, slot),
                ),
                Query::Code(code_hash) => global.bytecodes().contains_key(code_hash),
            },
        |query: Query|
            match query {
                Query::Account(address) => Fact::Account(
                    global.accounts()[(SHARED_EPOCH, address)],
                ),
                Query::Slot(address, slot) => Fact::Slot(
                    global.storage()[(SHARED_EPOCH, address, slot)],
                ),
                Query::Code(code_hash) => Fact::Code(global.bytecodes()[code_hash]),
            },
    )
}

/// What both caches may hand out.
pub open spec fn caches_of(l1: WorkerL1Cache, global: GlobalSharedCache) -> ReadCaches {
    ReadCaches { own: own_facts(l1), shared: shared_facts(global) }
}

/// A read: what was asked, what came back unless the read failed, and whether that is
/// what the database returned.
pub ghost struct ReadStep {
    pub query: Query,
    pub answer: Option<Fact>,
    pub loaded: bool,
}

/// Whether `step` leads from the caches `before` to the caches `after`. The worker's own
/// cache answers first, the shared one next, the database last, and the answer is kept
/// in the caches that did not have it. A read that fails changes nothing.
pub open spec fn reads(before: ReadCaches, step: ReadStep, after: ReadCaches) -> bool {
    match step.answer {
        None => after == before,
        Some(fact) => if before.own.contains_key(step.query) {
            &&& fact == before.own[step.query]
            &&& after == before
        } else {
            &&& before.shared.contains_pair(step.query, fact) || step.loaded
            &&& after.own == before.own.insert(step.query, fact)
            &&& after.shared == before.shared.insert(step.query, fact)
        },
    }
}

/// Whether the step at `i` leads from one state of the caches to the next.
pub open spec fn reads_at(caches: Seq<ReadCaches>, steps: Seq<ReadStep>, i: int) -> bool {
    reads(caches[i], steps[i], caches[i + 1])
}

/// Whether `steps` lead through `caches`, from the first to the last.
pub open spec fn is_run(caches: Seq<ReadCaches>, steps: Seq<ReadStep>) -> bool {
    &&& caches.len() == steps.len() + 1
    &&& forall|i: int| 0 <= i < steps.len() ==> #[trigger] reads_at(caches, steps, i)
}

/// Whether the database returned nothing but what `state` holds.
pub open spec fn truthful(steps: Seq<ReadStep>, state: ChainState) -> bool {
    forall|i: int|
        0 <= i < steps.len() && (#[trigger] steps[i]).loaded ==> (steps[i].answer matches Some(fact)
            ==> fact == fact_of(state, steps[i].query))
}

/// Whether every entry of `facts` is what `state` holds.
pub open spec fn all_hold(facts: Map<Query, Fact>, state: ChainState) -> bool {
    forall|query: Query| #[trigger]
        facts.contains_key(query) ==> facts[query] == fact_of(state, query)
}

/// Whether the caches hold nothing but what `state` holds.
pub open spec fn clean(caches: ReadCaches, state: ChainState) -> bool {
    all_hold(caches.own, state) && all_hold(caches.shared, state)
}

/// Whether every entry of `before` is in `after`, with its value.
pub open spec fn keeps(before: Map<Query, Fact>, after: Map<Query, Fact>) -> bool {
    forall|query: Query| #[trigger]
        before.contains_key(query) ==> after.contains_pair(query, before[query])
}

/// However many reads a task makes, what the caches held before is still there with its
/// value, and what is new is what the state holds. Every read that does not fail gives
/// what the state holds.
pub proof fn tasks_leave_only_clean_reads(
    caches: Seq<ReadCaches>,
    steps: Seq<ReadStep>,
    state: ChainState,
)
    requires
        is_run(caches, steps),
        truthful(steps, state),
        clean(caches[0], state),
    ensures
        clean(caches.last(), state),
        keeps(caches[0].own, caches.last().own),
        keeps(caches[0].shared, caches.last().shared),
        forall|i: int|
            0 <= i < steps.len() ==> ((#[trigger] steps[i]).answer matches Some(fact) ==> fact
                == fact_of(state, steps[i].query)),
    decreases steps.len(),
{
    if steps.len() > 0 {
        let n = steps.len() - 1;
        let sooner = caches.drop_last();
        let rest = steps.drop_last();
        assert forall|i: int| 0 <= i < rest.len() implies #[trigger] reads_at(sooner, rest, i) by {
            assert(reads_at(caches, steps, i));
        }
        assert forall|i: int| 0 <= i < rest.len() && (#[trigger] rest[i]).loaded implies (
        rest[i].answer matches Some(fact) ==> fact == fact_of(state, rest[i].query)) by {
            assert(rest[i] == steps[i]);
        }
        tasks_leave_only_clean_reads(sooner, rest, state);
        assert(sooner.last() == caches[n]);
        assert(reads_at(caches, steps, n));
        assert forall|i: int| 0 <= i < steps.len() implies ((#[trigger] steps[i]).answer matches Some(
            fact,
        ) ==> fact == fact_of(state, steps[i].query)) by {
            if i < n {
                assert(rest[i] == steps[i]);
            }
        }
        assert(steps[n].answer matches Some(fact) ==> fact == fact_of(state, steps[n].query));
    }
}

/// What the machine does next: it asks for something, or it has a result.
pub ghost enum Move<R> {
    Ask(Query),
    Done(R),
}

/// The answers to `steps`, `None` for each read that failed.
pub open spec fn answers(steps: Seq<ReadStep>) -> Seq<Option<Fact>> {
    Seq::new(steps.len(), |i: int| steps[i].answer)
}

/// Whether the machine asks what `steps` ask, and ends with `result`. `machine` is a task
/// with its overrides: what it does next follows from the answers so far, and from which
/// reads have failed.
pub open spec fn carries_out<R>(
    machine: spec_fn(Seq<Option<Fact>>) -> Move<R>,
    steps: Seq<ReadStep>,
    result: R,
) -> bool {
    &&& forall|i: int|
        0 <= i < steps.len() ==> machine(answers(steps).take(i)) == Move::<R>::Ask(
            (#[trigger] steps[i]).query,
        )
    &&& machine(answers(steps)) == Move::Done(result)
}

/// Whether the reads that failed are those that `fails` tells.
pub open spec fn fails_as(steps: Seq<ReadStep>, fails: spec_fn(Query) -> bool) -> bool {
    forall|i: int|
        0 <= i < steps.len() ==> ((#[trigger] steps[i]).answer is None <==> fails(steps[i].query))
}

proof fn same_answers<R>(
    machine: spec_fn(Seq<Option<Fact>>) -> Move<R>,
    fails: spec_fn(Query) -> bool,
    state: ChainState,
    a: Seq<ReadStep>,
    b: Seq<ReadStep>,
    a_result: R,
    b_result: R,
    n: int,
)
    requires
        carries_out(machine, a, a_result),
        carries_out(machine, b, b_result),
        fails_as(a, fails),
        fails_as(b, fails),
        forall|i: int|
            0 <= i < a.len() ==> ((#[trigger] a[i]).answer matches Some(fact) ==> fact == fact_of(
                state,
                a[i].query,
            )),
        forall|i: int|
            0 <= i < b.len() ==> ((#[trigger] b[i]).answer matches Some(fact) ==> fact == fact_of(
                state,
                b[i].query,
            )),
        0 <= n <= a.len(),
        n <= b.len(),
    ensures
        answers(a).take(n) == answers(b).take(n),
    decreases n,
{
    if n > 0 {
        same_answers(machine, fails, state, a, b, a_result, b_result, n - 1);
        assert(a[n - 1].query == b[n - 1].query);
        assert(answers(a).take(n) =~= answers(a).take(n - 1).push(answers(a)[n - 1]));
        assert(answers(b).take(n) =~= answers(b).take(n - 1).push(answers(b)[n - 1]));
    } else {
        assert(answers(a).take(n) =~= answers(b).take(n));
    }
}

/// One task does not change the outcome of the next. Whatever a first task has read,
/// and however it ended, a second task of the same epoch ends with the result that it
/// would have had without the first. Reads of the second may fail, as long as the same
/// ones would fail without the first.
pub proof fn tasks_do_not_interfere<R>(
    state: ChainState,
    first_caches: Seq<ReadCaches>,
    first_steps: Seq<ReadStep>,
    machine: spec_fn(Seq<Option<Fact>>) -> Move<R>,
    fails: spec_fn(Query) -> bool,
    then_caches: Seq<ReadCaches>,
    then_steps: Seq<ReadStep>,
    then_result: R,
    alone_caches: Seq<ReadCaches>,
    alone_steps: Seq<ReadStep>,
    alone_result: R,
)
    requires
        clean(first_caches[0], state),
        is_run(first_caches, first_steps),
        truthful(first_steps, state),
        then_caches[0] == first_caches.last(),
        is_run(then_caches, then_steps),
        truthful(then_steps, state),
        carries_out(machine, then_steps, then_result),
        fails_as(then_steps, fails),
        alone_caches[0] == first_caches[0],
        is_run(alone_caches, alone_steps),
        truthful(alone_steps, state),
        carries_out(machine, alone_steps, alone_result),
        fails_as(alone_steps, fails),
    ensures
        then_result == alone_result,
        answers(then_steps) == answers(alone_steps),
{
    tasks_leave_only_clean_reads(first_caches, first_steps, state);
    tasks_leave_only_clean_reads(then_caches, then_steps, state);
    tasks_leave_only_clean_reads(alone_caches, alone_steps, state);
    let a = then_steps;
    let b = alone_steps;
    let n: int = if a.len() <= b.len() {
        a.len() as int
    } else {
        b.len() as int
    };
    same_answers(machine, fails, state, a, b, then_result, alone_result, n);
    assert(answers(a).take(a.len() as int) =~= answers(a));
    assert(answers(b).take(b.len() as int) =~= answers(b));
    if a.len() < b.len() {
        assert(machine(answers(b).take(n)) == Move::<R>::Ask(b[n].query));
    }
    if b.len() < a.len() {
        assert(machine(answers(a).take(n)) == Move::<R>::Ask(a[n].query));
    }
}

/// A read that is answered is kept: both the worker's own cache and, unless that had it
/// already, the shared one hand the answer out from then on, and the next read of the same
/// thing gives it again, whatever the database would say. Nothing else is touched.
pub proof fn answers_are_kept(
    before: ReadCaches,
    step: ReadStep,
    between: ReadCaches,
    again: ReadStep,
    after: ReadCaches,
    other: Query,
)
    requires
        reads(before, step, between),
        reads(between, again, after),
        again.query == step.query,
    ensures
        step.answer matches Some(fact) ==> {
            &&& between.own.contains_pair(step.query, fact)
            &&& !before.own.contains_key(step.query) ==> between.shared.contains_pair(
                step.query,
                fact,
            )
            &&& again.answer matches Some(found) ==> found == fact && after == between
        },
        step.answer is None ==> between == before,
        other != step.query ==> {
            &&& between.own.contains_key(other) == before.own.contains_key(other)
            &&& between.shared.contains_key(other) == before.shared.contains_key(other)
            &&& before.own.contains_key(other) ==> between.own[other] == before.own[other]
            &&& before.shared.contains_key(other) ==> between.shared[other] == before.shared[other]
        },
{
}

/// A read is answered by the first that knows: by the worker's own cache; else by the shared
/// one or by the database, and by the database alone where neither cache has an entry.
pub proof fn reads_are_answered_by_the_first_that_knows(
    before: ReadCaches,
    step: ReadStep,
    after: ReadCaches,
)
    requires
        reads(before, step, after),
    ensures
        step.answer matches Some(fact) ==> {
            &&& before.own.contains_key(step.query) ==> fact == before.own[step.query] && after
                == before
            &&& !before.own.contains_key(step.query) && !step.loaded
                ==> before.shared.contains_key(step.query) && fact == before.shared[step.query]
            &&& !before.own.contains_key(step.query) && !before.shared.contains_key(step.query)
                ==> step.loaded
        },
{
}

} // verus!
