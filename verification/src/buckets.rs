//! What a keyed rate limiter holds, and what its buckets promise.
//!
//! Every key has a bucket of its own. A bucket is known by the time at which it is full again, in
//! nanoseconds since the limiter was made. A cell may be taken from it as long as it is full again
//! at most a burst later, counting the cell; taking one puts that time off by one interval.
//!
//! Time comes in as `now`. The functions here say what happens at a given time, so that what holds
//! of several checks can be stated of the times at which they are made.

use vstd::prelude::*;

verus! {

/// The buckets of a limiter.
#[verifier::ext_equal]
#[verifier::reject_recursive_types(K)]
pub struct Buckets<K> {
    /// How many cells each key has been granted since its bucket was made.
    pub cells: Map<K, nat>,
    /// When the bucket of each key is full again.
    pub full_at: Map<K, nat>,
    /// How many cells a full bucket holds.
    pub burst: nat,
    /// The nanoseconds in which one cell is replenished.
    pub interval: nat,
}

/// A limiter without buckets.
pub open spec fn fresh<K>(burst: nat, interval: nat) -> Buckets<K> {
    Buckets { cells: Map::empty(), full_at: Map::empty(), burst, interval }
}

/// The time in which one cell is replenished at `per_second` cells per second: the whole
/// nanoseconds of one second's share, and never less than one.
pub open spec fn replenish_nanos(per_second: nat) -> nat {
    if 1_000_000_000nat / per_second < 1 {
        1
    } else {
        1_000_000_000nat / per_second
    }
}

/// The cells granted to `key`; none where it has no bucket.
pub open spec fn granted<K>(cells: Map<K, nat>, key: K) -> nat {
    if cells.contains_key(key) {
        cells[key]
    } else {
        0
    }
}

/// Whether `now` can be the present, where time never runs backwards: no bucket is full again
/// later than a whole burst from now, nor later than the cells that it has granted.
pub open spec fn can_be_now<K>(b: Buckets<K>, now: nat) -> bool {
    forall|key: K| #[trigger]
        b.full_at.contains_key(key) ==> b.full_at[key] <= now + b.burst * b.interval
            && b.full_at[key] <= now + granted(b.cells, key) * b.interval
}

/// Whether a check of `key` is allowed at `now`.
pub open spec fn allows<K>(b: Buckets<K>, key: K, now: nat) -> bool {
    b.full_at.contains_key(key) ==> b.full_at[key] <= now + (b.burst - 1) * b.interval
}

/// When a bucket is full again from which a cell is taken at `now`.
pub open spec fn full_after<K>(b: Buckets<K>, key: K, now: nat) -> nat {
    b.interval + if b.full_at.contains_key(key) && b.full_at[key] > now {
        b.full_at[key]
    } else {
        now
    }
}

/// The buckets after a check of `key` at `now`: one that is allowed takes a cell, one that is not
/// changes nothing.
pub open spec fn checked<K>(b: Buckets<K>, key: K, now: nat) -> Buckets<K> {
    if allows(b, key, now) {
        Buckets {
            cells: b.cells.insert(key, granted(b.cells, key) + 1),
            full_at: b.full_at.insert(key, full_after(b, key, now)),
            ..b
        }
    } else {
        b
    }
}

/// What one check of `key` does: it is answered, and the buckets change, as at some time that can
/// be the present.
pub open spec fn check_step<K>(before: Buckets<K>, after: Buckets<K>, key: K, allowed: bool) -> bool {
    exists|now: nat| #[trigger]
        can_be_now(before, now) && allowed == allows(before, key, now) && after == checked(
            before,
            key,
            now,
        )
}

/// The keys whose buckets were not yet full one interval before `now`.
pub open spec fn recent<K>(b: Buckets<K>, now: nat) -> Set<K> {
    Set::new(|key: K| b.full_at.contains_key(key) && b.full_at[key] + b.interval > now)
}

/// The buckets after a reclaim at `now`: those that were full one interval before are gone, and
/// all the others are as they were.
pub open spec fn reclaimed<K>(b: Buckets<K>, now: nat) -> Buckets<K> {
    Buckets {
        cells: b.cells.restrict(recent(b, now)),
        full_at: b.full_at.restrict(recent(b, now)),
        ..b
    }
}

/// What a reclaim does: the buckets change as at some time that can be the present.
pub open spec fn reclaim_step<K>(before: Buckets<K>, after: Buckets<K>) -> bool {
    exists|now: nat| #[trigger] can_be_now(before, now) && after == reclaimed(before, now)
}

/// Whether buckets are kept for exactly `n` keys.
pub open spec fn tracks<K>(cells: Map<K, nat>, n: nat) -> bool {
    cells.dom().finite() && cells.dom().len() == n
}

/// Whether the cells and the times are those of the same keys, and a bucket holds something.
pub open spec fn well_formed<K>(b: Buckets<K>) -> bool {
    &&& b.cells.dom() == b.full_at.dom()
    &&& b.burst > 0
    &&& b.interval > 0
}

/// Buckets stay well-formed.
pub proof fn law_buckets_stay_well_formed<K>(b: Buckets<K>, key: K, now: nat)
    requires
        well_formed(b),
    ensures
        well_formed(checked(b, key, now)),
        well_formed(reclaimed(b, now)),
{
    assert(checked(b, key, now).cells.dom() =~= checked(b, key, now).full_at.dom());
    assert(reclaimed(b, now).cells.dom() =~= reclaimed(b, now).full_at.dom());
}

/// After a check or a reclaim at a time that can be the present, every later time can be. So all that
/// [`can_be_now`] asks of time is that it does not run backwards.
pub proof fn law_time_moves_on<K>(b: Buckets<K>, key: K, now: nat, later: nat)
    requires
        can_be_now(b, now),
        now <= later,
        b.burst > 0,
        b.cells.dom() == b.full_at.dom(),
    ensures
        can_be_now(checked(b, key, now), later),
        can_be_now(reclaimed(b, now), later),
{
    let i = b.interval;
    let after = checked(b, key, now);
    assert forall|k: K| #[trigger] after.full_at.contains_key(k) implies after.full_at[k] <= later
        + after.burst * i && after.full_at[k] <= later + granted(after.cells, k) * i by {
        if k == key && allows(b, key, now) {
            let g = granted(b.cells, key);
            assert((b.burst - 1) * i + i == b.burst * i) by (nonlinear_arith);
            assert(b.burst * i >= i) by (nonlinear_arith)
                requires
                    b.burst >= 1,
                    i >= 0,
            ;
            assert((g + 1) * i == g * i + i) by (nonlinear_arith);
            assert(g * i >= 0) by (nonlinear_arith)
                requires
                    g >= 0,
                    i >= 0,
            ;
            assert(after.full_at[k] == full_after(b, key, now));
            assert(granted(after.cells, k) == g + 1);
        } else {
            assert(b.full_at.contains_key(k));
        }
    }
    let kept = reclaimed(b, now);
    assert forall|k: K| #[trigger] kept.full_at.contains_key(k) implies kept.full_at[k] <= later
        + kept.burst * i && kept.full_at[k] <= later + granted(kept.cells, k) * i by {
        assert(b.full_at.contains_key(k));
        assert(kept.cells.contains_key(k));
    }
}

/// A key that has been granted fewer cells than the burst is granted the next one.
pub proof fn law_burst_is_granted<K>(before: Buckets<K>, after: Buckets<K>, key: K, allowed: bool)
    requires
        check_step(before, after, key, allowed),
        granted(before.cells, key) < before.burst,
    ensures
        allowed,
{
    let now = choose|now: nat| #[trigger]
        can_be_now(before, now) && allowed == allows(before, key, now) && after == checked(
            before,
            key,
            now,
        );
    let g = granted(before.cells, key);
    let most = (before.burst - 1) as nat;
    assert(g * before.interval <= most * before.interval) by (nonlinear_arith)
        requires
            g <= most,
            before.interval >= 0,
    ;
}

/// Whether `key` has taken its cells without pause since `since`: its bucket is full again no
/// earlier than all the cells that it was granted are replenished, one after the other, from then
/// on.
pub open spec fn busy_since<K>(b: Buckets<K>, key: K, since: nat) -> bool {
    b.full_at.contains_key(key) && b.full_at[key] >= since + granted(b.cells, key) * b.interval
}

/// A key is busy since the time of its first check, and stays so through every check.
pub proof fn law_busy_since_the_first_check<K>(
    b: Buckets<K>,
    asked: K,
    now: nat,
    key: K,
    since: nat,
)
    ensures
        busy_since(b, key, since) ==> busy_since(checked(b, asked, now), key, since),
        !b.cells.contains_key(key) && !b.full_at.contains_key(key) ==> busy_since(
            checked(b, key, now),
            key,
            now,
        ),
{
    let g = granted(b.cells, key);
    assert((g + 1) * b.interval == g * b.interval + b.interval) by (nonlinear_arith);
    assert(1 * b.interval == b.interval);
}

/// No key goes over its rate: what it has been granted since `since` is replenished at most one
/// burst from now.
pub proof fn law_grants_keep_to_the_rate<K>(b: Buckets<K>, key: K, since: nat, now: nat)
    requires
        busy_since(b, key, since),
        can_be_now(b, now),
    ensures
        since + granted(b.cells, key) * b.interval <= now + b.burst * b.interval,
{
}

/// A key that is refused is allowed one interval later at the latest.
pub proof fn law_refusal_lasts_an_interval_at_most<K>(b: Buckets<K>, key: K, now: nat)
    requires
        can_be_now(b, now),
        !allows(b, key, now),
    ensures
        allows(b, key, now + b.interval),
{
    let i = b.interval;
    assert((b.burst - 1) * i + i == b.burst * i) by (nonlinear_arith);
}

/// The buckets after the checks `asks`, each of a key at a time.
pub open spec fn after_all<K>(b: Buckets<K>, asks: Seq<(K, nat)>) -> Buckets<K>
    decreases asks.len(),
{
    if asks.len() == 0 {
        b
    } else {
        checked(after_all(b, asks.drop_last()), asks.last().0, asks.last().1)
    }
}

/// The checks of one key.
pub open spec fn only<K>(asks: Seq<(K, nat)>, key: K) -> Seq<(K, nat)>
    decreases asks.len(),
{
    if asks.len() == 0 {
        seq![]
    } else if asks.last().0 == key {
        only(asks.drop_last(), key).push(asks.last())
    } else {
        only(asks.drop_last(), key)
    }
}

/// Whether two limiters have the same bucket for `key`.
spec fn same_bucket<K>(a: Buckets<K>, b: Buckets<K>, key: K) -> bool {
    &&& a.full_at.contains_key(key) == b.full_at.contains_key(key)
    &&& a.full_at.contains_key(key) ==> a.full_at[key] == b.full_at[key]
    &&& granted(a.cells, key) == granted(b.cells, key)
    &&& a.burst == b.burst
    &&& a.interval == b.interval
}

/// The checks of other keys leave a key's bucket as it is.
proof fn lemma_only_own_checks_count<K>(b: Buckets<K>, asks: Seq<(K, nat)>, key: K)
    ensures
        same_bucket(after_all(b, asks), after_all(b, only(asks, key)), key),
    decreases asks.len(),
{
    if asks.len() > 0 {
        lemma_only_own_checks_count(b, asks.drop_last(), key);
        if asks.last().0 == key {
            let own = only(asks, key);
            assert(own.drop_last() =~= only(asks.drop_last(), key));
            assert(own.last() == asks.last());
        }
    }
}

/// The answer to a key at a given time depends on the checks of that key alone: checks of other
/// keys, whenever they are made, neither use up nor refill its bucket.
pub proof fn law_answers_do_not_depend_on_other_keys<K>(
    b: Buckets<K>,
    asks: Seq<(K, nat)>,
    key: K,
    now: nat,
)
    ensures
        allows(after_all(b, asks), key, now) == allows(after_all(b, only(asks, key)), key, now),
{
    lemma_only_own_checks_count(b, asks, key);
}

/// `n` checks of one key at one time.
pub open spec fn at_once<K>(key: K, now: nat, n: nat) -> Seq<(K, nat)> {
    Seq::new(n, |i: int| (key, now))
}

/// The bucket after `n` checks at one time.
proof fn lemma_bucket_at_once<K>(b: Buckets<K>, key: K, now: nat, n: nat)
    requires
        b.burst > 0,
        b.interval > 0,
        !b.full_at.contains_key(key),
    ensures
        ({
            let after = after_all(b, at_once(key, now, n));
            let taken = if n < b.burst {
                n
            } else {
                b.burst
            };
            &&& after.burst == b.burst
            &&& after.interval == b.interval
            &&& after.full_at.contains_key(key) == (n > 0)
            &&& n > 0 ==> after.full_at[key] == now + taken * b.interval
        }),
    decreases n,
{
    let asks = at_once(key, now, n);
    let i = b.interval;
    if n > 0 {
        let m = (n - 1) as nat;
        lemma_bucket_at_once(b, key, now, m);
        assert(asks.drop_last() =~= at_once(key, now, m));
        assert(asks.last() == (key, now));
        let taken = if m < b.burst {
            m
        } else {
            b.burst
        };
        assert((taken + 1) * i == taken * i + i) by (nonlinear_arith);
        assert(taken < b.burst ==> taken * i <= (b.burst - 1) * i) by (nonlinear_arith)
            requires
                i > 0,
        ;
        assert(taken * i >= i || taken == 0) by (nonlinear_arith)
            requires
                i > 0,
                taken >= 0,
        ;
        assert(b.burst * i > (b.burst - 1) * i) by (nonlinear_arith)
            requires
                i > 0,
        ;
        assert(0 * i == 0);
    }
}

/// Of checks of a fresh key that are made at one time, exactly the burst is allowed, and every
/// later one is refused. How fast cells are replenished does not matter.
pub proof fn law_exactly_the_burst_at_one_time<K>(b: Buckets<K>, key: K, now: nat, n: nat)
    requires
        b.burst > 0,
        b.interval > 0,
        !b.full_at.contains_key(key),
    ensures
        allows(after_all(b, at_once(key, now, n)), key, now) <==> n < b.burst,
{
    let i = b.interval;
    lemma_bucket_at_once(b, key, now, n);
    assert(n < b.burst ==> n * i <= (b.burst - 1) * i) by (nonlinear_arith)
        requires
            i > 0,
    ;
    assert(b.burst * i > (b.burst - 1) * i) by (nonlinear_arith)
        requires
            i > 0,
    ;
}

/// The same in any company: of the checks of a fresh key that are made at one time, exactly the
/// burst is allowed, whatever checks of other keys are made in between.
pub proof fn law_exactly_the_burst_in_company<K>(
    b: Buckets<K>,
    asks: Seq<(K, nat)>,
    key: K,
    now: nat,
    n: nat,
)
    requires
        b.burst > 0,
        b.interval > 0,
        !b.full_at.contains_key(key),
        only(asks, key) == at_once(key, now, n),
    ensures
        allows(after_all(b, asks), key, now) <==> n < b.burst,
{
    law_answers_do_not_depend_on_other_keys(b, asks, key, now);
    law_exactly_the_burst_at_one_time(b, key, now, n);
}

/// A check of one key leaves what every other key has been granted as it is.
pub proof fn law_keys_are_independent<K>(
    before: Buckets<K>,
    after: Buckets<K>,
    key: K,
    allowed: bool,
    other: K,
)
    requires
        check_step(before, after, key, allowed),
        other != key,
    ensures
        after.cells.contains_key(other) == before.cells.contains_key(other),
        granted(after.cells, other) == granted(before.cells, other),
        forall|now: nat| allows(after, other, now) == allows(before, other, now),
{
}

/// How often `key` occurs in `keys`.
pub open spec fn occurrences<K>(keys: Seq<K>, key: K) -> nat
    decreases keys.len(),
{
    if keys.len() == 0 {
        0
    } else {
        occurrences(keys.drop_last(), key) + if keys.last() == key {
            1nat
        } else {
            0nat
        }
    }
}

/// Whether `states` are the buckets before, between and after a run of checks of `keys` that were
/// answered with `answers`.
pub open spec fn is_run<K>(states: Seq<Buckets<K>>, keys: Seq<K>, answers: Seq<bool>) -> bool {
    &&& states.len() == keys.len() + 1
    &&& answers.len() == keys.len()
    &&& forall|i: int|
        0 <= i < keys.len() ==> check_step(
            states[i],
            #[trigger] states[i + 1],
            keys[i],
            answers[i],
        )
}

/// No key is ever granted more cells in a run than it was checked for.
proof fn lemma_granted_at_most_checked<K>(
    states: Seq<Buckets<K>>,
    keys: Seq<K>,
    answers: Seq<bool>,
    key: K,
    n: int,
)
    requires
        is_run(states, keys, answers),
        0 <= n <= keys.len(),
    ensures
        states[n].burst == states[0].burst,
        granted(states[n].cells, key) <= granted(states[0].cells, key) + occurrences(
            keys.take(n),
            key,
        ),
    decreases n,
{
    if n > 0 {
        lemma_granted_at_most_checked(states, keys, answers, key, n - 1);
        assert(keys.take(n).drop_last() =~= keys.take(n - 1));
        assert(states[(n - 1) + 1] == states[n]);
    }
}

/// In any interleaving of checks, at whatever times, the first `burst` checks of each fresh key are
/// all allowed, no matter what the other keys do.
pub proof fn law_every_key_has_its_own_burst<K>(
    states: Seq<Buckets<K>>,
    keys: Seq<K>,
    answers: Seq<bool>,
    n: int,
)
    requires
        is_run(states, keys, answers),
        0 <= n < keys.len(),
        !states[0].cells.contains_key(keys[n]),
        occurrences(keys.take(n), keys[n]) < states[0].burst,
    ensures
        answers[n],
{
    lemma_granted_at_most_checked(states, keys, answers, keys[n], n);
    assert(check_step(states[n], states[n + 1], keys[n], answers[n]));
    law_burst_is_granted(states[n], states[n + 1], keys[n], answers[n]);
}

/// A key is busy all through a run since its first check.
proof fn lemma_busy_through_run<K>(
    states: Seq<Buckets<K>>,
    keys: Seq<K>,
    answers: Seq<bool>,
    key: K,
    since: nat,
    first: int,
    n: int,
)
    requires
        is_run(states, keys, answers),
        0 <= first < n <= keys.len(),
        busy_since(states[first + 1], key, since),
    ensures
        busy_since(states[n], key, since),
    decreases n,
{
    if n > first + 1 {
        lemma_busy_through_run(states, keys, answers, key, since, first, n - 1);
        let before = states[n - 1];
        let after = states[(n - 1) + 1];
        let asked = keys[n - 1];
        assert(check_step(before, after, asked, answers[n - 1]));
        let now = choose|now: nat| #[trigger]
            can_be_now(before, now) && answers[n - 1] == allows(before, asked, now) && after
                == checked(before, asked, now);
        law_busy_since_the_first_check(before, asked, now, key, since);
    }
}

/// In any run of checks no key goes over its rate. Of a key that is first checked at `since`, what
/// it has been granted by `now` is no more than one burst and what the time in between has
/// replenished.
pub proof fn law_runs_keep_to_the_rate<K>(
    states: Seq<Buckets<K>>,
    keys: Seq<K>,
    answers: Seq<bool>,
    first: int,
)
    requires
        is_run(states, keys, answers),
        0 <= first < keys.len(),
        well_formed(states[first]),
        !states[first].cells.contains_key(keys[first]),
    ensures
        exists|since: nat| #[trigger]
            can_be_now(states[first], since) && forall|n: int, now: nat|
                first < n <= keys.len() && #[trigger] can_be_now(states[n], now) ==> since
                    + granted(states[n].cells, keys[first]) * states[n].interval <= now
                    + states[n].burst * states[n].interval,
{
    let key = keys[first];
    let before = states[first];
    let after = states[first + 1];
    assert(check_step(before, after, key, answers[first]));
    let since = choose|now: nat| #[trigger]
        can_be_now(before, now) && answers[first] == allows(before, key, now) && after == checked(
            before,
            key,
            now,
        );
    assert(!before.full_at.contains_key(key)) by {
        assert(before.cells.dom() == before.full_at.dom());
        assert(!before.cells.dom().contains(key));
    }
    law_busy_since_the_first_check(before, key, since, key, since);
    assert forall|n: int, now: nat|
        first < n <= keys.len() && #[trigger] can_be_now(states[n], now) implies since + granted(
        states[n].cells,
        key,
    ) * states[n].interval <= now + states[n].burst * states[n].interval by {
        lemma_busy_through_run(states, keys, answers, key, since, first, n);
        law_grants_keep_to_the_rate(states[n], key, since, now);
    }
}

/// The keys that are tracked after a run of checks are those that were tracked before and those
/// that were checked, whether they were allowed or not; each counts once.
pub proof fn law_tracked_keys_are_those_checked<K>(
    states: Seq<Buckets<K>>,
    keys: Seq<K>,
    answers: Seq<bool>,
    n: int,
)
    requires
        is_run(states, keys, answers),
        well_formed(states[0]),
        0 <= n <= keys.len(),
    ensures
        well_formed(states[n]),
        states[n].cells.dom() == states[0].cells.dom().union(keys.take(n).to_set()),
    decreases n,
{
    if n == 0 {
        assert(keys.take(0).to_set() =~= Set::<K>::empty());
        assert(states[0].cells.dom().union(Set::empty()) =~= states[0].cells.dom());
    } else {
        law_tracked_keys_are_those_checked(states, keys, answers, n - 1);
        let before = states[n - 1];
        let after = states[(n - 1) + 1];
        let key = keys[n - 1];
        assert(check_step(before, after, key, answers[n - 1]));
        let now = choose|now: nat| #[trigger]
            can_be_now(before, now) && answers[n - 1] == allows(before, key, now) && after
                == checked(before, key, now);
        law_buckets_stay_well_formed(before, key, now);
        assert(after.cells.dom() =~= before.cells.dom().insert(key));
        let shorter = keys.take(n - 1);
        let longer = keys.take(n);
        assert(longer =~= shorter.push(key));
        assert forall|k: K| longer.to_set().contains(k) <==> shorter.to_set().contains(k) || k
            == key by {
            if shorter.to_set().contains(k) {
                let i = choose|i: int| 0 <= i < shorter.len() && shorter[i] == k;
                assert(longer[i] == k);
            }
            if k == key {
                assert(longer[n - 1] == k);
            }
            if longer.to_set().contains(k) {
                let i = choose|i: int| 0 <= i < longer.len() && longer[i] == k;
                if i < n - 1 {
                    assert(shorter[i] == k);
                }
            }
        }
        assert(states[n].cells.dom() =~= states[0].cells.dom().union(longer.to_set()));
    }
}

/// From a limiter that tracks nothing, checks alone make it track as many keys as there are
/// distinct ones among those checked.
pub proof fn law_tracked_keys_are_counted_once<K>(
    states: Seq<Buckets<K>>,
    keys: Seq<K>,
    answers: Seq<bool>,
    burst: nat,
    interval: nat,
)
    requires
        is_run(states, keys, answers),
        states[0] == fresh::<K>(burst, interval),
        burst > 0,
        interval > 0,
    ensures
        tracks(states.last().cells, keys.to_set().len()),
{
    assert(well_formed(states[0])) by {
        assert(states[0].cells.dom() =~= states[0].full_at.dom());
    }
    let n = keys.len() as int;
    law_tracked_keys_are_those_checked(states, keys, answers, n);
    assert(keys.take(n) =~= keys);
    assert(states[0].cells.dom() =~= Set::<K>::empty());
    assert(states[n].cells.dom() =~= keys.to_set());
    vstd::seq_lib::seq_to_set_is_finite(keys);
}

/// A reclaim changes no answer, then or later: the buckets that it drops are as good as fresh. A
/// key that is refused is refused all the same, and a cell that is taken afterwards counts as it
/// would have.
pub proof fn law_reclaiming_changes_no_answer<K>(b: Buckets<K>, now: nat, key: K, later: nat)
    requires
        b.burst > 0,
        now <= later,
    ensures
        allows(reclaimed(b, now), key, later) == allows(b, key, later),
        full_after(reclaimed(b, now), key, later) == full_after(b, key, later),
{
    assert((b.burst - 1) * b.interval >= 0) by (nonlinear_arith)
        requires
            b.burst > 0,
            b.interval >= 0,
    ;
}

/// Reclaiming never takes cells away, and never makes a limiter track more: every key has been
/// granted at most as many as before.
pub proof fn law_reclaiming_never_tightens<K>(before: Buckets<K>, after: Buckets<K>, key: K)
    requires
        reclaim_step(before, after),
    ensures
        granted(after.cells, key) <= granted(before.cells, key),
        after.cells.submap_of(before.cells),
        before.cells.dom().finite() ==> after.cells.dom().len() <= before.cells.dom().len(),
{
    assert(after.cells.submap_of(before.cells));
    assert(after.cells.dom().subset_of(before.cells.dom()));
    if before.cells.dom().finite() {
        vstd::set_lib::lemma_len_subset(after.cells.dom(), before.cells.dom());
    }
}

/// Reclaiming forgets a key that was full again, one interval past, before another key was last
/// granted a cell: however many keys there have been, only those stay that were used of late.
pub proof fn law_reclaiming_forgets_idle_keys<K>(
    before: Buckets<K>,
    after: Buckets<K>,
    idle: K,
    active: K,
)
    requires
        reclaim_step(before, after),
        before.full_at.contains_key(idle),
        before.full_at.contains_key(active),
        before.full_at[idle] + before.interval + granted(before.cells, active) * before.interval
            <= before.full_at[active],
    ensures
        !after.cells.contains_key(idle),
{
}

/// Reclaiming goes by age: with a key goes every key that was full again no later.
pub proof fn law_reclaiming_goes_by_age<K>(
    before: Buckets<K>,
    after: Buckets<K>,
    gone: K,
    older: K,
)
    requires
        reclaim_step(before, after),
        before.cells.contains_key(gone) && before.full_at.contains_key(gone),
        before.full_at.contains_key(older),
        before.full_at[older] <= before.full_at[gone],
        !after.cells.contains_key(gone),
    ensures
        !after.cells.contains_key(older),
{
}

} // verus!
