//! Exact-duplicate coalescing of targeted system events.
//!
//! A window stays open per exact identity (see `contract::same_identity`)
//! until its interval elapses within its boot, it is flushed explicitly or at
//! shutdown, or it is evicted to keep the active set bounded. Each closure
//! cause is a distinct `CoalescingClosure`.
use vstd::prelude::*;

use crate::contract::{
    coalesced, identical_happening, same_identity, window_of,
};
use crate::wire::{
    BootIdentifier, CoalescedSystemEvent, CoalescingClosure, ExactCoalescingStatus,
    SystemEvent, SystemEventAccepted,
};

verus! {

// ---------------------------------------------------------------------------
// Saturating i64 arithmetic
// ---------------------------------------------------------------------------

/// The value clamped into the range of `i64`.
pub open spec fn clamp_i64(value: int) -> int {
    if value > i64::MAX {
        i64::MAX as int
    } else if value < i64::MIN {
        i64::MIN as int
    } else {
        value
    }
}

/// `a + b`, clamped at the bounds of `i64`.
pub fn saturating_add_i64(a: i64, b: i64) -> (sum: i64)
    ensures
        sum == clamp_i64(a + b),
{
    match a.checked_add(b) {
        Some(sum) => sum,
        None => if b > 0 {
            i64::MAX
        } else {
            i64::MIN
        },
    }
}

/// `a - b`, clamped at the bounds of `i64`.
pub fn saturating_sub_i64(a: i64, b: i64) -> (difference: i64)
    ensures
        difference == clamp_i64(a - b),
{
    match a.checked_sub(b) {
        Some(difference) => difference,
        None => if b < 0 {
            i64::MAX
        } else {
            i64::MIN
        },
    }
}

// ---------------------------------------------------------------------------
// The policy
// ---------------------------------------------------------------------------

pub const DEFAULT_MAXIMUM_ACTIVE_KEYS: usize = 10_000;

pub const DEFAULT_INTERVAL_MICROSECONDS: i64 = 60_000_000;

#[derive(Debug, Clone, Copy, PartialEq, Eq)]
pub struct ExactCoalescingPolicy {
    maximum_active_keys: usize,
    interval_microseconds: i64,
}

impl ExactCoalescingPolicy {
    /// The active-key bound.
    pub closed spec fn maximum(&self) -> usize {
        self.maximum_active_keys
    }

    /// How long a window may stay open within its boot, in microseconds.
    pub closed spec fn interval(&self) -> i64 {
        self.interval_microseconds
    }

    pub fn new(maximum_active_keys: usize, interval_microseconds: i64) -> (policy: Self)
        ensures
            policy.maximum() == maximum_active_keys,
            policy.interval() == interval_microseconds,
    {
        Self { maximum_active_keys, interval_microseconds }
    }
}

impl Default for ExactCoalescingPolicy {
    fn default() -> (policy: Self)
        ensures
            policy.maximum() == DEFAULT_MAXIMUM_ACTIVE_KEYS,
            policy.interval() == DEFAULT_INTERVAL_MICROSECONDS,
    {
        Self::new(DEFAULT_MAXIMUM_ACTIVE_KEYS, DEFAULT_INTERVAL_MICROSECONDS)
    }
}

// ---------------------------------------------------------------------------
// What a window and a set of windows are
// ---------------------------------------------------------------------------

/// A window whose interval has elapsed at `now`, within `boot`.
pub open spec fn expired(
    window: CoalescedSystemEvent,
    boot: BootIdentifier,
    now: i64,
    interval: i64,
) -> bool {
    &&& window.system_event.boot_identifier == boot
    &&& clamp_i64(now - window.first_event_instant) >= interval
}

pub open spec fn expired_under(boot: BootIdentifier, now: i64, interval: i64) -> spec_fn(
    CoalescedSystemEvent,
) -> bool {
    |window: CoalescedSystemEvent| expired(window, boot, now, interval)
}

pub open spec fn fresh_under(boot: BootIdentifier, now: i64, interval: i64) -> spec_fn(
    CoalescedSystemEvent,
) -> bool {
    |window: CoalescedSystemEvent| !expired(window, boot, now, interval)
}

pub open spec fn of_boot(boot: BootIdentifier) -> spec_fn(CoalescedSystemEvent) -> bool {
    |window: CoalescedSystemEvent| window.system_event.boot_identifier == boot
}

pub open spec fn not_of_boot(boot: BootIdentifier) -> spec_fn(CoalescedSystemEvent) -> bool {
    |window: CoalescedSystemEvent| window.system_event.boot_identifier != boot
}

/// The window with its closure cause replaced.
pub open spec fn closed_as(window: CoalescedSystemEvent, closure: CoalescingClosure) -> CoalescedSystemEvent {
    CoalescedSystemEvent { coalescing_closure: closure, ..window }
}

/// Every window with its closure cause replaced.
pub open spec fn all_closed_as(windows: Seq<CoalescedSystemEvent>, closure: CoalescingClosure) -> Seq<
    CoalescedSystemEvent,
> {
    windows.map_values(|window: CoalescedSystemEvent| closed_as(window, closure))
}

/// The window after one more exact duplicate arrived at `now`.
pub open spec fn bumped(window: CoalescedSystemEvent, now: i64) -> CoalescedSystemEvent {
    let count = clamp_i64(window.first_integer + 1);
    CoalescedSystemEvent {
        first_integer: count as i64,
        second_integer: clamp_i64(count - 1) as i64,
        second_event_instant: now,
        ..window
    }
}

/// `a` was last seen strictly before `b`, ties broken by event identifier.
pub open spec fn older(a: CoalescedSystemEvent, b: CoalescedSystemEvent) -> bool {
    ||| a.second_event_instant < b.second_event_instant
    ||| (a.second_event_instant == b.second_event_instant
        && a.system_event.event_identifier < b.system_event.event_identifier)
}

/// `k` is the first position holding a least-recently-seen window.
pub open spec fn first_oldest(windows: Seq<CoalescedSystemEvent>, k: int) -> bool {
    &&& 0 <= k < windows.len()
    &&& forall|j: int| 0 <= j < windows.len() ==> !older(#[trigger] windows[j], windows[k])
    &&& forall|j: int| 0 <= j < k ==> older(windows[k], #[trigger] windows[j])
}

/// No two windows share an exact identity.
pub open spec fn distinct_windows(windows: Seq<CoalescedSystemEvent>) -> bool {
    forall|i: int, j: int|
        0 <= i < windows.len() && 0 <= j < windows.len() && i != j ==> !same_identity(
            #[trigger] windows[i].system_event,
            #[trigger] windows[j].system_event,
        )
}

/// An open window: still active, and its suppressed count is its count less one.
pub open spec fn open_window(window: CoalescedSystemEvent) -> bool {
    &&& window.coalescing_closure == CoalescingClosure::Active
    &&& window.first_integer >= 1
    &&& window.second_integer == window.first_integer - 1
}

/// How many windows may be open at once under a key bound.
pub open spec fn active_bound(maximum: usize) -> int {
    if maximum == 0 {
        1
    } else {
        maximum as int
    }
}

/// What one ingestion does: the windows that stay open, the window the event
/// landed in, the windows it closed, and the eviction count after it.
pub open spec fn ingest_outcome(
    windows: Seq<CoalescedSystemEvent>,
    evictions: i64,
    maximum: usize,
    interval: i64,
    event: SystemEvent,
) -> (Seq<CoalescedSystemEvent>, CoalescedSystemEvent, Seq<CoalescedSystemEvent>, i64) {
    let boot = event.boot_identifier;
    let now = event.event_instant;
    let fresh = windows.filter(fresh_under(boot, now, interval));
    let closed_by_interval = all_closed_as(
        windows.filter(expired_under(boot, now, interval)),
        CoalescingClosure::Interval,
    );
    if exists|i: int| 0 <= i < fresh.len() && same_identity(fresh[i].system_event, event) {
        let i = choose|i: int| 0 <= i < fresh.len() && same_identity(fresh[i].system_event, event);
        let joined = bumped(fresh[i], now);
        (fresh.update(i, joined), joined, closed_by_interval, evictions)
    } else {
        let opened = window_of(event, CoalescingClosure::Active);
        if fresh.len() >= maximum && fresh.len() > 0 {
            let k = choose|k: int| first_oldest(fresh, k);
            (
                fresh.remove(k).push(opened),
                opened,
                closed_by_interval.push(closed_as(fresh[k], CoalescingClosure::Eviction)),
                clamp_i64(evictions + 1) as i64,
            )
        } else {
            (fresh.push(opened), opened, closed_by_interval, evictions)
        }
    }
}

// ---------------------------------------------------------------------------
// Lemmas about sets of windows
// ---------------------------------------------------------------------------

/// Filtering keeps windows distinct, keeps only windows that were there, and
/// keeps every window the predicate admits.
pub proof fn lemma_filter_windows(windows: Seq<CoalescedSystemEvent>, keep: spec_fn(CoalescedSystemEvent) -> bool)
    requires
        distinct_windows(windows),
    ensures
        distinct_windows(windows.filter(keep)),
        forall|i: int|
            0 <= i < windows.filter(keep).len() ==> windows.contains(#[trigger] windows.filter(keep)[i]),
        forall|i: int|
            0 <= i < windows.filter(keep).len() ==> keep(#[trigger] windows.filter(keep)[i]),
        forall|i: int|
            0 <= i < windows.len() && keep(windows[i]) ==> #[trigger] windows.filter(keep).contains(
                windows[i],
            ),
        windows.filter(keep).len() <= windows.len(),
    decreases windows.len(),
{
    broadcast use vstd::seq_lib::group_filter_ensures;
    reveal(Seq::filter);
    if windows.len() > 0 {
        let rest = windows.drop_last();
        assert(distinct_windows(rest)) by {
            assert forall|i: int, j: int|
                0 <= i < rest.len() && 0 <= j < rest.len() && i != j implies !same_identity(
                #[trigger] rest[i].system_event,
                #[trigger] rest[j].system_event,
            ) by {
                assert(rest[i] == windows[i]);
                assert(rest[j] == windows[j]);
            }
        }
        lemma_filter_windows(rest, keep);
        let kept = rest.filter(keep);
        let last = windows.last();
        if keep(last) {
            assert(windows.filter(keep) == kept.push(last));
            assert forall|i: int, j: int|
                0 <= i < kept.len() + 1 && 0 <= j < kept.len() + 1 && i != j implies !same_identity(
                #[trigger] kept.push(last)[i].system_event,
                #[trigger] kept.push(last)[j].system_event,
            ) by {
                if i < kept.len() && j < kept.len() {
                    assert(kept.push(last)[i] == kept[i]);
                    assert(kept.push(last)[j] == kept[j]);
                } else if i < kept.len() {
                    assert(rest.contains(kept[i]));
                    let a = choose|a: int| 0 <= a < rest.len() && rest[a] == kept[i];
                    assert(windows[a] == kept[i]);
                    assert(!same_identity(windows[a].system_event, windows[windows.len() - 1].system_event));
                } else {
                    assert(rest.contains(kept[j]));
                    let a = choose|a: int| 0 <= a < rest.len() && rest[a] == kept[j];
                    assert(windows[a] == kept[j]);
                    assert(!same_identity(windows[windows.len() - 1].system_event, windows[a].system_event));
                }
            }
        } else {
            assert(windows.filter(keep) == kept);
        }
    }
}

/// The window an eviction closes is determined: at most one position holds
/// the first least-recently-seen window.
pub proof fn law_eviction_victim_is_unique(windows: Seq<CoalescedSystemEvent>, a: int, b: int)
    requires
        first_oldest(windows, a),
        first_oldest(windows, b),
    ensures
        a == b,
{
    if a < b {
        assert(older(windows[b], windows[a]));
        assert(!older(windows[b], windows[a]));
    } else if b < a {
        assert(older(windows[a], windows[b]));
        assert(!older(windows[a], windows[b]));
    }
}

/// In distinct windows at most one window shares the event's identity.
pub proof fn lemma_identity_position_unique(
    windows: Seq<CoalescedSystemEvent>,
    event: SystemEvent,
    a: int,
    b: int,
)
    requires
        distinct_windows(windows),
        0 <= a < windows.len(),
        0 <= b < windows.len(),
        same_identity(windows[a].system_event, event),
        same_identity(windows[b].system_event, event),
    ensures
        a == b,
{
    if a != b {
        assert(!same_identity(windows[a].system_event, windows[b].system_event));
    }
}

/// Removing a window keeps the rest distinct, each in its shifted place.
pub proof fn lemma_remove_keeps_distinct(windows: Seq<CoalescedSystemEvent>, k: int)
    requires
        distinct_windows(windows),
        0 <= k < windows.len(),
    ensures
        distinct_windows(windows.remove(k)),
        forall|j: int| 0 <= j < windows.remove(k).len() ==> #[trigger] windows.contains(windows.remove(k)[j]),
{
    let rest = windows.remove(k);
    assert forall|j: int| 0 <= j < rest.len() implies #[trigger] windows.contains(rest[j]) by {
        if j < k {
            assert(rest[j] == windows[j]);
        } else {
            assert(rest[j] == windows[j + 1]);
        }
    }
    assert forall|a: int, b: int|
        0 <= a < rest.len() && 0 <= b < rest.len() && a != b implies !same_identity(
        #[trigger] rest[a].system_event,
        #[trigger] rest[b].system_event,
    ) by {
        let a2 = if a < k { a } else { a + 1 };
        let b2 = if b < k { b } else { b + 1 };
        assert(rest[a] == windows[a2]);
        assert(rest[b] == windows[b2]);
    }
}

/// Appending a window of a new identity keeps the windows distinct.
pub proof fn lemma_push_keeps_distinct(windows: Seq<CoalescedSystemEvent>, window: CoalescedSystemEvent)
    requires
        distinct_windows(windows),
        forall|j: int| 0 <= j < windows.len() ==> !same_identity(#[trigger] windows[j].system_event, window.system_event),
    ensures
        distinct_windows(windows.push(window)),
{
    let all = windows.push(window);
    assert forall|a: int, b: int|
        0 <= a < all.len() && 0 <= b < all.len() && a != b implies !same_identity(
        #[trigger] all[a].system_event,
        #[trigger] all[b].system_event,
    ) by {
        if a < windows.len() && b < windows.len() {
            assert(all[a] == windows[a]);
            assert(all[b] == windows[b]);
        } else if a < windows.len() {
            assert(all[a] == windows[a]);
            assert(!same_identity(windows[a].system_event, window.system_event));
        } else {
            assert(all[b] == windows[b]);
            assert(!same_identity(windows[b].system_event, window.system_event));
        }
    }
}

/// Closing every window is one closed window per open one, in order.
pub proof fn lemma_all_closed_push(
    windows: Seq<CoalescedSystemEvent>,
    window: CoalescedSystemEvent,
    closure: CoalescingClosure,
)
    ensures
        all_closed_as(windows.push(window), closure) == all_closed_as(windows, closure).push(
            closed_as(window, closure),
        ),
{
    assert(all_closed_as(windows.push(window), closure) =~= all_closed_as(windows, closure).push(
        closed_as(window, closure),
    ));
}

// ---------------------------------------------------------------------------
// The update one ingestion returns
// ---------------------------------------------------------------------------

#[derive(Debug, PartialEq)]
pub struct CoalescingUpdate {
    current: CoalescedSystemEvent,
    closed: Vec<CoalescedSystemEvent>,
}

impl Clone for CoalescingUpdate {
    fn clone(&self) -> (r: Self)
        ensures
            r.current_window() == self.current_window(),
            r.closed_windows() == self.closed_windows(),
    {
        let closed = self.closed.clone();
        proof {
            assert(closed@ =~= self.closed@);
        }
        CoalescingUpdate { current: self.current.clone(), closed }
    }
}

impl CoalescingUpdate {
    /// The window the event landed in, as it stands after the event.
    pub closed spec fn current_window(&self) -> CoalescedSystemEvent {
        self.current
    }

    /// The windows this ingestion closed.
    pub closed spec fn closed_windows(&self) -> Seq<CoalescedSystemEvent> {
        self.closed@
    }

    pub fn current(&self) -> (window: &CoalescedSystemEvent)
        ensures
            *window == self.current_window(),
    {
        &self.current
    }

    pub fn closed(&self) -> (windows: &[CoalescedSystemEvent])
        ensures
            windows@ == self.closed_windows(),
    {
        self.closed.as_slice()
    }

    /// The acceptance receipt: the representative's identifier, the count, and
    /// the suppressed count of the current window.
    pub fn receipt(&self) -> (accepted: SystemEventAccepted)
        ensures
            accepted.event_identifier == self.current_window().system_event.event_identifier,
            accepted.first_integer == self.current_window().first_integer,
            accepted.second_integer == self.current_window().second_integer,
    {
        SystemEventAccepted {
            event_identifier: self.current.system_event.event_identifier,
            first_integer: self.current.first_integer,
            second_integer: self.current.second_integer,
        }
    }
}

// ---------------------------------------------------------------------------
// The coalescer
// ---------------------------------------------------------------------------

#[derive(Debug)]
pub struct ExactDuplicateCoalescer {
    policy: ExactCoalescingPolicy,
    active: Vec<CoalescedSystemEvent>,
    evictions: i64,
}

impl ExactDuplicateCoalescer {
    /// The open windows, in the order they were opened.
    pub closed spec fn windows(&self) -> Seq<CoalescedSystemEvent> {
        self.active@
    }

    /// How many windows were evicted so far.
    pub closed spec fn evictions(&self) -> i64 {
        self.evictions
    }

    pub closed spec fn policy(&self) -> ExactCoalescingPolicy {
        self.policy
    }

    /// The coalescer's invariant: open windows are distinct by exact identity,
    /// each is an open window, and there are no more than the bound allows.
    pub closed spec fn wf(&self) -> bool {
        &&& distinct_windows(self.active@)
        &&& forall|i: int| 0 <= i < self.active@.len() ==> open_window(#[trigger] self.active@[i])
        &&& self.active@.len() <= active_bound(self.policy.maximum())
    }

    pub fn new(policy: ExactCoalescingPolicy) -> (coalescer: Self)
        ensures
            coalescer.wf(),
            coalescer.windows() == Seq::<CoalescedSystemEvent>::empty(),
            coalescer.evictions() == 0,
            coalescer.policy() == policy,
    {
        Self { policy, active: Vec::new(), evictions: 0 }
    }

    /// Take in one event: close the windows of its boot whose interval has
    /// elapsed, then join the event to the open window of its exact identity,
    /// or open a new window for it, first evicting the least recently seen
    /// window when the active set is at its bound.
    pub fn ingest(&mut self, event: SystemEvent) -> (update: CoalescingUpdate)
        requires
            old(self).wf(),
        ensures
            final(self).wf(),
            final(self).policy() == old(self).policy(),
            (final(self).windows(), update.current_window(), update.closed_windows(), final(self).evictions())
                == ingest_outcome(
                old(self).windows(),
                old(self).evictions(),
                old(self).policy().maximum(),
                old(self).policy().interval(),
                event,
            ),
    {
        let ghost old_windows = self.active@;
        let now = event.event_instant;
        let boot = event.boot_identifier;
        let mut closed = self.close_expired(&boot, now);
        let ghost fresh = self.active@;
        let ghost closed_by_interval = closed@;
        proof {
            lemma_filter_windows(old_windows, fresh_under(boot, now, self.policy.interval()));
        }
        let mut position: usize = 0;
        let length = self.active.len();
        while position < length
            invariant
                length == self.active@.len(),
                self.active@ == fresh,
                position <= length,
                forall|j: int| 0 <= j < position ==> !same_identity(#[trigger] fresh[j].system_event, event),
            ensures
                position <= length,
                position < length ==> same_identity(fresh[position as int].system_event, event),
                forall|j: int| 0 <= j < position ==> !same_identity(#[trigger] fresh[j].system_event, event),
            decreases length - position,
        {
            if identical_happening(&self.active[position].system_event, &event) {
                break;
            }
            position = position + 1;
        }
        if position < length {
            let mut joined = self.active[position].clone();
            let count = saturating_add_i64(joined.first_integer, 1);
            joined.first_integer = count;
            joined.second_integer = saturating_sub_i64(count, 1);
            joined.second_event_instant = now;
            self.active.set(position, joined.clone());
            proof {
                let i = choose|i: int| 0 <= i < fresh.len() && same_identity(fresh[i].system_event, event);
                lemma_identity_position_unique(fresh, event, i, position as int);
                assert(self.active@ == fresh.update(position as int, joined));
                assert forall|a: int, b: int|
                    0 <= a < self.active@.len() && 0 <= b < self.active@.len() && a != b implies !same_identity(
                    #[trigger] self.active@[a].system_event,
                    #[trigger] self.active@[b].system_event,
                ) by {
                    assert(self.active@[a].system_event == fresh[a].system_event);
                    assert(self.active@[b].system_event == fresh[b].system_event);
                }
            }
            return CoalescingUpdate { current: joined, closed };
        }
        if self.active.len() >= self.policy.maximum_active_keys && self.active.len() > 0 {
            let evicted = self.evict_oldest();
            proof {
                let k = choose|k: int|
                    first_oldest(fresh, k) && evicted == closed_as(fresh[k], CoalescingClosure::Eviction)
                        && self.active@ == fresh.remove(k);
                lemma_remove_keeps_distinct(fresh, k);
            }
            closed.push(evicted);
        }
        let ghost rest = self.active@;
        let opened = coalesced(event, CoalescingClosure::Active);
        self.active.push(opened.clone());
        proof {
            assert(forall|j: int| 0 <= j < rest.len() ==> #[trigger] fresh.contains(rest[j]));
            assert forall|j: int| 0 <= j < rest.len() implies !same_identity(
                #[trigger] rest[j].system_event,
                opened.system_event,
            ) by {
                assert(fresh.contains(rest[j]));
                let a = choose|a: int| 0 <= a < fresh.len() && fresh[a] == rest[j];
                assert(!same_identity(fresh[a].system_event, event));
            }
            lemma_push_keeps_distinct(rest, opened);
        }
        CoalescingUpdate { current: opened, closed }
    }

    /// Close and return every open window of `boot`, marked with `closure`.
    pub fn flush_boot(&mut self, boot: &BootIdentifier, closure: CoalescingClosure) -> (flushed: Vec<
        CoalescedSystemEvent,
    >)
        requires
            old(self).wf(),
        ensures
            final(self).wf(),
            final(self).policy() == old(self).policy(),
            final(self).evictions() == old(self).evictions(),
            flushed@ == all_closed_as(old(self).windows().filter(of_boot(*boot)), closure),
            final(self).windows() == old(self).windows().filter(not_of_boot(*boot)),
    {
        let ghost old_windows = self.active@;
        let mut kept: Vec<CoalescedSystemEvent> = Vec::new();
        let mut flushed: Vec<CoalescedSystemEvent> = Vec::new();
        let length = self.active.len();
        for index in 0..length
            invariant
                length == self.active@.len(),
                self.active@ == old_windows,
                kept@ == old_windows.take(index as int).filter(not_of_boot(*boot)),
                flushed@ == all_closed_as(old_windows.take(index as int).filter(of_boot(*boot)), closure),
        {
            proof {
                assert(old_windows.take(index as int + 1) == old_windows.take(index as int).push(
                    old_windows[index as int],
                ));
                old_windows.take(index as int).lemma_filter_push(old_windows[index as int], not_of_boot(*boot));
                old_windows.take(index as int).lemma_filter_push(old_windows[index as int], of_boot(*boot));
                lemma_all_closed_push(
                    old_windows.take(index as int).filter(of_boot(*boot)),
                    old_windows[index as int],
                    closure,
                );
            }
            let window = self.active[index].clone();
            if window.system_event.boot_identifier == *boot {
                let mut closing = window;
                closing.coalescing_closure = closure;
                flushed.push(closing);
            } else {
                kept.push(window);
            }
        }
        proof {
            assert(old_windows.take(length as int) == old_windows);
            lemma_filter_windows(old_windows, not_of_boot(*boot));
        }
        self.active = kept;
        flushed
    }

    /// Close and return every open window, marked with `closure`.
    pub fn flush_all(&mut self, closure: CoalescingClosure) -> (flushed: Vec<CoalescedSystemEvent>)
        requires
            old(self).wf(),
        ensures
            final(self).wf(),
            final(self).policy() == old(self).policy(),
            final(self).evictions() == old(self).evictions(),
            flushed@ == all_closed_as(old(self).windows(), closure),
            final(self).windows() == Seq::<CoalescedSystemEvent>::empty(),
    {
        let ghost old_windows = self.active@;
        let mut flushed: Vec<CoalescedSystemEvent> = Vec::new();
        let length = self.active.len();
        for index in 0..length
            invariant
                length == self.active@.len(),
                self.active@ == old_windows,
                flushed@ == all_closed_as(old_windows.take(index as int), closure),
        {
            proof {
                assert(old_windows.take(index as int + 1) == old_windows.take(index as int).push(
                    old_windows[index as int],
                ));
                lemma_all_closed_push(old_windows.take(index as int), old_windows[index as int], closure);
            }
            let mut closing = self.active[index].clone();
            closing.coalescing_closure = closure;
            flushed.push(closing);
        }
        proof {
            assert(old_windows.take(length as int) == old_windows);
        }
        self.active = Vec::new();
        flushed
    }

    /// Active keys, evictions so far, and the active-key bound.
    pub fn status(&self) -> (status: ExactCoalescingStatus)
        ensures
            status.first_integer == self.windows().len() as i64,
            status.second_integer == self.evictions(),
            status.third_integer == self.policy().maximum() as i64,
    {
        ExactCoalescingStatus {
            first_integer: self.active.len() as i64,
            second_integer: self.evictions,
            third_integer: self.policy.maximum_active_keys as i64,
        }
    }

    /// Split the open windows of `boot` whose interval has elapsed at `now`
    /// off the active set, marked as closed by interval.
    fn close_expired(&mut self, boot: &BootIdentifier, now: i64) -> (closed: Vec<CoalescedSystemEvent>)
        requires
            old(self).wf(),
        ensures
            final(self).policy == old(self).policy,
            final(self).evictions == old(self).evictions,
            final(self).active@ == old(self).active@.filter(fresh_under(*boot, now, old(self).policy.interval())),
            closed@ == all_closed_as(
                old(self).active@.filter(expired_under(*boot, now, old(self).policy.interval())),
                CoalescingClosure::Interval,
            ),
    {
        let ghost old_windows = self.active@;
        let ghost interval = self.policy.interval_microseconds;
        let mut kept: Vec<CoalescedSystemEvent> = Vec::new();
        let mut closed: Vec<CoalescedSystemEvent> = Vec::new();
        let length = self.active.len();
        for index in 0..length
            invariant
                length == self.active@.len(),
                self.active@ == old_windows,
                interval == self.policy.interval_microseconds,
                kept@ == old_windows.take(index as int).filter(fresh_under(*boot, now, interval)),
                closed@ == all_closed_as(
                    old_windows.take(index as int).filter(expired_under(*boot, now, interval)),
                    CoalescingClosure::Interval,
                ),
        {
            proof {
                assert(old_windows.take(index as int + 1) == old_windows.take(index as int).push(
                    old_windows[index as int],
                ));
                old_windows.take(index as int).lemma_filter_push(
                    old_windows[index as int],
                    fresh_under(*boot, now, interval),
                );
                old_windows.take(index as int).lemma_filter_push(
                    old_windows[index as int],
                    expired_under(*boot, now, interval),
                );
                lemma_all_closed_push(
                    old_windows.take(index as int).filter(expired_under(*boot, now, interval)),
                    old_windows[index as int],
                    CoalescingClosure::Interval,
                );
            }
            let window = self.active[index].clone();
            let elapsed = saturating_sub_i64(now, window.first_event_instant);
            if window.system_event.boot_identifier == *boot && elapsed >= self.policy.interval_microseconds {
                let mut closing = window;
                closing.coalescing_closure = CoalescingClosure::Interval;
                closed.push(closing);
            } else {
                kept.push(window);
            }
        }
        proof {
            assert(old_windows.take(length as int) == old_windows);
        }
        self.active = kept;
        closed
    }

    /// Remove the first least-recently-seen window, marked as evicted.
    fn evict_oldest(&mut self) -> (evicted: CoalescedSystemEvent)
        requires
            old(self).active@.len() > 0,
        ensures
            final(self).policy == old(self).policy,
            final(self).evictions == clamp_i64(old(self).evictions + 1),
            exists|k: int|
                first_oldest(old(self).active@, k) && evicted == closed_as(
                    old(self).active@[k],
                    CoalescingClosure::Eviction,
                ) && final(self).active@ == old(self).active@.remove(k),
    {
        let ghost windows = self.active@;
        let length = self.active.len();
        let mut oldest: usize = 0;
        let mut index: usize = 1;
        while index < length
            invariant
                length == self.active@.len(),
                self.active@ == windows,
                1 <= index <= length,
                first_oldest(windows.take(index as int), oldest as int),
            decreases length - index,
        {
            let candidate = &self.active[index];
            let best = &self.active[oldest];
            let candidate_is_older = candidate.second_event_instant < best.second_event_instant || (
            candidate.second_event_instant == best.second_event_instant
                && candidate.system_event.event_identifier < best.system_event.event_identifier);
            proof {
                let prefix = windows.take(index as int + 1);
                if candidate_is_older {
                    assert forall|j: int| 0 <= j < prefix.len() implies !older(
                        #[trigger] prefix[j],
                        prefix[index as int],
                    ) by {
                        if j < index {
                            assert(prefix[j] == windows.take(index as int)[j]);
                            assert(!older(windows.take(index as int)[j], windows[oldest as int]));
                        }
                    }
                    assert forall|j: int| 0 <= j < index implies older(
                        prefix[index as int],
                        #[trigger] prefix[j],
                    ) by {
                        assert(prefix[j] == windows.take(index as int)[j]);
                        assert(!older(windows.take(index as int)[j], windows[oldest as int]));
                    }
                } else {
                    assert forall|j: int| 0 <= j < prefix.len() implies !older(
                        #[trigger] prefix[j],
                        prefix[oldest as int],
                    ) by {
                        if j < index {
                            assert(prefix[j] == windows.take(index as int)[j]);
                        }
                    }
                    assert forall|j: int| 0 <= j < oldest implies older(
                        prefix[oldest as int],
                        #[trigger] prefix[j],
                    ) by {
                        assert(prefix[j] == windows.take(index as int)[j]);
                    }
                }
            }
            if candidate_is_older {
                oldest = index;
            }
            index = index + 1;
        }
        proof {
            assert(windows.take(length as int) == windows);
        }
        let mut evicted = self.active.remove(oldest);
        evicted.coalescing_closure = CoalescingClosure::Eviction;
        self.evictions = saturating_add_i64(self.evictions, 1);
        evicted
    }
}

impl Default for ExactDuplicateCoalescer {
    fn default() -> (coalescer: Self)
        ensures
            coalescer.wf(),
            coalescer.windows() == Seq::<CoalescedSystemEvent>::empty(),
            coalescer.evictions() == 0,
            coalescer.policy().maximum() == DEFAULT_MAXIMUM_ACTIVE_KEYS,
            coalescer.policy().interval() == DEFAULT_INTERVAL_MICROSECONDS,
    {
        Self::new(ExactCoalescingPolicy::default())
    }
}

// ---------------------------------------------------------------------------
// Laws
// ---------------------------------------------------------------------------

/// The active set is bounded, open windows are distinct by exact identity,
/// and every open window is active with a suppressed count one less than its
/// count.
pub proof fn law_open_windows_are_bounded_and_distinct(coalescer: &ExactDuplicateCoalescer)
    requires
        coalescer.wf(),
    ensures
        coalescer.windows().len() <= active_bound(coalescer.policy().maximum()),
        distinct_windows(coalescer.windows()),
        forall|i: int| 0 <= i < coalescer.windows().len() ==> open_window(#[trigger] coalescer.windows()[i]),
{
}

/// An exact duplicate of an open window that has not expired joins that
/// window: the representative stays, the count grows by one (saturating),
/// the suppressed count follows, the last-seen instant becomes the event's,
/// and nothing is evicted.
pub proof fn law_exact_duplicate_joins_its_window(
    windows: Seq<CoalescedSystemEvent>,
    evictions: i64,
    maximum: usize,
    interval: i64,
    event: SystemEvent,
    i: int,
)
    requires
        distinct_windows(windows),
        0 <= i < windows.len(),
        same_identity(windows[i].system_event, event),
        !expired(windows[i], event.boot_identifier, event.event_instant, interval),
    ensures
        ({
            let outcome = ingest_outcome(windows, evictions, maximum, interval, event);
            &&& outcome.1 == bumped(windows[i], event.event_instant)
            &&& outcome.1.system_event == windows[i].system_event
            &&& outcome.1.first_integer == clamp_i64(windows[i].first_integer + 1)
            &&& outcome.1.second_event_instant == event.event_instant
            &&& outcome.3 == evictions
            &&& outcome.0.len() == windows.filter(fresh_under(event.boot_identifier, event.event_instant, interval)).len()
        }),
{
    let fresh_pred = fresh_under(event.boot_identifier, event.event_instant, interval);
    let fresh = windows.filter(fresh_pred);
    lemma_filter_windows(windows, fresh_pred);
    assert(fresh_pred(windows[i]));
    assert(fresh.contains(windows[i]));
    let a = choose|a: int| 0 <= a < fresh.len() && fresh[a] == windows[i];
    assert(same_identity(fresh[a].system_event, event));
    let chosen = choose|c: int| 0 <= c < fresh.len() && same_identity(fresh[c].system_event, event);
    lemma_identity_position_unique(fresh, event, a, chosen);
}

/// A non-empty set of windows has a first least-recently-seen window.
proof fn lemma_first_oldest_exists(windows: Seq<CoalescedSystemEvent>)
    requires
        windows.len() > 0,
    ensures
        exists|k: int| first_oldest(windows, k),
    decreases windows.len(),
{
    if windows.len() == 1 {
        assert(first_oldest(windows, 0));
    } else {
        let head = windows.drop_last();
        let last = windows.len() - 1;
        lemma_first_oldest_exists(head);
        let k = choose|k: int| first_oldest(head, k);
        if older(windows[last], windows[k]) {
            assert forall|j: int| 0 <= j < windows.len() implies !older(#[trigger] windows[j], windows[last]) by {
                if j < last {
                    assert(windows[j] == head[j]);
                    assert(!older(head[j], head[k]));
                }
            }
            assert forall|j: int| 0 <= j < last implies older(windows[last], #[trigger] windows[j]) by {
                assert(windows[j] == head[j]);
                assert(!older(head[j], head[k]));
            }
            assert(first_oldest(windows, last));
        } else {
            assert forall|j: int| 0 <= j < windows.len() implies !older(#[trigger] windows[j], windows[k]) by {
                if j < last {
                    assert(windows[j] == head[j]);
                }
            }
            assert forall|j: int| 0 <= j < k implies older(windows[k], #[trigger] windows[j]) by {
                assert(windows[j] == head[j]);
            }
            assert(first_oldest(windows, k));
        }
    }
}

/// Evictions are counted and take the least recently seen window. One
/// ingestion either evicts nothing and leaves the eviction count as it was,
/// or evicts exactly one window — only when no unexpired window has the
/// event's identity and the unexpired windows are at the key bound — which
/// is the first least-recently-seen unexpired window, closed last, after
/// the windows closed by interval; the eviction count then grows by one
/// (saturating). Every other window an ingestion closes is closed by
/// interval.
pub proof fn law_eviction_is_counted_and_takes_the_oldest(
    windows: Seq<CoalescedSystemEvent>,
    evictions: i64,
    maximum: usize,
    interval: i64,
    event: SystemEvent,
)
    ensures
        ({
            let boot = event.boot_identifier;
            let now = event.event_instant;
            let fresh = windows.filter(fresh_under(boot, now, interval));
            let by_interval = all_closed_as(
                windows.filter(expired_under(boot, now, interval)),
                CoalescingClosure::Interval,
            );
            let outcome = ingest_outcome(windows, evictions, maximum, interval, event);
            &&& forall|j: int|
                0 <= j < by_interval.len() ==> (#[trigger] by_interval[j]).coalescing_closure
                    == CoalescingClosure::Interval
            &&& {
                ||| (outcome.2 == by_interval && outcome.3 == evictions)
                ||| {
                &&& outcome.2.len() == by_interval.len() + 1
                &&& outcome.2.drop_last() == by_interval
                &&& forall|i: int| 0 <= i < fresh.len() ==> !same_identity(#[trigger] fresh[i].system_event, event)
                &&& fresh.len() >= maximum
                &&& exists|k: int|
                    first_oldest(fresh, k) && outcome.2.last() == closed_as(
                        fresh[k],
                        CoalescingClosure::Eviction,
                    )
                &&& outcome.3 == clamp_i64(evictions + 1)
                }
            }
        }),
{
    let boot = event.boot_identifier;
    let now = event.event_instant;
    let fresh = windows.filter(fresh_under(boot, now, interval));
    let by_interval = all_closed_as(windows.filter(expired_under(boot, now, interval)), CoalescingClosure::Interval);
    let outcome = ingest_outcome(windows, evictions, maximum, interval, event);
    if !(exists|i: int| 0 <= i < fresh.len() && same_identity(fresh[i].system_event, event)) {
        if fresh.len() >= maximum && fresh.len() > 0 {
            lemma_first_oldest_exists(fresh);
            let k = choose|k: int| first_oldest(fresh, k);
            assert(outcome.2 == by_interval.push(closed_as(fresh[k], CoalescingClosure::Eviction)));
            assert(outcome.2.drop_last() =~= by_interval);
            assert forall|i: int| 0 <= i < fresh.len() implies !same_identity(#[trigger] fresh[i].system_event, event) by {
            }
        }
    }
}

/// A window never closes by interval on behalf of an event of another boot:
/// every window an ingestion closes by interval belongs to the event's boot,
/// and every window it closes is closed by interval or by eviction.
pub proof fn law_interval_closure_stays_within_its_boot(
    windows: Seq<CoalescedSystemEvent>,
    evictions: i64,
    maximum: usize,
    interval: i64,
    event: SystemEvent,
)
    requires
        distinct_windows(windows),
    ensures
        ({
            let closed = ingest_outcome(windows, evictions, maximum, interval, event).2;
            &&& forall|j: int|
                0 <= j < closed.len() && (#[trigger] closed[j]).coalescing_closure
                    == CoalescingClosure::Interval ==> closed[j].system_event.boot_identifier
                    == event.boot_identifier
            &&& forall|j: int|
                0 <= j < closed.len() ==> (#[trigger] closed[j]).coalescing_closure
                    == CoalescingClosure::Interval || closed[j].coalescing_closure
                    == CoalescingClosure::Eviction
        }),
{
    let boot = event.boot_identifier;
    let now = event.event_instant;
    let expired_pred = expired_under(boot, now, interval);
    lemma_filter_windows(windows, expired_pred);
    let by_interval = all_closed_as(windows.filter(expired_pred), CoalescingClosure::Interval);
    assert forall|j: int| 0 <= j < by_interval.len() implies (#[trigger] by_interval[j]).system_event.boot_identifier
        == boot && by_interval[j].coalescing_closure == CoalescingClosure::Interval by {
        assert(expired_pred(windows.filter(expired_pred)[j]));
    }
}

/// Flushing a boot closes exactly that boot's windows, each with the given
/// cause, and leaves exactly the other boots' windows open.
pub proof fn law_flush_partitions_by_boot(
    windows: Seq<CoalescedSystemEvent>,
    boot: BootIdentifier,
    closure: CoalescingClosure,
)
    requires
        distinct_windows(windows),
    ensures
        forall|j: int|
            0 <= j < all_closed_as(windows.filter(of_boot(boot)), closure).len() ==> {
                &&& (#[trigger] all_closed_as(windows.filter(of_boot(boot)), closure)[j]).system_event.boot_identifier
                    == boot
                &&& all_closed_as(windows.filter(of_boot(boot)), closure)[j].coalescing_closure
                    == closure
            },
        forall|j: int|
            0 <= j < windows.filter(not_of_boot(boot)).len() ==> (#[trigger] windows.filter(
                not_of_boot(boot),
            )[j]).system_event.boot_identifier != boot,
        windows.filter(of_boot(boot)).len() + windows.filter(not_of_boot(boot)).len()
            == windows.len(),
{
    lemma_filter_windows(windows, of_boot(boot));
    lemma_filter_windows(windows, not_of_boot(boot));
    lemma_partition_len(windows, boot);
    assert forall|j: int| 0 <= j < windows.filter(of_boot(boot)).len() implies (#[trigger] windows.filter(
        of_boot(boot),
    )[j]).system_event.boot_identifier == boot by {
        assert(of_boot(boot)(windows.filter(of_boot(boot))[j]));
    }
}

/// Nothing is sampled away: the window an event lands in counts it, either
/// as the first event of a new window represented by the event itself, or as
/// one more duplicate of an open window of the same identity.
pub proof fn law_every_admitted_event_is_counted(
    windows: Seq<CoalescedSystemEvent>,
    evictions: i64,
    maximum: usize,
    interval: i64,
    event: SystemEvent,
)
    requires
        distinct_windows(windows),
    ensures
        ({
            let current = ingest_outcome(windows, evictions, maximum, interval, event).1;
            ||| current == window_of(event, CoalescingClosure::Active)
            ||| exists|i: int|
                0 <= i < windows.len() && same_identity(windows[i].system_event, event) && current
                    == bumped(#[trigger] windows[i], event.event_instant)
        }),
{
    let fresh_pred = fresh_under(event.boot_identifier, event.event_instant, interval);
    let fresh = windows.filter(fresh_pred);
    lemma_filter_windows(windows, fresh_pred);
    if exists|i: int| 0 <= i < fresh.len() && same_identity(fresh[i].system_event, event) {
        let i = choose|i: int| 0 <= i < fresh.len() && same_identity(fresh[i].system_event, event);
        assert(windows.contains(fresh[i]));
        let a = choose|a: int| 0 <= a < windows.len() && windows[a] == fresh[i];
        assert(same_identity(windows[a].system_event, event));
    }
}

/// A boot splits the windows into its own and the others, losing none.
pub proof fn lemma_partition_len(windows: Seq<CoalescedSystemEvent>, boot: BootIdentifier)
    ensures
        windows.filter(of_boot(boot)).len() + windows.filter(not_of_boot(boot)).len()
            == windows.len(),
    decreases windows.len(),
{
    reveal(Seq::filter);
    if windows.len() > 0 {
        lemma_partition_len(windows.drop_last(), boot);
    }
}

/// A window's interval runs from when it opened, not from when it last saw
/// an event: ingesting an event at `now` closes by interval every window of
/// the event's boot that opened at least `interval` before `now`
/// (saturating), however recently it last saw a duplicate; so the window the
/// event lands in either opens at `now` or opened less than `interval`
/// before it.
pub proof fn law_interval_runs_from_the_first_event(
    windows: Seq<CoalescedSystemEvent>,
    evictions: i64,
    maximum: usize,
    interval: i64,
    event: SystemEvent,
)
    ensures
        ({
            let now = event.event_instant;
            let outcome = ingest_outcome(windows, evictions, maximum, interval, event);
            &&& forall|i: int|
                0 <= i < windows.len() && windows[i].system_event.boot_identifier == event.boot_identifier
                    && clamp_i64(now - (#[trigger] windows[i]).first_event_instant) >= interval
                    ==> outcome.2.contains(closed_as(windows[i], CoalescingClosure::Interval))
            &&& outcome.1.first_event_instant == now || clamp_i64(now - outcome.1.first_event_instant)
                < interval
        }),
{
    broadcast use vstd::seq_lib::group_filter_ensures;
    let boot = event.boot_identifier;
    let now = event.event_instant;
    let expired_pred = expired_under(boot, now, interval);
    let expiring = windows.filter(expired_pred);
    let by_interval = all_closed_as(expiring, CoalescingClosure::Interval);
    let fresh = windows.filter(fresh_under(boot, now, interval));
    let outcome = ingest_outcome(windows, evictions, maximum, interval, event);
    assert forall|i: int|
        0 <= i < windows.len() && windows[i].system_event.boot_identifier == event.boot_identifier
            && clamp_i64(now - (#[trigger] windows[i]).first_event_instant) >= interval implies outcome.2.contains(
        closed_as(windows[i], CoalescingClosure::Interval),
    ) by {
        assert(expired_pred(windows[i]));
        assert(expiring.contains(windows[i]));
        let j = choose|j: int| 0 <= j < expiring.len() && expiring[j] == windows[i];
        assert(by_interval[j] == closed_as(windows[i], CoalescingClosure::Interval));
        if outcome.2 == by_interval {
            assert(outcome.2[j] == by_interval[j]);
        } else {
            assert(outcome.2[j] == by_interval[j]);
        }
    }
    if exists|i: int| 0 <= i < fresh.len() && same_identity(fresh[i].system_event, event) {
        let i = choose|i: int| 0 <= i < fresh.len() && same_identity(fresh[i].system_event, event);
        assert(fresh_under(boot, now, interval)(fresh[i]));
    }
}

} // verus!
