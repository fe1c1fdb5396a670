//! The pending queue as the contracts see it: a sequence of entries in firing order,
//! and the facts about it that the scheduler relies on.
use vstd::prelude::*;

verus! {

/// One pending event: the name it is cancelled by and the simulation time, in microseconds,
/// at which it is due.
pub struct PendingEntry {
    pub name: Seq<char>,
    pub time: nat,
}

/// No entry is due before an entry that stands ahead of it.
pub open spec fn is_time_ordered(queue: Seq<PendingEntry>) -> bool {
    forall|i: int, j: int| 0 <= i <= j < queue.len() ==> queue[i].time <= queue[j].time
}

/// Putting `entry` in at `slot` keeps the time order: what stands ahead of the slot is due
/// no later, what stands from the slot on is due no earlier.
pub open spec fn slot_fits(queue: Seq<PendingEntry>, slot: int, entry: PendingEntry) -> bool {
    &&& 0 <= slot <= queue.len()
    &&& forall|i: int| 0 <= i < slot ==> queue[i].time <= entry.time
    &&& forall|i: int| slot <= i < queue.len() ==> entry.time <= queue[i].time
}

/// `after` is `before` with `entry` put in at a slot that keeps the time order. Where several
/// slots do, the events' own order picks one.
pub open spec fn inserted(
    before: Seq<PendingEntry>,
    after: Seq<PendingEntry>,
    entry: PendingEntry,
) -> bool {
    exists|slot: int| #[trigger] slot_fits(before, slot, entry) && after == before.insert(slot, entry)
}

/// How many entries at the head of the queue are due at `now`.
pub open spec fn due_len(queue: Seq<PendingEntry>, now: nat) -> nat
    decreases queue.len(),
{
    if queue.len() == 0 || queue[0].time > now {
        0
    } else {
        1 + due_len(queue.skip(1), now)
    }
}

/// The queue without the entries called `name`.
pub open spec fn without_name(queue: Seq<PendingEntry>, name: Seq<char>) -> Seq<PendingEntry> {
    queue.filter(|entry: PendingEntry| entry.name != name)
}

/// No two entries share a name.
pub open spec fn names_distinct(queue: Seq<PendingEntry>) -> bool {
    forall|i: int, j: int|
        0 <= i < queue.len() && 0 <= j < queue.len() && i != j ==> queue[i].name != queue[j].name
}

/// Whether an entry called `name` is pending.
pub open spec fn has_name(queue: Seq<PendingEntry>, name: Seq<char>) -> bool {
    exists|i: int| 0 <= i < queue.len() && #[trigger] queue[i].name == name
}

/// The queue after cancelling each of `names` in turn.
pub open spec fn without_names(queue: Seq<PendingEntry>, names: Seq<Seq<char>>) -> Seq<
    PendingEntry,
>
    decreases names.len(),
{
    if names.len() == 0 {
        queue
    } else {
        without_names(without_name(queue, names[0]), names.skip(1))
    }
}

/// The due entries are exactly the first `due_len` ones: each of them is due, and the entry
/// behind them, if there is one, is not.
pub proof fn lemma_due_len_bounds(queue: Seq<PendingEntry>, now: nat)
    ensures
        due_len(queue, now) <= queue.len(),
        forall|i: int| 0 <= i < due_len(queue, now) ==> (#[trigger] queue[i]).time <= now,
        due_len(queue, now) < queue.len() ==> queue[due_len(queue, now) as int].time > now,
    decreases queue.len(),
{
    if queue.len() == 0 || queue[0].time > now {
    } else {
        let rest = queue.skip(1);
        lemma_due_len_bounds(rest, now);
        assert forall|i: int| 0 <= i < due_len(queue, now) implies (#[trigger] queue[i]).time
            <= now by {
            if i > 0 {
                assert(queue[i] == rest[i - 1]);
            }
        }
        if due_len(queue, now) < queue.len() {
            assert(queue[due_len(queue, now) as int] == rest[due_len(rest, now) as int]);
        }
    }
}

/// A count that splits the queue into due entries and a first entry that is not due is the
/// number of due entries at the head.
pub proof fn lemma_due_len_is(queue: Seq<PendingEntry>, now: nat, count: nat)
    requires
        count <= queue.len(),
        forall|i: int| 0 <= i < count ==> (#[trigger] queue[i]).time <= now,
        count < queue.len() ==> queue[count as int].time > now,
    ensures
        due_len(queue, now) == count,
    decreases queue.len(),
{
    if count == 0 {
    } else {
        let rest = queue.skip(1);
        assert(queue[0].time <= now);
        assert forall|i: int| 0 <= i < count - 1 implies (#[trigger] rest[i]).time <= now by {
            assert(rest[i] == queue[i + 1]);
        }
        if count - 1 < rest.len() {
            assert(rest[count - 1] == queue[count as int]);
        }
        lemma_due_len_is(rest, now, (count - 1) as nat);
    }
}

/// In a time-ordered queue nothing behind the due entries is due.
pub proof fn lemma_rest_not_due(queue: Seq<PendingEntry>, now: nat)
    requires
        is_time_ordered(queue),
    ensures
        forall|i: int| due_len(queue, now) <= i < queue.len() ==> (#[trigger] queue[i]).time > now,
{
    lemma_due_len_bounds(queue, now);
}

/// Taking any entry out of a time-ordered queue leaves it time-ordered.
pub proof fn lemma_remove_keeps_order(queue: Seq<PendingEntry>, at: int)
    requires
        is_time_ordered(queue),
        0 <= at < queue.len(),
    ensures
        is_time_ordered(queue.remove(at)),
{
    let rest = queue.remove(at);
    assert forall|i: int, j: int| 0 <= i <= j < rest.len() implies rest[i].time
        <= rest[j].time by {
        let from_i = if i < at { i } else { i + 1 };
        let from_j = if j < at { j } else { j + 1 };
        assert(rest[i] == queue[from_i]);
        assert(rest[j] == queue[from_j]);
    }
}

/// Putting an entry in at a slot that fits leaves a time-ordered queue time-ordered.
pub proof fn lemma_insert_keeps_order(queue: Seq<PendingEntry>, slot: int, entry: PendingEntry)
    requires
        is_time_ordered(queue),
        slot_fits(queue, slot, entry),
    ensures
        is_time_ordered(queue.insert(slot, entry)),
{
    let grown = queue.insert(slot, entry);
    assert forall|i: int, j: int| 0 <= i <= j < grown.len() implies grown[i].time
        <= grown[j].time by {
        if i < slot {
            assert(grown[i] == queue[i]);
        } else if i > slot {
            assert(grown[i] == queue[i - 1]);
        }
        if j < slot {
            assert(grown[j] == queue[j]);
        } else if j > slot {
            assert(grown[j] == queue[j - 1]);
        }
    }
}

/// An entry that is due only after `now` goes in behind the due entries, so as many entries
/// are due after it went in as before.
pub proof fn lemma_insert_later_keeps_due(
    queue: Seq<PendingEntry>,
    slot: int,
    entry: PendingEntry,
    now: nat,
)
    requires
        is_time_ordered(queue),
        slot_fits(queue, slot, entry),
        entry.time > now,
    ensures
        due_len(queue, now) <= slot,
        due_len(queue.insert(slot, entry), now) == due_len(queue, now),
{
    let count = due_len(queue, now);
    let grown = queue.insert(slot, entry);
    lemma_due_len_bounds(queue, now);
    if slot < count {
        assert(queue[slot].time <= now);
        assert(entry.time <= queue[slot].time);
    }
    assert forall|i: int| 0 <= i < count implies (#[trigger] grown[i]).time <= now by {
        assert(grown[i] == queue[i]);
    }
    if count < grown.len() {
        if slot == count {
            assert(grown[count as int] == entry);
        } else {
            assert(grown[count as int] == queue[count as int]);
        }
    }
    lemma_due_len_is(grown, now, count);
}

/// After a name was cancelled no pending entry carries it, and the entries that stay keep
/// their time order.
pub proof fn lemma_without_name(queue: Seq<PendingEntry>, name: Seq<char>)
    ensures
        !has_name(without_name(queue, name), name),
        without_name(queue, name).len() <= queue.len(),
        is_time_ordered(queue) ==> is_time_ordered(without_name(queue, name)),
        names_distinct(queue) ==> names_distinct(without_name(queue, name)),
        !has_name(queue, name) ==> without_name(queue, name) == queue,
        forall|other: Seq<char>|
            has_name(without_name(queue, name), other) ==> has_name(queue, other),
        forall|other: Seq<char>|
            other != name && has_name(queue, other) ==> has_name(without_name(queue, name), other),
    decreases queue.len(),
{
    let keep = |entry: PendingEntry| entry.name != name;
    reveal(Seq::filter);
    if queue.len() == 0 {
    } else {
        let front = queue.drop_last();
        let last = queue.last();
        let kept_front = without_name(front, name);
        let kept = without_name(queue, name);
        lemma_without_name(front, name);
        assert(kept == if keep(last) {
            kept_front.push(last)
        } else {
            kept_front
        });
        // every kept entry comes from the queue, at an index that grows with its own
        lemma_kept_indices(queue, name);
        if is_time_ordered(queue) {
            assert forall|i: int, j: int| 0 <= i <= j < kept.len() implies kept[i].time
                <= kept[j].time by {
                let from_i = kept_index(queue, name, i);
                let from_j = kept_index(queue, name, j);
                assert(kept[i] == queue[from_i]);
                assert(kept[j] == queue[from_j]);
            }
        }
        if names_distinct(queue) {
            assert forall|i: int, j: int|
                0 <= i < kept.len() && 0 <= j < kept.len() && i != j implies kept[i].name
                != kept[j].name by {
                let from_i = kept_index(queue, name, i);
                let from_j = kept_index(queue, name, j);
                assert(kept[i] == queue[from_i]);
                assert(kept[j] == queue[from_j]);
                if i < j {
                    assert(from_i < from_j);
                } else {
                    assert(from_j < from_i);
                }
            }
        }
        if has_name(kept, name) {
            let i = choose|i: int| 0 <= i < kept.len() && #[trigger] kept[i].name == name;
            assert(kept[i] == queue[kept_index(queue, name, i)]);
            assert(false);
        }
        if !has_name(queue, name) {
            assert(!has_name(front, name)) by {
                if has_name(front, name) {
                    let i = choose|i: int| 0 <= i < front.len() && #[trigger] front[i].name == name;
                    assert(queue[i].name == name);
                }
            }
            assert(queue[queue.len() - 1].name != name);
            assert(kept =~= queue);
        }
        assert forall|other: Seq<char>| has_name(kept, other) implies has_name(queue, other) by {
            let i = choose|i: int| 0 <= i < kept.len() && #[trigger] kept[i].name == other;
            assert(queue[kept_index(queue, name, i)].name == other);
        }
        assert forall|other: Seq<char>| other != name && has_name(queue, other) implies has_name(
            kept,
            other,
        ) by {
            let i = choose|i: int| 0 <= i < queue.len() && #[trigger] queue[i].name == other;
            if i < front.len() {
                assert(front[i].name == other);
                assert(has_name(front, other));
                assert(has_name(kept_front, other));
                let k = choose|k: int|
                    0 <= k < kept_front.len() && #[trigger] kept_front[k].name == other;
                assert(kept[k].name == other);
            } else {
                assert(keep(last));
                assert(kept[kept.len() - 1].name == other);
            }
        }
    }
}

/// Where in the queue the entry that stands at `at` after a cancellation stood before it.
pub open spec fn kept_index(queue: Seq<PendingEntry>, name: Seq<char>, at: int) -> int
    decreases queue.len(),
{
    if queue.len() == 0 {
        0
    } else if at < without_name(queue.drop_last(), name).len() {
        kept_index(queue.drop_last(), name, at)
    } else {
        queue.len() - 1
    }
}

/// The entries that stay after a cancellation are entries of the queue, in their old order.
pub proof fn lemma_kept_indices(queue: Seq<PendingEntry>, name: Seq<char>)
    ensures
        forall|at: int|
            0 <= at < without_name(queue, name).len() ==> {
                &&& 0 <= #[trigger] kept_index(queue, name, at) < queue.len()
                &&& without_name(queue, name)[at] == queue[kept_index(queue, name, at)]
            },
        forall|i: int, j: int|
            0 <= i < j < without_name(queue, name).len() ==> #[trigger] kept_index(queue, name, i)
                < #[trigger] kept_index(queue, name, j),
    decreases queue.len(),
{
    let keep = |entry: PendingEntry| entry.name != name;
    reveal(Seq::filter);
    if queue.len() == 0 {
    } else {
        let front = queue.drop_last();
        let last = queue.last();
        let kept_front = without_name(front, name);
        let kept = without_name(queue, name);
        lemma_kept_indices(front, name);
        assert(kept == if keep(last) {
            kept_front.push(last)
        } else {
            kept_front
        });
        assert forall|at: int| 0 <= at < kept.len() implies {
            &&& 0 <= #[trigger] kept_index(queue, name, at) < queue.len()
            &&& kept[at] == queue[kept_index(queue, name, at)]
        } by {
            if at < kept_front.len() {
                assert(kept[at] == kept_front[at]);
                assert(front[kept_index(front, name, at)] == queue[kept_index(front, name, at)]);
            }
        }
        assert forall|i: int, j: int| 0 <= i < j < kept.len() implies #[trigger] kept_index(
            queue,
            name,
            i,
        ) < #[trigger] kept_index(queue, name, j) by {
            if j < kept_front.len() {
                assert(kept_index(front, name, i) < kept_index(front, name, j));
            } else {
                assert(0 <= kept_index(front, name, i) < front.len());
            }
        }
    }
}

/// Cancelling a name that exactly one pending entry carries takes exactly one entry away.
pub proof fn lemma_cancel_takes_one(queue: Seq<PendingEntry>, name: Seq<char>)
    requires
        names_distinct(queue),
        has_name(queue, name),
    ensures
        without_name(queue, name).len() == queue.len() - 1,
    decreases queue.len(),
{
    let keep = |entry: PendingEntry| entry.name != name;
    reveal(Seq::filter);
    let front = queue.drop_last();
    let last = queue.last();
    let at = choose|i: int| 0 <= i < queue.len() && #[trigger] queue[i].name == name;
    assert(names_distinct(front)) by {
        assert forall|i: int, j: int|
            0 <= i < front.len() && 0 <= j < front.len() && i != j implies front[i].name
            != front[j].name by {
            assert(front[i] == queue[i]);
            assert(front[j] == queue[j]);
        }
    }
    if last.name == name {
        assert(!has_name(front, name)) by {
            if has_name(front, name) {
                let i = choose|i: int| 0 <= i < front.len() && #[trigger] front[i].name == name;
                assert(front[i] == queue[i]);
                assert(queue[queue.len() - 1].name == name);
            }
        }
        lemma_without_name(front, name);
    } else {
        assert(at < front.len());
        assert(front[at].name == name);
        lemma_cancel_takes_one(front, name);
    }
}

/// No name occurs twice in `names`.
pub open spec fn no_name_twice(names: Seq<Seq<char>>) -> bool {
    forall|i: int, j: int| 0 <= i < names.len() && 0 <= j < names.len() && i != j ==> names[i]
        != names[j]
}

/// Taking an entry in makes the queue one entry longer and leaves the others pending.
pub proof fn lemma_inserted_adds_one(
    before: Seq<PendingEntry>,
    after: Seq<PendingEntry>,
    entry: PendingEntry,
)
    requires
        inserted(before, after, entry),
    ensures
        after.len() == before.len() + 1,
        has_name(after, entry.name),
        forall|name: Seq<char>| has_name(before, name) ==> has_name(after, name),
        is_time_ordered(before) ==> is_time_ordered(after),
{
    let slot = choose|slot: int| #[trigger]
        slot_fits(before, slot, entry) && after == before.insert(slot, entry);
    assert(after[slot].name == entry.name);
    assert forall|name: Seq<char>| has_name(before, name) implies has_name(after, name) by {
        let i = choose|i: int| 0 <= i < before.len() && #[trigger] before[i].name == name;
        if i < slot {
            assert(after[i].name == name);
        } else {
            assert(after[i + 1].name == name);
        }
    }
    if is_time_ordered(before) {
        lemma_insert_keeps_order(before, slot, entry);
    }
}

/// A cancelled event does not fire: once a name was cancelled, none of the entries that
/// are due, at whatever time, carries it.
pub proof fn lemma_cancelled_does_not_fire(queue: Seq<PendingEntry>, name: Seq<char>, now: nat)
    ensures
        forall|i: int|
            0 <= i < due_len(without_name(queue, name), now) ==> (#[trigger] without_name(
                queue,
                name,
            )[i]).name != name,
{
    let kept = without_name(queue, name);
    lemma_without_name(queue, name);
    lemma_due_len_bounds(kept, now);
    assert forall|i: int| 0 <= i < due_len(kept, now) implies (#[trigger] kept[i]).name
        != name by {
        if kept[i].name == name {
            assert(has_name(kept, name));
        }
    }
}

/// Cancelling each of several names, all different and each carried by a pending event,
/// in a queue where no two events share a name, takes exactly as many events away as
/// there are names: of `queue.len()` scheduled events `queue.len() - names.len()` stay.
pub proof fn lemma_cancels_take_one_each(queue: Seq<PendingEntry>, names: Seq<Seq<char>>)
    requires
        names_distinct(queue),
        no_name_twice(names),
        forall|j: int| 0 <= j < names.len() ==> has_name(queue, #[trigger] names[j]),
    ensures
        without_names(queue, names).len() == queue.len() - names.len(),
        names_distinct(without_names(queue, names)),
    decreases names.len(),
{
    if names.len() > 0 {
        let kept = without_name(queue, names[0]);
        let rest = names.skip(1);
        lemma_cancel_takes_one(queue, names[0]);
        lemma_without_name(queue, names[0]);
        assert forall|j: int| 0 <= j < rest.len() implies has_name(kept, #[trigger] rest[j]) by {
            assert(rest[j] == names[j + 1]);
            assert(has_name(queue, names[j + 1]));
        }
        assert(no_name_twice(rest)) by {
            assert forall|i: int, j: int|
                0 <= i < rest.len() && 0 <= j < rest.len() && i != j implies rest[i]
                != rest[j] by {
                assert(rest[i] == names[i + 1]);
                assert(rest[j] == names[j + 1]);
            }
        }
        lemma_cancels_take_one_each(kept, rest);
    }
}

/// What firing the head of `before` at `now` leaves pending: the rest of the queue, and,
/// where the fired event recurs later than `now`, its next occurrence as well.
pub open spec fn follows_firing(
    before: Seq<PendingEntry>,
    after: Seq<PendingEntry>,
    now: nat,
) -> bool {
    ||| after == before.skip(1)
    ||| exists|next: PendingEntry| next.time > now && #[trigger] inserted(before.skip(1), after, next)
}

/// `after` holds the entries of `base`, in their order, and besides them only entries
/// that are due later than `now`, each at a place that keeps the time order.
pub open spec fn follows_firings(
    base: Seq<PendingEntry>,
    after: Seq<PendingEntry>,
    now: nat,
) -> bool {
    exists|places: Seq<int>| #[trigger] sits_at(base, after, places, now)
}

/// `places` says where in `after` each entry of `base` stands: the places grow, and
/// whatever stands anywhere else in `after` is due later than `now`.
pub open spec fn sits_at(
    base: Seq<PendingEntry>,
    after: Seq<PendingEntry>,
    places: Seq<int>,
    now: nat,
) -> bool {
    &&& places.len() == base.len()
    &&& forall|i: int|
        0 <= i < base.len() ==> 0 <= #[trigger] places[i] < after.len() && after[places[i]]
            == base[i]
    &&& forall|i: int, j: int|
        0 <= i < j < base.len() ==> #[trigger] places[i] < #[trigger] places[j]
    &&& forall|k: int|
        0 <= k < after.len() && !places.contains(k) ==> (#[trigger] after[k]).time > now
}

/// While the due events fire: the events still due stand at the head of `current`,
/// and behind them stands what follows from the entries that were never due.
pub(crate) open spec fn holds_rest(
    before: Seq<PendingEntry>,
    current: Seq<PendingEntry>,
    done: int,
    due: int,
    now: nat,
) -> bool {
    &&& 0 <= done <= due <= before.len()
    &&& due - done <= current.len() <= before.len()
    &&& current.take(due - done) == before.subrange(done, due)
    &&& follows_firings(before.skip(due), current.skip(due - done), now)
}

/// One firing keeps `holds_rest`: the head leaves, and a next occurrence, being due
/// later than `now`, goes in behind the events that are still due.
pub(crate) proof fn lemma_holds_rest_step(
    before: Seq<PendingEntry>,
    current: Seq<PendingEntry>,
    after: Seq<PendingEntry>,
    done: int,
    due: int,
    now: nat,
)
    requires
        holds_rest(before, current, done, due, now),
        done < due,
        forall|i: int| 0 <= i < due ==> (#[trigger] before[i]).time <= now,
        follows_firing(current, after, now),
    ensures
        holds_rest(before, after, done + 1, due, now),
{
    let left = due - done;
    let rest = current.skip(1);
    let base = before.skip(due);
    let tail = current.skip(left);
    let places = choose|places: Seq<int>| #[trigger] sits_at(base, tail, places, now);
    assert forall|i: int| 0 <= i < left implies #[trigger] current[i] == before[done + i] by {
        assert(current[i] == current.take(left)[i]);
        assert(before.subrange(done, due)[i] == before[done + i]);
    }
    if after == rest {
        assert(after.take(left - 1) =~= before.subrange(done + 1, due)) by {
            assert forall|i: int| 0 <= i < left - 1 implies #[trigger] after[i] == before[done
                + 1 + i] by {
                assert(after[i] == current[i + 1]);
            }
        }
        assert(after.skip(left - 1) =~= tail);
    } else {
        let next = choose|next: PendingEntry|
            next.time > now && #[trigger] inserted(rest, after, next);
        let slot = choose|slot: int| #[trigger]
            slot_fits(rest, slot, next) && after == rest.insert(slot, next);
        if slot < left - 1 {
            assert(rest[slot] == current[slot + 1]);
            assert(next.time <= rest[slot].time);
        }
        assert(after.take(left - 1) =~= before.subrange(done + 1, due)) by {
            assert forall|i: int| 0 <= i < left - 1 implies #[trigger] after[i] == before[done
                + 1 + i] by {
                assert(after[i] == rest[i]);
                assert(rest[i] == current[i + 1]);
            }
        }
        let at = slot - (left - 1);
        let grown = tail.insert(at, next);
        assert(after.skip(left - 1) =~= grown);
        let moved = Seq::new(
            places.len(),
            |i: int|
                if places[i] >= at {
                    places[i] + 1
                } else {
                    places[i]
                },
        );
        assert forall|i: int| 0 <= i < base.len() implies 0 <= #[trigger] moved[i]
            < grown.len() && grown[moved[i]] == base[i] by {
            assert(0 <= places[i] < tail.len() && tail[places[i]] == base[i]);
        }
        assert forall|i: int, j: int| 0 <= i < j < base.len() implies #[trigger] moved[i]
            < #[trigger] moved[j] by {
            assert(places[i] < places[j]);
        }
        assert forall|k: int| 0 <= k < grown.len() && !moved.contains(k) implies (
        #[trigger] grown[k]).time > now by {
            if k < at {
                if places.contains(k) {
                    let i = choose|i: int| 0 <= i < places.len() && places[i] == k;
                    assert(moved[i] == k);
                }
                assert(grown[k] == tail[k]);
            } else if k > at {
                if places.contains(k - 1) {
                    let i = choose|i: int| 0 <= i < places.len() && places[i] == k - 1;
                    assert(moved[i] == k);
                }
                assert(grown[k] == tail[k - 1]);
            }
        }
        assert(sits_at(base, grown, moved, now));
    }
}

/// A queue holds its own entries, in their order, and nothing else.
pub(crate) proof fn lemma_follows_itself(base: Seq<PendingEntry>, now: nat)
    ensures
        follows_firings(base, base, now),
{
    let places = Seq::new(base.len(), |i: int| i);
    assert forall|k: int| 0 <= k < base.len() implies places.contains(k) by {
        assert(places[k] == k);
    }
    assert(sits_at(base, base, places, now));
}

} // verus!
