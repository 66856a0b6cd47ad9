//! The play queue: ordered items, a current position, shuffle and repeat.
use std::collections::VecDeque;
use std::collections::hash_map::RandomState;

use vstd::prelude::*;

use crate::playlist::{PlaylistError, PlaylistResult};
use crate::types::{RepeatMode, repeat_cycle};

verus! {

/// An item in the play queue.
#[derive(Clone, Debug)]
pub struct QueueItem {
    /// Track ID from the library
    pub track_id: i64,
    /// Track title (kept for display)
    pub title: String,
    /// Artist name (kept for display)
    pub artist: Option<String>,
    /// Duration in milliseconds
    pub duration_ms: i64,
    /// File path
    pub path: String,
}

impl QueueItem {
    /// A new queue item.
    pub fn new(
        track_id: i64,
        title: String,
        artist: Option<String>,
        duration_ms: i64,
        path: String,
    ) -> (r: Self)
        ensures
            r == (QueueItem { track_id, title, artist, duration_ms, path }),
    {
        QueueItem { track_id, title, artist, duration_ms, path }
    }
}

/// Calls `RandomState::new`, which seeds a hasher at random.
#[verifier::external_body]
fn new_random_state() -> RandomState {
    RandomState::new()
}

/// Calls `BuildHasher::hash_one` on `i`. The value depends on the random
/// seed, so nothing is stated of it.
#[verifier::external_body]
fn random_hash(state: &RandomState, i: usize) -> u64 {
    std::hash::BuildHasher::hash_one(state, i)
}

/// Calls `VecDeque::swap`, which exchanges the items at `i` and `j`.
#[verifier::external_body]
fn deque_swap<T>(v: &mut VecDeque<T>, i: usize, j: usize)
    requires
        i < old(v)@.len(),
        j < old(v)@.len(),
    ensures
        final(v)@ == old(v)@.update(i as int, old(v)@[j as int]).update(j as int, old(v)@[i as int]),
{
    v.swap(i, j)
}

/// How many earlier positions the queue remembers for going back.
pub const MAX_HISTORY: usize = 100;

/// The abstract state of a play queue.
pub struct QueueModel {
    /// The items in play order
    pub items: Seq<QueueItem>,
    /// Index of the current item (it may lie past the end)
    pub position: usize,
    /// Track ids in the order they were added, for undoing a shuffle
    pub original_order: Seq<i64>,
    pub shuffle: bool,
    pub repeat: RepeatMode,
    /// Earlier positions, most recent last
    pub history: Seq<usize>,
}

/// The play queue.
#[derive(Debug)]
pub struct PlayQueue {
    items: VecDeque<QueueItem>,
    position: usize,
    original_order: Vec<i64>,
    shuffle: bool,
    repeat: RepeatMode,
    history: Vec<usize>,
    max_history: usize,
}

impl View for PlayQueue {
    type V = QueueModel;

    closed spec fn view(&self) -> QueueModel {
        QueueModel {
            items: self.items@,
            position: self.position,
            original_order: self.original_order@,
            shuffle: self.shuffle,
            repeat: self.repeat,
            history: self.history@,
        }
    }
}

/// The item at `position`, when there is one.
pub open spec fn item_at(items: Seq<QueueItem>, position: int) -> Option<QueueItem> {
    if 0 <= position < items.len() {
        Some(items[position])
    } else {
        None
    }
}

/// Whether `r` refers to the item at `position` of `items`, or is `None`
/// when there is none.
pub open spec fn refers_to(r: Option<&QueueItem>, items: Seq<QueueItem>, position: int) -> bool {
    match item_at(items, position) {
        Some(x) => r matches Some(y) && *y == x,
        None => r is None,
    }
}

/// The history after recording `position`: the oldest entry is dropped when
/// the history is full.
pub open spec fn history_push(history: Seq<usize>, position: usize) -> Seq<usize> {
    if history.len() >= MAX_HISTORY {
        history.drop_first().push(position)
    } else {
        history.push(position)
    }
}

/// The queue after a move to the next track.
pub open spec fn next_state(q: QueueModel) -> QueueModel {
    if q.items.len() == 0 {
        q
    } else {
        let len = q.items.len();
        let pos = q.position;
        QueueModel {
            position: match q.repeat {
                RepeatMode::One => pos,
                RepeatMode::All => ((pos + 1) % (len as int)) as usize,
                RepeatMode::Off => if pos + 1 < len {
                    (pos + 1) as usize
                } else {
                    pos
                },
            },
            history: history_push(q.history, pos),
            ..q
        }
    }
}

/// Whether a move to the next track yields no item: the queue is empty, or
/// repeat is off and the current item is the last (or past it).
pub open spec fn next_stops(q: QueueModel) -> bool {
    q.items.len() == 0 || (q.repeat == RepeatMode::Off && q.position + 1 >= q.items.len())
}

/// The queue after a move to the previous track.
pub open spec fn previous_state(q: QueueModel) -> QueueModel {
    if q.items.len() == 0 {
        q
    } else if q.history.len() > 0 {
        QueueModel { position: q.history.last(), history: q.history.drop_last(), ..q }
    } else if q.position > 0 {
        QueueModel { position: (q.position - 1) as usize, ..q }
    } else if q.repeat == RepeatMode::All {
        QueueModel { position: (q.items.len() - 1) as usize, ..q }
    } else {
        q
    }
}

/// The queue after a jump to `index`.
pub open spec fn jump_state(q: QueueModel, index: usize) -> QueueModel {
    QueueModel { position: index, history: history_push(q.history, q.position), ..q }
}

/// With repeat all, moving to the next track of a non-empty queue always
/// lands on an item: the one right after the current one, or the first
/// after the last; the items and modes stay as they are.
pub proof fn law_next_repeat_all_steps_forward(q: QueueModel)
    requires
        q.repeat == RepeatMode::All,
        0 < q.items.len() <= usize::MAX,
        q.position < q.items.len(),
    ensures
        !next_stops(q),
        q.position + 1 < q.items.len() ==> next_state(q).position == q.position + 1,
        q.position + 1 == q.items.len() ==> next_state(q).position == 0,
        next_state(q).items == q.items,
        next_state(q).repeat == q.repeat,
        next_state(q).shuffle == q.shuffle,
{
    let len = q.items.len() as int;
    if q.position + 1 < len {
        vstd::arithmetic::div_mod::lemma_small_mod((q.position + 1) as nat, len as nat);
    } else {
        vstd::arithmetic::div_mod::lemma_mod_self_0(len);
    }
}

/// With repeat off, moving to the next track steps one item forward and
/// stops at the last one, where no item is played.
pub proof fn law_next_repeat_off_steps_forward(q: QueueModel)
    requires
        q.repeat == RepeatMode::Off,
        0 < q.items.len() <= usize::MAX,
        q.position < q.items.len(),
    ensures
        q.position + 1 < q.items.len() ==> !next_stops(q) && next_state(q).position == q.position
            + 1,
        q.position + 1 == q.items.len() ==> next_stops(q) && next_state(q).position == q.position,
        next_state(q).items == q.items,
{
}

/// With repeat one, moving to the next track plays the same item again.
pub proof fn law_next_repeat_one_stays(q: QueueModel)
    requires
        q.repeat == RepeatMode::One,
        q.items.len() > 0,
    ensures
        !next_stops(q),
        next_state(q).position == q.position,
        next_state(q).items == q.items,
{
}

/// Going back after a move to the next track returns to the track that was
/// current; while the history is not full the whole queue is as it was.
pub proof fn law_next_then_previous(q: QueueModel)
    requires
        q.items.len() > 0,
    ensures
        previous_state(next_state(q)).position == q.position,
        q.history.len() < MAX_HISTORY ==> previous_state(next_state(q)) == q,
{
    assert(next_state(q).history.len() > 0);
    assert(next_state(q).history.last() == q.position);
    if q.history.len() < MAX_HISTORY {
        assert(next_state(q).history.drop_last() =~= q.history);
    }
}

/// Going back after a jump returns to the track that was current; while
/// the history is not full the whole queue is as it was.
pub proof fn law_jump_then_previous(q: QueueModel, index: usize)
    requires
        index < q.items.len(),
    ensures
        previous_state(jump_state(q, index)).position == q.position,
        q.history.len() < MAX_HISTORY ==> previous_state(jump_state(q, index)) == q,
{
    assert(jump_state(q, index).history.last() == q.position);
    if q.history.len() < MAX_HISTORY {
        assert(jump_state(q, index).history.drop_last() =~= q.history);
    }
}

/// Sum of the durations of `items`.
pub open spec fn duration_sum(items: Seq<QueueItem>) -> int
    decreases items.len(),
{
    if items.len() == 0 {
        0
    } else {
        duration_sum(items.drop_last()) + items.last().duration_ms
    }
}

/// Whether adding the durations of `items` one by one stays within `i64`.
pub open spec fn duration_sums_fit(items: Seq<QueueItem>) -> bool {
    forall|k: int|
        0 <= k <= items.len() ==> i64::MIN <= #[trigger] duration_sum(items.take(k)) <= i64::MAX
}

/// The items from `position` on.
pub open spec fn items_from(items: Seq<QueueItem>, position: int) -> Seq<QueueItem> {
    if position < items.len() {
        items.skip(position)
    } else {
        seq![]
    }
}

/// Track ids of `items`, in order.
pub open spec fn ids_of(items: Seq<QueueItem>) -> Seq<i64> {
    items.map_values(|x: QueueItem| x.track_id)
}

/// The key an item sorts by when a shuffle is undone: the last index of its
/// track id in the original order, or `usize::MAX` when it is not there.
pub open spec fn order_key(original_order: Seq<i64>, id: i64) -> int {
    match last_index_of(original_order, id) {
        Some(k) => k,
        None => usize::MAX as int,
    }
}

/// Last index of `id` in `s`.
pub open spec fn last_index_of(s: Seq<i64>, id: i64) -> Option<int>
    decreases s.len(),
{
    if s.len() == 0 {
        None
    } else if s.last() == id {
        Some(s.len() - 1)
    } else {
        last_index_of(s.drop_last(), id)
    }
}

/// Whether `r` is `items` sorted stably by `key`: there is a permutation
/// `perm` of the indices with `r[k] == items[perm[k]]` under which the pairs
/// (key, original index) strictly increase.
pub open spec fn stable_sorted_by(
    r: Seq<QueueItem>,
    items: Seq<QueueItem>,
    key: spec_fn(QueueItem) -> int,
) -> bool {
    exists|perm: Seq<int>| is_stable_sort_perm(perm, r, items, key)
}

pub open spec fn is_stable_sort_perm(
    perm: Seq<int>,
    r: Seq<QueueItem>,
    items: Seq<QueueItem>,
    key: spec_fn(QueueItem) -> int,
) -> bool {
    &&& r.len() == items.len()
    &&& perm.len() == items.len()
    &&& forall|k: int| 0 <= k < perm.len() ==> 0 <= #[trigger] perm[k] < items.len()
    &&& forall|k: int, l: int|
        0 <= k < l < perm.len() ==> perm[k] != perm[l]
    &&& forall|k: int| 0 <= k < r.len() ==> #[trigger] r[k] == items[perm[k]]
    &&& forall|k: int, l: int|
        #![trigger perm[k], perm[l]]
        0 <= k < l < perm.len() ==> (key(items[perm[k]]) < key(items[perm[l]]) || (key(
            items[perm[k]],
        ) == key(items[perm[l]]) && perm[k] < perm[l]))
}

/// Index of the first item with the given track id.
pub open spec fn first_index_with_id(items: Seq<QueueItem>, id: i64) -> Option<int>
    decreases items.len(),
{
    if items.len() == 0 {
        None
    } else if items[0].track_id == id {
        Some(0)
    } else {
        match first_index_with_id(items.drop_first(), id) {
            Some(i) => Some(i + 1),
            None => None,
        }
    }
}

impl PlayQueue {
    /// The queue's internal consistency: one original-order entry per item,
    /// and a bounded history.
    pub closed spec fn wf(&self) -> bool {
        &&& self.original_order@.len() == self.items@.len()
        &&& self.max_history == MAX_HISTORY
        &&& self.history@.len() <= MAX_HISTORY
    }

    /// A new empty queue.
    pub fn new() -> (r: Self)
        ensures
            r.wf(),
            r@.items == Seq::<QueueItem>::empty(),
            r@.position == 0,
            r@.original_order == Seq::<i64>::empty(),
            !r@.shuffle,
            r@.repeat == RepeatMode::Off,
            r@.history == Seq::<usize>::empty(),
    {
        PlayQueue {
            items: VecDeque::new(),
            position: 0,
            original_order: Vec::new(),
            shuffle: false,
            repeat: RepeatMode::Off,
            history: Vec::new(),
            max_history: MAX_HISTORY,
        }
    }

    /// The number of items.
    pub fn len(&self) -> (r: usize)
        ensures
            r == self@.items.len(),
    {
        self.items.len()
    }

    /// Whether the queue is empty.
    pub fn is_empty(&self) -> (r: bool)
        ensures
            r == (self@.items.len() == 0),
    {
        self.items.len() == 0
    }

    /// The current position.
    pub fn position(&self) -> (r: usize)
        ensures
            r == self@.position,
    {
        self.position
    }

    /// The current item.
    pub fn current(&self) -> (r: Option<&QueueItem>)
        ensures
            refers_to(r, self@.items, self@.position as int),
    {
        self.get(self.position)
    }

    /// All items, in play order.
    pub fn items(&self) -> (r: &VecDeque<QueueItem>)
        ensures
            r@ == self@.items,
    {
        &self.items
    }

    /// The item at `index`.
    pub fn get(&self, index: usize) -> (r: Option<&QueueItem>)
        ensures
            refers_to(r, self@.items, index as int),
    {
        if index < self.items.len() {
            Some(&self.items[index])
        } else {
            None
        }
    }

    /// The total duration of all items, in milliseconds.
    pub fn total_duration_ms(&self) -> (r: i64)
        requires
            duration_sums_fit(self@.items),
        ensures
            r == duration_sum(self@.items),
    {
        assert(self.items@.skip(0) =~= self.items@);
        sum_from(&self.items, 0)
    }

    /// The duration from the current position to the end, in milliseconds.
    pub fn remaining_duration_ms(&self) -> (r: i64)
        requires
            duration_sums_fit(items_from(self@.items, self@.position as int)),
        ensures
            r == duration_sum(items_from(self@.items, self@.position as int)),
    {
        if self.position < self.items.len() {
            sum_from(&self.items, self.position)
        } else {
            0
        }
    }

    /// Adds an item at the end of the queue.
    pub fn push_back(&mut self, item: QueueItem)
        requires
            old(self).wf(),
        ensures
            final(self).wf(),
            final(self)@.items == old(self)@.items.push(item),
            final(self)@.original_order == old(self)@.original_order.push(item.track_id),
            final(self)@.position == old(self)@.position,
            final(self)@.shuffle == old(self)@.shuffle,
            final(self)@.repeat == old(self)@.repeat,
            final(self)@.history == old(self)@.history,
    {
        self.original_order.push(item.track_id);
        self.items.push_back(item);
    }

    /// Adds an item to play next: right after the current one, or first in
    /// an empty queue.
    pub fn push_next(&mut self, item: QueueItem)
        requires
            old(self).wf(),
            old(self)@.items.len() == 0 || old(self)@.position < old(self)@.items.len(),
        ensures
            final(self).wf(),
            ({
                let at = if old(self)@.items.len() == 0 {
                    0
                } else {
                    old(self)@.position + 1
                };
                &&& final(self)@.items == old(self)@.items.insert(at, item)
                &&& final(self)@.original_order == old(self)@.original_order.insert(
                    at,
                    item.track_id,
                )
            }),
            final(self)@.position == old(self)@.position,
            final(self)@.shuffle == old(self)@.shuffle,
            final(self)@.repeat == old(self)@.repeat,
            final(self)@.history == old(self)@.history,
    {
        let insert_pos = if self.items.len() == 0 {
            0
        } else {
            self.position + 1
        };
        self.original_order.insert(insert_pos, item.track_id);
        self.items.insert(insert_pos, item);
    }

    /// Adds several items at the end, in order.
    pub fn extend(&mut self, items: Vec<QueueItem>)
        requires
            old(self).wf(),
        ensures
            final(self).wf(),
            final(self)@.items == old(self)@.items + items@,
            final(self)@.original_order == old(self)@.original_order + ids_of(items@),
            final(self)@.position == old(self)@.position,
            final(self)@.shuffle == old(self)@.shuffle,
            final(self)@.repeat == old(self)@.repeat,
            final(self)@.history == old(self)@.history,
    {
        let mut items = items;
        let ghost all = items@;
        let mut rev: Vec<QueueItem> = Vec::new();
        while items.len() > 0
            invariant
                all == items@ + rev@.reverse(),
            decreases items.len(),
        {
            let ghost before = items@;
            let ghost rev_before = rev@;
            let x = items.pop().unwrap();
            rev.push(x);
            assert(rev@.reverse() =~= seq![x] + rev_before.reverse());
            assert(before =~= items@.push(x));
            assert(all =~= items@ + rev@.reverse());
        }
        assert(all =~= rev@.reverse());
        assert(all.skip(0) =~= all);
        let ghost start = self@;
        while rev.len() > 0
            invariant
                self.wf(),
                rev@.reverse() == all.skip(all.len() - rev@.len()),
                rev@.len() <= all.len(),
                self@.items == start.items + all.take(all.len() - rev@.len()),
                self@.original_order == start.original_order + ids_of(
                    all.take(all.len() - rev@.len()),
                ),
                self@.position == start.position,
                self@.shuffle == start.shuffle,
                self@.repeat == start.repeat,
                self@.history == start.history,
            decreases rev.len(),
        {
            let ghost rev_before = rev@;
            let ghost n = all.len() - rev_before.len();
            let x = rev.pop().unwrap();
            assert(rev_before.reverse()[0] == x);
            assert(all.skip(n)[0] == all[n]);
            assert(all[n] == x);
            assert(all.take(n + 1) =~= all.take(n).push(x));
            assert(ids_of(all.take(n + 1)) =~= ids_of(all.take(n)).push(x.track_id));
            assert(rev@.reverse() =~= rev_before.reverse().drop_first());
            assert(all.skip(n).drop_first() =~= all.skip(n + 1));
            assert(all.len() - rev@.len() == n + 1);
            self.push_back(x);
        }
        assert(all.take(all.len() as int) =~= all);
    }

    /// Removes the item at `index`; a current position after it moves back
    /// by one.
    pub fn remove(&mut self, index: usize) -> (r: PlaylistResult<QueueItem>)
        requires
            old(self).wf(),
        ensures
            final(self).wf(),
            index >= old(self)@.items.len() ==> (r matches Err(PlaylistError::InvalidIndex(i))
                && i == index) && final(self)@ == old(self)@,
            index < old(self)@.items.len() ==> {
                &&& r matches Ok(x) && x == old(self)@.items[index as int]
                &&& final(self)@.items == old(self)@.items.remove(index as int)
                &&& final(self)@.original_order == old(self)@.original_order.remove(index as int)
                &&& final(self)@.position == if index < old(self)@.position {
                    (old(self)@.position - 1) as usize
                } else {
                    old(self)@.position
                }
                &&& final(self)@.shuffle == old(self)@.shuffle
                &&& final(self)@.repeat == old(self)@.repeat
                &&& final(self)@.history == old(self)@.history
            },
    {
        if index >= self.items.len() {
            return Err(PlaylistError::InvalidIndex(index));
        }
        if index < self.position {
            self.position = self.position - 1;
        }
        self.original_order.remove(index);
        match self.items.remove(index) {
            Some(x) => Ok(x),
            None => Err(PlaylistError::InvalidIndex(index)),
        }
    }

    /// Empties the queue.
    pub fn clear(&mut self)
        requires
            old(self).wf(),
        ensures
            final(self).wf(),
            final(self)@.items == Seq::<QueueItem>::empty(),
            final(self)@.original_order == Seq::<i64>::empty(),
            final(self)@.history == Seq::<usize>::empty(),
            final(self)@.position == 0,
            final(self)@.shuffle == old(self)@.shuffle,
            final(self)@.repeat == old(self)@.repeat,
    {
        self.items.clear();
        self.original_order.clear();
        self.history.clear();
        self.position = 0;
    }

    /// Records the current position in the history.
    fn record_history(&mut self)
        requires
            old(self).wf(),
        ensures
            final(self).wf(),
            final(self)@.history == history_push(old(self)@.history, old(self)@.position),
            final(self)@.items == old(self)@.items,
            final(self)@.original_order == old(self)@.original_order,
            final(self)@.position == old(self)@.position,
            final(self)@.shuffle == old(self)@.shuffle,
            final(self)@.repeat == old(self)@.repeat,
    {
        if self.history.len() >= self.max_history {
            self.history.remove(0);
        }
        self.history.push(self.position);
    }

    /// Moves to the next track. The current position is recorded in the
    /// history first. With repeat one the position stays; with repeat all it
    /// wraps to the start; with repeat off it stops at the last item and
    /// returns `None` there.
    pub fn next(&mut self) -> (r: Option<&QueueItem>)
        requires
            old(self).wf(),
        ensures
            final(self).wf(),
            final(self)@ == next_state(old(self)@),
            next_stops(old(self)@) ==> r is None,
            !next_stops(old(self)@) ==> refers_to(
                r,
                old(self)@.items,
                next_state(old(self)@).position as int,
            ),
    {
        if self.items.len() == 0 {
            return None;
        }
        self.record_history();
        match self.repeat {
            RepeatMode::One => {},
            RepeatMode::All => {
                self.position = ((self.position as u128 + 1) % (self.items.len() as u128)) as usize;
            },
            RepeatMode::Off => {
                if self.position < self.items.len() - 1 {
                    self.position = self.position + 1;
                } else {
                    return None;
                }
            },
        }
        self.current()
    }

    /// Moves to the previous track: the most recent position in the history
    /// if there is one; otherwise one back, wrapping to the last item with
    /// repeat all.
    pub fn previous(&mut self) -> (r: Option<&QueueItem>)
        requires
            old(self).wf(),
        ensures
            final(self).wf(),
            final(self)@ == previous_state(old(self)@),
            refers_to(r, old(self)@.items, previous_state(old(self)@).position as int),
    {
        if self.items.len() == 0 {
            return None;
        }
        if let Some(prev_pos) = self.history.pop() {
            self.position = prev_pos;
            return self.current();
        }
        if self.position > 0 {
            self.position = self.position - 1;
        } else if self.repeat == RepeatMode::All {
            self.position = self.items.len() - 1;
        }
        self.current()
    }

    /// Jumps to `index`, recording the current position in the history.
    pub fn jump_to(&mut self, index: usize) -> (r: PlaylistResult<&QueueItem>)
        requires
            old(self).wf(),
        ensures
            final(self).wf(),
            index >= old(self)@.items.len() ==> (r matches Err(PlaylistError::InvalidIndex(i))
                && i == index) && final(self)@ == old(self)@,
            index < old(self)@.items.len() ==> {
                &&& r matches Ok(x) && *x == old(self)@.items[index as int]
                &&& final(self)@ == jump_state(old(self)@, index)
            },
    {
        if index >= self.items.len() {
            return Err(PlaylistError::InvalidIndex(index));
        }
        self.record_history();
        self.position = index;
        match self.current() {
            Some(x) => Ok(x),
            None => Err(PlaylistError::QueueEmpty),
        }
    }

    /// Turns shuffle on or off. Turning it on moves the current item to the
    /// front and shuffles the rest at random; turning it off restores the
    /// order in which the items were added.
    pub fn set_shuffle(&mut self, shuffle: bool)
        requires
            old(self).wf(),
            shuffle == old(self)@.shuffle || !shuffle || old(self)@.items.len() <= 1
                || old(self)@.position < old(self)@.items.len(),
        ensures
            final(self).wf(),
            final(self)@.shuffle == shuffle,
            final(self)@.repeat == old(self)@.repeat,
            final(self)@.original_order == old(self)@.original_order,
            final(self)@.history == old(self)@.history,
            shuffle == old(self)@.shuffle ==> final(self)@ == old(self)@,
            shuffle != old(self)@.shuffle && shuffle ==> shuffled(old(self)@, final(self)@),
            shuffle != old(self)@.shuffle && !shuffle ==> unshuffled(
                old(self)@,
                final(self)@,
            ),
    {
        if shuffle == self.shuffle {
            return;
        }
        self.shuffle = shuffle;
        if shuffle {
            self.shuffle_queue();
        } else {
            self.unshuffle_queue();
        }
    }

    /// Turns shuffle off when it is on, and on when it is off.
    pub fn toggle_shuffle(&mut self)
        requires
            old(self).wf(),
            old(self)@.shuffle || old(self)@.items.len() <= 1 || old(self)@.position < old(
                self,
            )@.items.len(),
        ensures
            final(self).wf(),
            final(self)@.shuffle == !old(self)@.shuffle,
            final(self)@.repeat == old(self)@.repeat,
            final(self)@.original_order == old(self)@.original_order,
            final(self)@.history == old(self)@.history,
            !old(self)@.shuffle ==> shuffled(old(self)@, final(self)@),
            old(self)@.shuffle ==> unshuffled(old(self)@, final(self)@),
    {
        let s = !self.shuffle;
        self.set_shuffle(s);
    }

    /// Whether shuffle is on.
    pub fn shuffle(&self) -> (r: bool)
        ensures
            r == self@.shuffle,
    {
        self.shuffle
    }

    /// Sets the repeat mode.
    pub fn set_repeat(&mut self, repeat: RepeatMode)
        requires
            old(self).wf(),
        ensures
            final(self).wf(),
            final(self)@ == (QueueModel { repeat, ..old(self)@ }),
    {
        self.repeat = repeat;
    }

    /// Moves to the next repeat mode: off, all, one, and round again.
    pub fn cycle_repeat(&mut self)
        requires
            old(self).wf(),
        ensures
            final(self).wf(),
            final(self)@ == (QueueModel { repeat: repeat_cycle(old(self)@.repeat), ..old(self)@ }),
    {
        self.repeat = self.repeat.cycle();
    }

    /// The repeat mode.
    pub fn repeat(&self) -> (r: RepeatMode)
        ensures
            r == self@.repeat,
    {
        self.repeat
    }

    /// Moves the current item to the front and shuffles the items after it.
    fn shuffle_queue(&mut self)
        requires
            old(self).wf(),
            old(self)@.items.len() <= 1 || old(self)@.position < old(self)@.items.len(),
        ensures
            final(self).wf(),
            final(self)@.shuffle == old(self)@.shuffle,
            final(self)@.repeat == old(self)@.repeat,
            final(self)@.original_order == old(self)@.original_order,
            final(self)@.history == old(self)@.history,
            shuffled(old(self)@, final(self)@),
    {
        let ghost old_items = self@.items;
        if self.items.len() <= 1 {
            return;
        }
        if self.position > 0 {
            let ghost before = self.items@;
            let current = self.items.remove(self.position).unwrap();
            self.items.push_front(current);
            proof {
                lemma_move_to_front_multiset(before, self.position as int);
            }
        }
        self.position = 0;
        let ghost first = self.items@[0];
        assert(first == old_items[old(self)@.position as int]);
        let random = new_random_state();
        let len = self.items.len();
        let mut draws: Vec<u64> = Vec::new();
        let mut i = len - 1;
        while i >= 2
            invariant
                len >= 2,
                1 <= i < len,
                draws@.len() == len - 1 - i,
            decreases i,
        {
            draws.push(random_hash(&random, i));
            i = i - 1;
        }
        shuffle_with_draws(&mut self.items, &draws);
    }

    /// Restores the order in which items were added and keeps the current
    /// item current.
    fn unshuffle_queue(&mut self)
        requires
            old(self).wf(),
        ensures
            final(self).wf(),
            final(self)@.shuffle == old(self)@.shuffle,
            final(self)@.repeat == old(self)@.repeat,
            final(self)@.original_order == old(self)@.original_order,
            final(self)@.history == old(self)@.history,
            unshuffled(old(self)@, final(self)@),
    {
        if self.original_order.len() == 0 {
            return;
        }
        let current_id: Option<i64> = match self.current() {
            Some(x) => Some(x.track_id),
            None => None,
        };
        let ghost items0 = self@.items;
        let ghost order = self@.original_order;
        let ghost key = |x: QueueItem| order_key(order, x.track_id);
        let n = self.items.len();
        let mut sorted: VecDeque<QueueItem> = VecDeque::new();
        let mut keys: Vec<usize> = Vec::new();
        let ghost mut perm: Seq<int> = Seq::empty();
        let mut t: usize = 0;
        while t < n
            invariant
                self.original_order@.len() == n,
                self.max_history == MAX_HISTORY,
                self.history@.len() <= MAX_HISTORY,
                n == items0.len(),
                t <= n,
                self@.items == items0.skip(t as int),
                self@.original_order == order,
                forall|x: QueueItem| #[trigger] key(x) == order_key(order, x.track_id),
                self@.position == old(self)@.position,
                self@.shuffle == old(self)@.shuffle,
                self@.repeat == old(self)@.repeat,
                self@.history == old(self)@.history,
                keys@.len() == sorted@.len() == perm.len() == t,
                forall|k: int| 0 <= k < perm.len() ==> 0 <= #[trigger] perm[k] < t,
                forall|k: int, l: int| 0 <= k < l < perm.len() ==> perm[k] != perm[l],
                forall|k: int| 0 <= k < t ==> #[trigger] sorted@[k] == items0[perm[k]],
                forall|k: int| 0 <= k < t ==> #[trigger] keys@[k] == key(items0[perm[k]]),
                forall|k: int, l: int|
                    #![trigger perm[k], perm[l]]
                    0 <= k < l < perm.len() ==> (key(items0[perm[k]]) < key(items0[perm[l]]) || (
                    key(items0[perm[k]]) == key(items0[perm[l]]) && perm[k] < perm[l])),
            decreases n - t,
        {
            let ghost rest = self@.items;
            let x = self.items.pop_front().unwrap();
            assert(rest =~= items0.skip(t as int));
            assert(x == items0[t as int]);
            assert(self@.items =~= items0.skip(t + 1));
            let kx = order_key_exec(&self.original_order, x.track_id);
            let mut p: usize = 0;
            while p < keys.len() && keys[p] <= kx
                invariant
                    p <= keys@.len(),
                    forall|k: int| 0 <= k < p ==> keys@[k] <= kx,
                decreases keys.len() - p,
            {
                p = p + 1;
            }
            proof {
                assert forall|k: int| p <= k < keys@.len() implies keys@[k] > kx by {
                    if keys@[k] <= kx {
                        assert(keys@[p as int] > kx);
                        assert(key(items0[perm[p as int]]) < key(items0[perm[k]]) || key(
                            items0[perm[p as int]],
                        ) == key(items0[perm[k]]));
                    }
                }
            }
            let ghost old_perm = perm;
            let ghost old_sorted = sorted@;
            let ghost old_keys = keys@;
            sorted.insert(p, x);
            keys.insert(p, kx);
            proof {
                perm = perm.insert(p as int, t as int);
                assert forall|k: int| 0 <= k < t + 1 implies #[trigger] sorted@[k] == items0[perm[k]]
                    by {
                    if k < p {
                        assert(sorted@[k] == old_sorted[k]);
                    } else if k > p {
                        assert(sorted@[k] == old_sorted[k - 1]);
                    }
                }
                assert forall|k: int| 0 <= k < t + 1 implies #[trigger] keys@[k] == key(
                    items0[perm[k]],
                ) by {
                    if k < p {
                        assert(keys@[k] == old_keys[k]);
                    } else if k > p {
                        assert(keys@[k] == old_keys[k - 1]);
                    }
                }
                assert forall|k: int| 0 <= k < perm.len() implies 0 <= #[trigger] perm[k] < t
                    + 1 by {
                    if k < p {
                        assert(perm[k] == old_perm[k]);
                    } else if k > p {
                        assert(perm[k] == old_perm[k - 1]);
                    }
                }
                assert forall|k: int, l: int| 0 <= k < l < perm.len() implies perm[k] != perm[l]
                    by {
                    if k < p && l < p {
                        assert(perm[k] == old_perm[k] && perm[l] == old_perm[l]);
                    } else if k < p && l == p {
                        assert(perm[k] == old_perm[k]);
                    } else if k < p && l > p {
                        assert(perm[k] == old_perm[k] && perm[l] == old_perm[l - 1]);
                    } else if k == p {
                        assert(perm[l] == old_perm[l - 1]);
                    } else {
                        assert(perm[k] == old_perm[k - 1] && perm[l] == old_perm[l - 1]);
                    }
                }
                assert forall|k: int, l: int|
                    #![trigger perm[k], perm[l]]
                    0 <= k < l < perm.len() implies (key(items0[perm[k]]) < key(items0[perm[l]])
                        || (key(items0[perm[k]]) == key(items0[perm[l]]) && perm[k] < perm[l])) by {
                    assert(key(items0[t as int]) == kx);
                    if k < p && l < p {
                        assert(perm[k] == old_perm[k] && perm[l] == old_perm[l]);
                    } else if k < p && l == p {
                        assert(perm[k] == old_perm[k]);
                        assert(old_keys[k] <= kx);
                    } else if k < p && l > p {
                        assert(perm[k] == old_perm[k] && perm[l] == old_perm[l - 1]);
                    } else if k == p {
                        assert(perm[l] == old_perm[l - 1]);
                        assert(old_keys[l - 1] > kx);
                    } else {
                        assert(perm[k] == old_perm[k - 1] && perm[l] == old_perm[l - 1]);
                    }
                }
            }
            t = t + 1;
        }
        assert(is_stable_sort_perm(perm, sorted@, items0, key));
        self.items = sorted;
        if let Some(id) = current_id {
            self.position = first_index_of_id(&self.items, id);
        }
    }

    /// Moves the item at `from` to `to`, shifting those between; the current
    /// position follows the current item.
    pub fn move_item(&mut self, from: usize, to: usize) -> (r: PlaylistResult<()>)
        requires
            old(self).wf(),
        ensures
            final(self).wf(),
            final(self)@.original_order == old(self)@.original_order,
            final(self)@.shuffle == old(self)@.shuffle,
            final(self)@.repeat == old(self)@.repeat,
            final(self)@.history == old(self)@.history,
            (from >= old(self)@.items.len() || to >= old(self)@.items.len()) ==> (r matches Err(
                PlaylistError::InvalidIndex(i),
            ) && i == if from >= to {
                from
            } else {
                to
            }) && final(self)@ == old(self)@,
            (from < old(self)@.items.len() && to < old(self)@.items.len()) ==> {
                let pos = old(self)@.position;
                &&& r is Ok
                &&& final(self)@.items == old(self)@.items.remove(from as int).insert(
                    to as int,
                    old(self)@.items[from as int],
                )
                &&& final(self)@.position == if from == to {
                    pos
                } else if pos == from {
                    to
                } else if from < pos && to >= pos {
                    (pos - 1) as usize
                } else if from > pos && to <= pos {
                    (pos + 1) as usize
                } else {
                    pos
                }
            },
    {
        if from >= self.items.len() || to >= self.items.len() {
            let m = if from >= to {
                from
            } else {
                to
            };
            return Err(PlaylistError::InvalidIndex(m));
        }
        if from == to {
            assert(self@.items.remove(from as int).insert(to as int, self@.items[from as int])
                =~= self@.items);
            return Ok(());
        }
        let item = self.items.remove(from).unwrap();
        self.items.insert(to, item);
        if self.position == from {
            self.position = to;
        } else if from < self.position && to >= self.position {
            self.position = self.position - 1;
        } else if from > self.position && to <= self.position {
            self.position = self.position + 1;
        }
        Ok(())
    }
}

/// What turning shuffle on does to the queue: the same items in some order;
/// with more than one item, the old current item first and position zero.
pub open spec fn shuffled(old_q: QueueModel, new_q: QueueModel) -> bool {
    &&& new_q.items.to_multiset() == old_q.items.to_multiset()
    &&& old_q.items.len() <= 1 ==> new_q.items == old_q.items && new_q.position
        == old_q.position
    &&& old_q.items.len() > 1 ==> new_q.position == 0 && new_q.items[0]
        == old_q.items[old_q.position as int]
}

/// The two items at `i` and `j` exchanged.
pub open spec fn swapped(s: Seq<QueueItem>, i: int, j: int) -> Seq<QueueItem> {
    s.update(i, s[j]).update(j, s[i])
}

/// The index that the drawn value `h` exchanges with index `i` (at least 1):
/// one of `1..=i`, so that the first item stays first.
pub open spec fn drawn_index(h: u64, i: int) -> int {
    (h as usize) as int % i + 1
}

/// The items after the first `k` steps of the shuffle. Step `k` (counted
/// from zero) places the index `n - 1 - k`, where `n` is the number of
/// items, by exchanging it with `drawn_index(draws[k], n - 1 - k)`.
pub open spec fn shuffle_steps(items: Seq<QueueItem>, draws: Seq<u64>, k: nat) -> Seq<QueueItem>
    decreases k,
{
    if k == 0 {
        items
    } else {
        let i = items.len() - k;
        swapped(shuffle_steps(items, draws, (k - 1) as nat), i, drawn_index(draws[k - 1], i))
    }
}

/// The order a Fisher-Yates shuffle gives that keeps the first item in
/// place: for each index from the last down to the third, exchange it with
/// the index that the next drawn value picks among those from the second up
/// to it.
pub open spec fn fisher_yates(items: Seq<QueueItem>, draws: Seq<u64>) -> Seq<QueueItem> {
    shuffle_steps(items, draws, draws.len())
}

/// Shuffles all items but the first with the given drawn values, one per
/// index from the last down to the third (see `fisher_yates`).
pub fn shuffle_with_draws(items: &mut VecDeque<QueueItem>, draws: &Vec<u64>)
    requires
        old(items)@.len() >= 2,
        draws@.len() == old(items)@.len() - 2,
    ensures
        final(items)@ == fisher_yates(old(items)@, draws@),
        final(items)@.len() == old(items)@.len(),
        final(items)@.to_multiset() == old(items)@.to_multiset(),
        final(items)@[0] == old(items)@[0],
{
    let ghost start = items@;
    let len = items.len();
    let mut k: usize = 0;
    while k < draws.len()
        invariant
            len == start.len(),
            len >= 2,
            draws@.len() == len - 2,
            k <= draws@.len(),
            items@ == shuffle_steps(start, draws@, k as nat),
            items@.len() == len,
            items@.to_multiset() == start.to_multiset(),
            items@[0] == start[0],
        decreases draws@.len() - k,
    {
        let i = len - 1 - k;
        let j = ((draws[k] as usize) % i) + 1;
        let ghost before = items@;
        deque_swap(items, i, j);
        proof {
            lemma_swap_multiset(before, i as int, j as int);
            assert(items@ == swapped(before, i as int, drawn_index(draws@[k as int], i as int)));
        }
        k = k + 1;
    }
}

/// What turning shuffle off does to the queue: with no original order
/// nothing changes; otherwise the items are sorted stably by their place in
/// the original order, and the position moves to the first item with the
/// current item's track id.
pub open spec fn unshuffled(old_q: QueueModel, new_q: QueueModel) -> bool {
    if old_q.original_order.len() == 0 {
        new_q.items == old_q.items && new_q.position == old_q.position
    } else {
        &&& stable_sorted_by(
            new_q.items,
            old_q.items,
            |x: QueueItem| order_key(old_q.original_order, x.track_id),
        )
        &&& new_q.position == match item_at(old_q.items, old_q.position as int) {
            Some(cur) => match first_index_with_id(new_q.items, cur.track_id) {
                Some(i) => i as usize,
                None => 0usize,
            },
            None => old_q.position,
        }
    }
}

/// The key an item sorts by when a shuffle is undone.
fn order_key_exec(order: &Vec<i64>, id: i64) -> (r: usize)
    ensures
        r == order_key(order@, id),
{
    let mut k = order.len();
    assert(order@.take(k as int) == order@);
    while k > 0 && order[k - 1] != id
        invariant
            k <= order@.len(),
            last_index_of(order@, id) == last_index_of(order@.take(k as int), id),
        decreases k,
    {
        assert(order@.take(k as int).drop_last() == order@.take(k - 1));
        k = k - 1;
    }
    if k == 0 {
        assert(order@.take(0) =~= Seq::<i64>::empty());
        usize::MAX
    } else {
        k - 1
    }
}

/// Index of the first item with the given track id, or zero when there is
/// none.
fn first_index_of_id(items: &VecDeque<QueueItem>, id: i64) -> (r: usize)
    ensures
        r == match first_index_with_id(items@, id) {
            Some(i) => i as usize,
            None => 0usize,
        },
{
    let mut i: usize = 0;
    assert(items@.skip(0) =~= items@);
    assert(offset(first_index_with_id(items@, id), 0) == first_index_with_id(items@, id));
    while i < items.len()
        invariant
            i <= items@.len(),
            first_index_with_id(items@, id) == offset(first_index_with_id(items@.skip(i as int), id), i as int),
        decreases items.len() - i,
    {
        if items[i].track_id == id {
            return i;
        }
        assert(items@.skip(i as int).drop_first() =~= items@.skip(i + 1));
        i = i + 1;
    }
    0
}

/// `o` shifted by `by`.
pub open spec fn offset(o: Option<int>, by: int) -> Option<int> {
    match o {
        Some(i) => Some(i + by),
        None => None,
    }
}

/// Swapping two items keeps the multiset of items.
proof fn lemma_swap_multiset(s: Seq<QueueItem>, i: int, j: int)
    requires
        0 <= i < s.len(),
        0 <= j < s.len(),
    ensures
        s.update(i, s[j]).update(j, s[i]).to_multiset() == s.to_multiset(),
{
    broadcast use vstd::seq_lib::to_multiset_update;
    broadcast use vstd::multiset::group_multiset_properties;
    broadcast use vstd::seq_lib::to_multiset_contains;

    if i == j {
        assert(s.update(i, s[j]).update(j, s[i]) =~= s);
    } else {
        let s1 = s.update(i, s[j]);
        assert(s1[j] == s[j]);
        assert(s1.to_multiset() == s.to_multiset().insert(s[j]).remove(s[i]));
        assert(s1.update(j, s[i]).to_multiset() == s1.to_multiset().insert(s[i]).remove(s[j]));
        assert(s1.update(j, s[i]).to_multiset() =~= s.to_multiset());
    }
}

/// Moving one item to the front keeps the multiset of items.
proof fn lemma_move_to_front_multiset(s: Seq<QueueItem>, p: int)
    requires
        0 <= p < s.len(),
    ensures
        (seq![s[p]] + s.remove(p)).to_multiset() == s.to_multiset(),
{
    broadcast use vstd::seq_lib::to_multiset_remove;
    broadcast use vstd::seq_lib::to_multiset_build;
    broadcast use vstd::seq_lib::lemma_multiset_commutative;
    broadcast use vstd::multiset::group_multiset_properties;
    broadcast use vstd::seq_lib::to_multiset_contains;

    let r = s.remove(p);
    assert((seq![s[p]] + r).to_multiset() == (r + seq![s[p]]).to_multiset());
    assert(r + seq![s[p]] =~= r.push(s[p]));
    assert(s.contains(s[p]));
    assert(r.push(s[p]).to_multiset() =~= s.to_multiset());
}

/// Sum of the durations of `items[from..]`.
fn sum_from(items: &VecDeque<QueueItem>, from: usize) -> (r: i64)
    requires
        from <= items@.len(),
        duration_sums_fit(items@.skip(from as int)),
    ensures
        r == duration_sum(items@.skip(from as int)),
{
    let ghost s = items@.skip(from as int);
    let mut total: i64 = 0;
    let mut i = from;
    assert(s.take(0) =~= Seq::<QueueItem>::empty());
    while i < items.len()
        invariant
            from <= i <= items@.len(),
            s == items@.skip(from as int),
            duration_sums_fit(s),
            total == duration_sum(s.take(i - from)),
        decreases items.len() - i,
    {
        assert(s.take(i - from + 1).drop_last() == s.take(i - from));
        assert(s.take(i - from + 1).last() == items@[i as int]);
        assert(i64::MIN <= duration_sum(s.take(i - from + 1)) <= i64::MAX);
        total = total + items[i].duration_ms;
        i = i + 1;
    }
    assert(s.take(i - from) == s);
    total
}

// Turning shuffle off after turning it on

/// Whether no two items share a track id.
pub open spec fn distinct_ids(items: Seq<QueueItem>) -> bool {
    forall|i: int, j: int|
        0 <= i < items.len() && 0 <= j < items.len() && i != j ==> items[i].track_id
            != items[j].track_id
}

/// Turning shuffle on and then off gives back the items in the order they
/// were added, with the same track current, when every track is in the
/// queue once and the queue is in the order its items were added.
pub proof fn law_shuffle_then_unshuffle(q0: QueueModel, q1: QueueModel, q2: QueueModel)
    requires
        distinct_ids(q0.items),
        q0.original_order == ids_of(q0.items),
        shuffled(q0, q1),
        q1.original_order == q0.original_order,
        unshuffled(q1, q2),
    ensures
        q2.items == q0.items,
        q0.position < q0.items.len() || q0.items.len() <= 1 ==> q2.position == q0.position,
{
    let n = q0.items.len();
    if n == 0 {
        assert(q1.items == q0.items);
        assert(q1.original_order.len() == 0);
        return;
    }
    assert(q1.original_order.len() == n);
    let order = q0.original_order;
    let key = |x: QueueItem| order_key(order, x.track_id);
    lemma_no_duplicate_items(q0.items);
    q0.items.lemma_multiset_has_no_duplicates();
    assert(q1.items.to_multiset() == q0.items.to_multiset());
    q1.items.lemma_multiset_has_no_duplicates_conv();
    let perm = choose|perm: Seq<int>| is_stable_sort_perm(perm, q2.items, q1.items, key);
    assert(is_stable_sort_perm(perm, q2.items, q1.items, key));
    assert(q1.items.len() == n) by {
        vstd::seq_lib::to_multiset_len(q0.items);
        vstd::seq_lib::to_multiset_len(q1.items);
    }
    // every item of the shuffled queue is found at its key in the original
    assert forall|k: int| 0 <= k < n implies 0 <= #[trigger] key(q1.items[k]) < n && q0.items[key(
        q1.items[k],
    )] == q1.items[k] by {
        lemma_item_at_key(q0.items, q1.items, k);
    }
    // so the keys of the sorted items strictly increase
    assert forall|k: int, l: int| 0 <= k < l < n implies #[trigger] key(q2.items[k]) < #[trigger] key(
        q2.items[l],
    ) by {
        assert(q2.items[k] == q1.items[perm[k]]);
        assert(q2.items[l] == q1.items[perm[l]]);
        assert(perm[k] != perm[l]);
        if key(q1.items[perm[k]]) == key(q1.items[perm[l]]) {
            assert(q1.items[perm[k]] == q1.items[perm[l]]);
        }
    }
    assert forall|k: int| 0 <= k < n implies 0 <= #[trigger] key(q2.items[k]) < n by {
        assert(q2.items[k] == q1.items[perm[k]]);
    }
    lemma_increasing_is_identity(Seq::new(n, |k: int| key(q2.items[k])), n as int);
    assert forall|k: int| 0 <= k < n implies q2.items[k] == q0.items[k] by {
        assert(Seq::new(n, |k: int| key(q2.items[k]))[k] == k);
        assert(q2.items[k] == q1.items[perm[k]]);
    }
    assert(q2.items =~= q0.items);
    // the current track
    if q0.position < n {
        let p = q0.position as int;
        let cur = if n <= 1 {
            q1.items[p]
        } else {
            q1.items[0]
        };
        assert(cur == q0.items[p]);
        lemma_first_index_distinct(q0.items, p);
    }
}

/// Distinct track ids make distinct items.
proof fn lemma_no_duplicate_items(items: Seq<QueueItem>)
    requires
        distinct_ids(items),
    ensures
        items.no_duplicates(),
{
}

/// An item of a permutation of a queue with distinct ids sits, in the
/// original, at its key.
proof fn lemma_item_at_key(items: Seq<QueueItem>, shuffled_items: Seq<QueueItem>, k: int)
    requires
        distinct_ids(items),
        shuffled_items.to_multiset() == items.to_multiset(),
        0 <= k < shuffled_items.len(),
    ensures
        0 <= order_key(ids_of(items), shuffled_items[k].track_id) < items.len(),
        items[order_key(ids_of(items), shuffled_items[k].track_id)] == shuffled_items[k],
{
    broadcast use vstd::seq_lib::to_multiset_contains;

    let x = shuffled_items[k];
    assert(shuffled_items.contains(x));
    assert(items.to_multiset().count(x) > 0);
    assert(items.contains(x));
    let m = choose|m: int| 0 <= m < items.len() && items[m] == x;
    lemma_last_index_distinct(ids_of(items), m);
}

/// In a sequence without repeats, the last index of the `m`-th element is `m`.
proof fn lemma_last_index_distinct(s: Seq<i64>, m: int)
    requires
        0 <= m < s.len(),
        forall|i: int, j: int| 0 <= i < s.len() && 0 <= j < s.len() && i != j ==> s[i] != s[j],
    ensures
        last_index_of(s, s[m]) == Some(m),
    decreases s.len(),
{
    if s.last() != s[m] {
        let t = s.drop_last();
        assert(m < s.len() - 1);
        assert(t[m] == s[m]);
        lemma_last_index_distinct(t, m);
    }
}

/// In a queue with distinct ids, the first item with the `p`-th item's id is
/// the `p`-th.
proof fn lemma_first_index_distinct(items: Seq<QueueItem>, p: int)
    requires
        distinct_ids(items),
        0 <= p < items.len(),
    ensures
        first_index_with_id(items, items[p].track_id) == Some(p),
    decreases items.len(),
{
    if p > 0 {
        let t = items.drop_first();
        assert(t[p - 1] == items[p]);
        assert(items[0].track_id != items[p].track_id);
        lemma_first_index_distinct(t, p - 1);
    }
}

/// A strictly increasing sequence of `n` numbers below `n`, from zero up, is
/// `0, 1, .., n - 1`.
proof fn lemma_increasing_is_identity(f: Seq<int>, n: int)
    requires
        f.len() == n,
        forall|k: int| 0 <= k < n ==> 0 <= #[trigger] f[k] < n,
        forall|k: int, l: int| 0 <= k < l < n ==> #[trigger] f[k] < #[trigger] f[l],
    ensures
        forall|k: int| 0 <= k < n ==> #[trigger] f[k] == k,
{
    assert forall|k: int| 0 <= k < n implies #[trigger] f[k] == k by {
        lemma_increasing_lower(f, n, k);
        lemma_increasing_upper(f, n, k);
    }
}

/// A strictly increasing map of `0..n` into `0..n` has `f[k] >= k`.
proof fn lemma_increasing_lower(f: Seq<int>, n: int, k: int)
    requires
        f.len() == n,
        0 <= k < n,
        forall|k: int| 0 <= k < n ==> 0 <= #[trigger] f[k] < n,
        forall|k: int, l: int| 0 <= k < l < n ==> #[trigger] f[k] < #[trigger] f[l],
    ensures
        f[k] >= k,
    decreases k,
{
    if k > 0 {
        lemma_increasing_lower(f, n, k - 1);
        assert(f[k - 1] < f[k]);
    }
}

/// A strictly increasing map of `0..n` into `0..n` has `f[k] <= k`.
proof fn lemma_increasing_upper(f: Seq<int>, n: int, k: int)
    requires
        f.len() == n,
        0 <= k < n,
        forall|k: int| 0 <= k < n ==> 0 <= #[trigger] f[k] < n,
        forall|k: int, l: int| 0 <= k < l < n ==> #[trigger] f[k] < #[trigger] f[l],
    ensures
        f[k] <= k,
    decreases n - k,
{
    if k < n - 1 {
        lemma_increasing_upper(f, n, k + 1);
        assert(f[k] < f[k + 1]);
    }
}

} // verus!
