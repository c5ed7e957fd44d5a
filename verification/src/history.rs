//! The ring of submitted inputs: bounded, first in first out.

use crate::text::{digit, digit_of, join_lines, texts};
use std::collections::VecDeque;
use vstd::prelude::*;
use vstd::string::StringExecFns;

verus! {

/// How many entries the ring keeps.
pub const HISTORY_CAPACITY: usize = 20;

/// How many entries the panel of recent inputs shows.
pub const HISTORY_SHOWN: usize = 5;

/// The entries after `entry` was recorded: it is the newest, and where that
/// makes more than the capacity, the oldest is gone.
pub open spec fn record(entries: Seq<Seq<char>>, entry: Seq<char>) -> Seq<Seq<char>> {
    if entries.len() >= HISTORY_CAPACITY {
        entries.push(entry).drop_first()
    } else {
        entries.push(entry)
    }
}

/// What the panel shows when nothing was submitted yet.
pub open spec fn no_history_text() -> Seq<char> {
    "입력 기록이 없습니다."@
}

/// How many entries the panel shows of `entries`.
pub open spec fn shown_count(entries: Seq<Seq<char>>) -> nat {
    if entries.len() < HISTORY_SHOWN {
        entries.len()
    } else {
        HISTORY_SHOWN as nat
    }
}

/// Row `i` of the panel: the entry that is `i` places back from the newest,
/// behind a number that counts down from five.
pub open spec fn history_row(entries: Seq<Seq<char>>, i: int) -> Seq<char> {
    seq![digit(HISTORY_SHOWN - i), '.', ' '] + entries[entries.len() - 1 - i]
}

/// The rows of the panel: the newest entries, newest first.
pub open spec fn history_rows(entries: Seq<Seq<char>>) -> Seq<Seq<char>> {
    Seq::new(shown_count(entries), |i: int| history_row(entries, i))
}

/// The text of the panel of recent inputs.
pub open spec fn history_display(entries: Seq<Seq<char>>) -> Seq<char> {
    if entries.len() == 0 {
        no_history_text()
    } else {
        join_lines(history_rows(entries))
    }
}

/// The submitted inputs, oldest first, at most `HISTORY_CAPACITY` of them.
pub struct HistoryRing {
    input_history: VecDeque<String>,
}

impl View for HistoryRing {
    type V = Seq<Seq<char>>;

    closed spec fn view(&self) -> Seq<Seq<char>> {
        texts(self.input_history@)
    }
}

impl HistoryRing {
    /// The ring holds no more than its capacity.
    pub open spec fn wf(&self) -> bool {
        self@.len() <= HISTORY_CAPACITY
    }

    /// An empty ring.
    pub fn new() -> (ring: HistoryRing)
        ensures
            ring.wf(),
            ring@ == Seq::<Seq<char>>::empty(),
    {
        let ring = HistoryRing { input_history: VecDeque::new() };
        assert(ring@ =~= Seq::<Seq<char>>::empty());
        ring
    }

    /// How many entries the ring holds.
    pub fn len(&self) -> (n: usize)
        ensures
            n == self@.len(),
    {
        self.input_history.len()
    }

    /// The entry at place `i`, counted from the oldest.
    pub fn entry(&self, i: usize) -> (entry: &String)
        requires
            i < self@.len(),
        ensures
            entry@ == self@[i as int],
    {
        &self.input_history[i]
    }

    /// Records `entry` as the newest. A full ring lets the oldest go.
    pub fn push(&mut self, entry: String)
        ensures
            final(self)@ == record(old(self)@, entry@),
            old(self).wf() ==> final(self).wf(),
    {
        self.input_history.push_back(entry);
        assert(texts(self.input_history@) =~= texts(old(self).input_history@).push(entry@));
        if self.input_history.len() > HISTORY_CAPACITY {
            let ghost full = self.input_history@;
            let _ = self.input_history.pop_front();
            assert(texts(self.input_history@) =~= texts(full).drop_first());
        }
    }

    /// The text of the panel of recent inputs: the five newest entries,
    /// newest first, one per row, numbered downwards from five.
    pub fn display(&self) -> (shown: String)
        ensures
            shown@ == history_display(self@),
    {
        let n: usize = self.input_history.len();
        if n == 0 {
            return String::from_str("입력 기록이 없습니다.");
        }
        let count: usize = if n < HISTORY_SHOWN {
            n
        } else {
            HISTORY_SHOWN
        };
        let ghost rows = history_rows(self@);
        let mut shown = String::new();
        let mut i: usize = 0;
        while i < count
            invariant
                i <= count,
                count == shown_count(self@),
                n == self.input_history@.len(),
                n == self@.len(),
                count <= HISTORY_SHOWN,
                rows == history_rows(self@),
                shown@ == join_lines(rows.take(i as int)),
            decreases count - i,
        {
            proof {
                assert(rows.take(i as int + 1).drop_last() =~= rows.take(i as int));
                assert(rows.take(i as int + 1).last() == history_row(self@, i as int));
            }
            if i > 0 {
                shown.push('\n');
            }
            let ghost before = shown@;
            shown.push(digit_of((HISTORY_SHOWN - i) as u32));
            shown.push('.');
            shown.push(' ');
            shown.append(self.input_history[n - 1 - i].as_str());
            assert(shown@ =~= before + history_row(self@, i as int));
            i += 1;
        }
        proof {
            assert(rows.take(count as int) =~= rows);
        }
        shown
    }
}

/// The ring never holds more than its capacity, the newest entry is the one
/// just recorded, and eviction takes the oldest first: what stays are the
/// former entries from the second on, in their order.
pub proof fn lemma_record_is_bounded_fifo(entries: Seq<Seq<char>>, entry: Seq<char>)
    requires
        entries.len() <= HISTORY_CAPACITY,
    ensures
        record(entries, entry).len() <= HISTORY_CAPACITY,
        record(entries, entry).last() == entry,
        entries.len() < HISTORY_CAPACITY ==> record(entries, entry).drop_last() == entries,
        entries.len() == HISTORY_CAPACITY ==> record(entries, entry).drop_last()
            == entries.drop_first(),
{
    if entries.len() < HISTORY_CAPACITY {
        assert(record(entries, entry).drop_last() =~= entries);
    } else {
        assert(record(entries, entry).drop_last() =~= entries.drop_first());
    }
}

/// The entries after each of `added` was recorded, in order.
pub open spec fn record_all(entries: Seq<Seq<char>>, added: Seq<Seq<char>>) -> Seq<Seq<char>>
    decreases added.len(),
{
    if added.len() == 0 {
        entries
    } else {
        record(record_all(entries, added.drop_last()), added.last())
    }
}

/// The newest entries of `all`, as many as the ring keeps.
pub open spec fn newest(all: Seq<Seq<char>>) -> Seq<Seq<char>> {
    if all.len() > HISTORY_CAPACITY {
        all.skip(all.len() - HISTORY_CAPACITY)
    } else {
        all
    }
}

/// Whatever is recorded, the ring never holds more than its capacity, and
/// what it holds are the newest of all entries, in the order in which they
/// were recorded: the oldest are the ones that left.
pub proof fn lemma_ring_keeps_the_newest(entries: Seq<Seq<char>>, added: Seq<Seq<char>>)
    requires
        entries.len() <= HISTORY_CAPACITY,
    ensures
        record_all(entries, added).len() <= HISTORY_CAPACITY,
        record_all(entries, added) == newest(entries + added),
    decreases added.len(),
{
    if added.len() == 0 {
        assert(entries + added =~= entries);
    } else {
        let earlier = added.drop_last();
        lemma_ring_keeps_the_newest(entries, earlier);
        assert(entries + added =~= (entries + earlier).push(added.last()));
        assert(record_all(entries, added) =~= newest(entries + added));
    }
}

} // verus!
