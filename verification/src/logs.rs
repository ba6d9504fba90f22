//! Bounded-retention log store.
//!
//! The store holds the most recent lines in memory (oldest first) and is fed,
//! one line at a time, from the session loop. At startup the lines read from
//! the on-disk log file are trimmed to the file's retention bound, the most
//! recent of them are loaded into memory, and a synthetic session-start marker
//! separates past sessions from the new one. The tee that forwards freshly
//! written log text line by line is driven by [`drain_lines`].
use vstd::prelude::*;
use std::collections::VecDeque;

verus! {

/// Most lines held in memory.
pub const MEM_CAPACITY: usize = 100;

/// Most lines kept in the on-disk log file once trimmed.
pub const FILE_CAPACITY: usize = 300;

/// The last `n` elements of `s` (all of `s` when it is shorter).
pub open spec fn last_n<T>(s: Seq<T>, n: int) -> Seq<T> {
    if s.len() <= n {
        s
    } else {
        s.skip(s.len() - n)
    }
}

/// What one received log line does to the in-memory sequence: append, then
/// evict the oldest entry if the bound is now exceeded.
pub open spec fn updated(s: Seq<String>, log: String) -> Seq<String> {
    if s.len() + 1 <= MEM_CAPACITY {
        s.push(log)
    } else {
        s.push(log).drop_first()
    }
}

/// The in-memory sequence after a whole sequence of received lines.
pub open spec fn apply_updates(s: Seq<String>, logs: Seq<String>) -> Seq<String>
    decreases logs.len(),
{
    if logs.len() == 0 {
        s
    } else {
        apply_updates(updated(s, logs.first()), logs.drop_first())
    }
}

/// Durable, bounded-retention log store.
pub struct Logs {
    /// When set, log infrastructure is disabled for the session and this
    /// message is shown in place of the log pane.
    pub init_error: Option<String>,
    /// In-memory retention: the most recent lines, oldest first.
    pub items: VecDeque<String>,
}

impl Logs {
    /// A store in permanent error-display mode.
    pub fn err(e: String) -> (r: Logs)
        ensures
            r.init_error == Some(e),
            r.items@ == Seq::<String>::empty(),
    {
        Logs { init_error: Some(e), items: VecDeque::new() }
    }

    /// Build the store from the most recent lines loaded at startup. When any
    /// lines were loaded, a synthetic session-start marker line (never written
    /// to disk) is appended to separate past sessions from the new one.
    pub fn init(recent: Vec<String>) -> (r: Logs)
        ensures
            r.init_error is None,
            recent@.len() == 0 ==> r.items@ == Seq::<String>::empty(),
            recent@.len() > 0 ==> {
                &&& r.items@.len() == recent@.len() + 1
                &&& r.items@.subrange(0, recent@.len() as int) == recent@
                &&& r.items@.last()@ == "### SESSION START ###"@
            },
    {
        let any = recent.len() > 0;
        let ghost rv = recent@;
        let mut items: VecDeque<String> = VecDeque::new();
        let mut i: usize = 0;
        while i < recent.len()
            invariant
                i <= rv.len(),
                recent@ == rv,
                items@ == rv.take(i as int),
            decreases rv.len() - i,
        {
            let line = recent[i].clone();
            items.push_back(line);
            assert(items@ =~= rv.take(i + 1));
            i = i + 1;
        }
        assert(items@ =~= rv);
        if any {
            let marker: String = "### SESSION START ###".to_owned();
            items.push_back(marker);
            assert(items@.subrange(0, rv.len() as int) =~= rv);
        }
        Logs { init_error: None, items }
    }

    /// Append one received log line, evicting the oldest entry when the
    /// in-memory bound is exceeded.
    pub fn update(&mut self, log: String)
        ensures
            final(self).items@ == updated(old(self).items@, log),
            final(self).init_error == old(self).init_error,
    {
        self.items.push_back(log);
        if self.items.len() > MEM_CAPACITY {
            self.items.pop_front();
            assert(final(self).items@ =~= updated(old(self).items@, log));
        }
    }

    /// The most recent `k` lines, oldest first: the only read pattern the
    /// display needs.
    pub fn get_text(&self, k: usize) -> (r: Vec<String>)
        ensures
            r@ == last_n(self.items@, k as int),
    {
        let len = self.items.len();
        let start = if len > k {
            len - k
        } else {
            0
        };
        let mut r: Vec<String> = Vec::new();
        let mut i = start;
        while i < len
            invariant
                start <= i <= len,
                len == self.items@.len(),
                r@ == self.items@.subrange(start as int, i as int),
            decreases len - i,
        {
            let line = self.items[i].clone();
            r.push(line);
            assert(r@ =~= self.items@.subrange(start as int, i + 1));
            i = i + 1;
        }
        assert(r@ =~= last_n(self.items@, k as int));
        r
    }
}

/// Trim loaded lines to the on-disk retention bound, keeping the most recent.
/// Returns whether anything was dropped, in which case the caller must rewrite
/// the file with the kept lines.
pub fn trim_lines(lines: &mut Vec<String>) -> (trimmed: bool)
    ensures
        final(lines)@ == last_n(old(lines)@, FILE_CAPACITY as int),
        trimmed == (old(lines)@.len() > FILE_CAPACITY),
{
    if lines.len() > FILE_CAPACITY {
        let at = lines.len() - FILE_CAPACITY;
        let tail = lines.split_off(at);
        *lines = tail;
        assert(final(lines)@ =~= last_n(old(lines)@, FILE_CAPACITY as int));
        true
    } else {
        false
    }
}

/// The most recent lines to load into memory at startup.
pub fn recent_lines(lines: &Vec<String>) -> (r: Vec<String>)
    ensures
        r@ == last_n(lines@, MEM_CAPACITY as int),
{
    let len = lines.len();
    let start = if len > MEM_CAPACITY {
        len - MEM_CAPACITY
    } else {
        0
    };
    let mut r: Vec<String> = Vec::new();
    let mut i = start;
    while i < len
        invariant
            start <= i <= len,
            len == lines@.len(),
            r@ == lines@.subrange(start as int, i as int),
        decreases len - i,
    {
        let line = lines[i].clone();
        r.push(line);
        assert(r@ =~= lines@.subrange(start as int, i + 1));
        i = i + 1;
    }
    assert(r@ =~= last_n(lines@, MEM_CAPACITY as int));
    r
}

/// A complete line as drained from the tee buffer: it ends with the newline
/// byte that completed it and holds no earlier newline.
pub open spec fn is_complete_line(l: Seq<u8>) -> bool {
    &&& l.len() > 0
    &&& l.last() == 10u8
    &&& forall|i: int| 0 <= i < l.len() - 1 ==> l[i] != 10u8
}

/// The drained lines joined back together.
pub open spec fn join_lines(ls: Seq<Seq<u8>>) -> Seq<u8>
    decreases ls.len(),
{
    if ls.len() == 0 {
        Seq::empty()
    } else {
        ls.first() + join_lines(ls.drop_first())
    }
}

proof fn lemma_join_lines_push(ls: Seq<Seq<u8>>, l: Seq<u8>)
    ensures
        join_lines(ls.push(l)) == join_lines(ls) + l,
    decreases ls.len(),
{
    if ls.len() == 0 {
        assert(ls.push(l).drop_first() =~= Seq::<Seq<u8>>::empty());
        assert(join_lines(ls.push(l).drop_first()) == Seq::<u8>::empty());
        assert(ls.push(l).first() == l);
        assert(join_lines(ls.push(l)) == l + Seq::<u8>::empty());
        assert(join_lines(ls) == Seq::<u8>::empty());
        assert(join_lines(ls.push(l)) =~= join_lines(ls) + l);
    } else {
        assert(ls.push(l).drop_first() =~= ls.drop_first().push(l));
        lemma_join_lines_push(ls.drop_first(), l);
        assert(ls.push(l).first() == ls.first());
        assert(join_lines(ls.push(l)) == ls.first() + (join_lines(ls.drop_first()) + l));
        assert(join_lines(ls) == ls.first() + join_lines(ls.drop_first()));
        assert(join_lines(ls.push(l)) =~= join_lines(ls) + l);
    }
}

/// Split every completed line out of the tee buffer, leaving the unfinished
/// tail in place. Each returned line ends with the newline that completed it;
/// nothing is lost and nothing is reordered.
pub fn drain_lines(buffer: &mut Vec<u8>) -> (lines: Vec<Vec<u8>>)
    ensures
        join_lines(lines.deep_view()) + final(buffer)@ == old(buffer)@,
        forall|i: int| 0 <= i < lines@.len() ==> is_complete_line(#[trigger] lines@[i]@),
        forall|i: int| 0 <= i < final(buffer)@.len() ==> final(buffer)@[i] != 10u8,
{
    let ghost bv = buffer@;
    let mut lines: Vec<Vec<u8>> = Vec::new();
    let mut cur: Vec<u8> = Vec::new();
    let mut i: usize = 0;
    assert(lines.deep_view() =~= Seq::<Seq<u8>>::empty());
    while i < buffer.len()
        invariant
            i <= buffer@.len(),
            buffer@ == bv,
            join_lines(lines.deep_view()) + cur@ == bv.take(i as int),
            forall|j: int| 0 <= j < lines@.len() ==> is_complete_line(#[trigger] lines@[j]@),
            forall|j: int| 0 <= j < cur@.len() ==> cur@[j] != 10u8,
        decreases buffer@.len() - i,
    {
        let ghost pre_lines = lines.deep_view();
        let ghost pre_cur = cur@;
        let b = buffer[i];
        cur.push(b);
        if b == 10u8 {
            let done = cur;
            cur = Vec::new();
            lines.push(done);
            proof {
                assert(lines.deep_view() =~~= pre_lines.push(pre_cur.push(10u8)));
                lemma_join_lines_push(pre_lines, pre_cur.push(10u8));
                assert(bv.take(i + 1) =~= bv.take(i as int).push(bv[i as int]));
                assert(join_lines(pre_lines) + pre_cur.push(10u8) =~= (join_lines(pre_lines)
                    + pre_cur).push(10u8));
                assert(join_lines(lines.deep_view()) + cur@ =~= bv.take(i + 1));
            }
        } else {
            assert(bv.take(i + 1) =~= bv.take(i as int).push(bv[i as int]));
            assert(join_lines(pre_lines) + pre_cur.push(b) =~= (join_lines(pre_lines)
                + pre_cur).push(b));
            assert(join_lines(lines.deep_view()) + cur@ =~= bv.take(i + 1));
        }
        i = i + 1;
    }
    assert(bv.take(buffer@.len() as int) =~= bv);
    *buffer = cur;
    lines
}

/// Law: starting from a store within the in-memory bound, after any sequence
/// of received lines the store holds exactly the most recent lines, in
/// arrival order, and never exceeds the bound.
pub proof fn lemma_retention(s: Seq<String>, logs: Seq<String>)
    requires
        s.len() <= MEM_CAPACITY,
    ensures
        apply_updates(s, logs).len() <= MEM_CAPACITY,
        apply_updates(s, logs) == last_n(s + logs, MEM_CAPACITY as int),
    decreases logs.len(),
{
    if logs.len() == 0 {
        assert(s + logs =~= s);
    } else {
        let s1 = updated(s, logs.first());
        assert(s1.len() <= MEM_CAPACITY);
        lemma_retention(s1, logs.drop_first());
        if s.len() + 1 <= MEM_CAPACITY {
            assert(s1 + logs.drop_first() =~= s + logs);
        } else {
            // one entry was evicted, but it lies outside the last
            // MEM_CAPACITY entries of the combined sequence
            assert(s1 + logs.drop_first() =~= (s + logs).drop_first());
            assert(last_n((s + logs).drop_first(), MEM_CAPACITY as int) =~= last_n(
                s + logs,
                MEM_CAPACITY as int,
            ));
        }
    }
}

} // verus!
