//! The in-memory ring of recent log lines that the renderer's logger keeps
//! beside its stdout and file outputs, held in a `crossbeam` bounded queue.

use vstd::prelude::*;
use crossbeam::queue::ArrayQueue;

verus! {

/// How many recent log lines the ring keeps.
pub const LOG_RING_CAPACITY: usize = 50;

#[verifier::external_type_specification]
#[verifier::external_body]
#[verifier::reject_recursive_types(T)]
pub struct ExArrayQueue<T>(ArrayQueue<T>);

/// The lines a log queue holds, oldest first.
pub uninterp spec fn log_lines(q: ArrayQueue<String>) -> Seq<Seq<char>>;

/// The capacity a log queue was created with.
pub uninterp spec fn log_capacity(q: ArrayQueue<String>) -> nat;

/// `ArrayQueue::new`: an empty queue of the given capacity; the crate asserts
/// that the capacity is not zero.
#[verifier::external_body]
fn queue_new(cap: usize) -> (q: ArrayQueue<String>)
    requires
        cap > 0,
    ensures
        log_lines(q) == Seq::<Seq<char>>::empty(),
        log_capacity(q) == cap,
{
    ArrayQueue::new(cap)
}

/// `ArrayQueue::is_full`: with no other thread touching the queue, it is full
/// exactly when it holds as many lines as its capacity.
#[verifier::external_body]
fn queue_is_full(q: &ArrayQueue<String>) -> (r: bool)
    ensures
        r == (log_lines(*q).len() == log_capacity(*q)),
{
    q.is_full()
}

/// `ArrayQueue::pop`: removes and returns the oldest line; `None` when empty.
/// Taken through `&mut`, so no other thread changes the queue meanwhile.
#[verifier::external_body]
fn queue_pop(q: &mut ArrayQueue<String>) -> (r: Option<String>)
    ensures
        log_capacity(*final(q)) == log_capacity(*old(q)),
        match r {
            Some(line) => log_lines(*old(q)).len() > 0 && line@ == log_lines(*old(q))[0]
                && log_lines(*final(q)) == log_lines(*old(q)).drop_first(),
            None => log_lines(*old(q)).len() == 0 && log_lines(*final(q)) == log_lines(*old(q)),
        },
{
    q.pop()
}

/// `ArrayQueue::push`: appends a line unless the queue is full, in which case
/// the line is handed back. Taken through `&mut`, so no other thread changes
/// the queue meanwhile.
#[verifier::external_body]
fn queue_push(q: &mut ArrayQueue<String>, line: String) -> (r: Result<(), String>)
    ensures
        log_capacity(*final(q)) == log_capacity(*old(q)),
        match r {
            Ok(()) => log_lines(*old(q)).len() < log_capacity(*old(q)) && log_lines(*final(q))
                == log_lines(*old(q)).push(line@),
            Err(back) => log_lines(*old(q)).len() >= log_capacity(*old(q)) && back == line
                && log_lines(*final(q)) == log_lines(*old(q)),
        },
{
    q.push(line)
}

/// A new, empty ring for the logger.
pub fn new_log_ring() -> (q: ArrayQueue<String>)
    ensures
        log_lines(q) == Seq::<Seq<char>>::empty(),
        log_capacity(q) == LOG_RING_CAPACITY,
{
    queue_new(LOG_RING_CAPACITY)
}

/// The lines of a ring after recording `line`: when the ring is full its
/// oldest line (if any) gives way, and the new line is appended if there is
/// then room for it.
pub open spec fn after_record(lines: Seq<Seq<char>>, capacity: nat, line: Seq<char>) -> Seq<
    Seq<char>,
> {
    let kept = if lines.len() == capacity && lines.len() > 0 {
        lines.drop_first()
    } else {
        lines
    };
    if kept.len() < capacity {
        kept.push(line)
    } else {
        kept
    }
}

/// Records one formatted log line in the ring, dropping the oldest line first
/// when the ring is full.
pub fn record_log_line(q: &mut ArrayQueue<String>, line: String)
    ensures
        log_capacity(*final(q)) == log_capacity(*old(q)),
        log_lines(*final(q)) == after_record(log_lines(*old(q)), log_capacity(*old(q)), line@),
{
    if queue_is_full(q) {
        let _oldest = queue_pop(q);
    }
    let _ = queue_push(q, line);
}

/// The ring keeps the most recent lines: after recording a line into a ring
/// that holds no more than its capacity, it still holds no more than its
/// capacity, the new line is the newest, and every line that stays keeps its
/// order.
pub proof fn lemma_ring_keeps_latest(lines: Seq<Seq<char>>, capacity: nat, line: Seq<char>)
    requires
        0 < capacity,
        lines.len() <= capacity,
    ensures
        after_record(lines, capacity, line).len() <= capacity,
        after_record(lines, capacity, line).last() == line,
        after_record(lines, capacity, line).drop_last() == if lines.len() == capacity {
            lines.drop_first()
        } else {
            lines
        },
{
    let r = after_record(lines, capacity, line);
    if lines.len() == capacity {
        assert(r.drop_last() =~= lines.drop_first());
    } else {
        assert(r.drop_last() =~= lines);
    }
}

/// The lines of a ring after recording each of `new` in turn.
pub open spec fn after_records(lines: Seq<Seq<char>>, capacity: nat, new: Seq<Seq<char>>) -> Seq<
    Seq<char>,
>
    decreases new.len(),
{
    if new.len() == 0 {
        lines
    } else {
        after_record(after_records(lines, capacity, new.drop_last()), capacity, new.last())
    }
}

/// The last `capacity` lines of `s` (all of them when there are fewer), in
/// order.
pub open spec fn latest_lines(s: Seq<Seq<char>>, capacity: nat) -> Seq<Seq<char>> {
    if s.len() > capacity {
        s.skip(s.len() - capacity)
    } else {
        s
    }
}

/// Over any number of records the ring holds the latest lines: starting from
/// a ring that holds no more than its capacity, after recording `new` line by
/// line it holds the last `capacity` lines of its old lines followed by the
/// new ones, oldest first. From an empty ring these are the last
/// `min(n, capacity)` of the `n` recorded lines.
pub proof fn lemma_ring_holds_latest_lines(lines: Seq<Seq<char>>, capacity: nat, new: Seq<Seq<char>>)
    requires
        0 < capacity,
        lines.len() <= capacity,
    ensures
        after_records(lines, capacity, new) == latest_lines(lines + new, capacity),
    decreases new.len(),
{
    if new.len() > 0 {
        let prev = new.drop_last();
        let x = new.last();
        lemma_ring_holds_latest_lines(lines, capacity, prev);
        let s = lines + prev;
        let l = latest_lines(s, capacity);
        assert(lines + new =~= s.push(x));
        if s.len() > capacity {
            assert(l.len() == capacity);
            assert(l.drop_first().push(x) =~= s.push(x).skip(s.push(x).len() - capacity));
        } else if s.len() == capacity {
            assert(l == s);
            assert(s.drop_first().push(x) =~= s.push(x).skip(s.push(x).len() - capacity));
        } else {
            assert(l == s);
        }
    } else {
        assert(lines + new =~= lines);
    }
}

} // verus!
