//! The allocator of job ids.
//!
//! Each project has a counter on disk: eight bytes that hold the id of the
//! next job, in the byte order of the machine, which the program names when
//! it reads or writes a counter. To give out an id is to read
//! the counter, hand out what it holds, and write back one more. The program
//! around this module holds an exclusive lock on the counter's file from the
//! read to the write, so that allocations of one project happen one after
//! another; this module says what each of them reads, gives and writes.

use crate::job::JobId;
use byteorder::ByteOrder;
use vstd::bytes::*;
use vstd::prelude::*;

verus! {

/// The id of the first job of a project: what a counter holds that has never
/// been written.
pub const FIRST_JOB_ID: JobId = 1;

/// The length of a counter on disk.
pub const COUNTER_LEN: usize = 8;

/// The integer whose little-endian form is `bytes`.
pub open spec fn le_value(bytes: Seq<u8>) -> u64 {
    spec_u64_from_le_bytes(bytes)
}

/// The integer whose big-endian form is `bytes`.
pub open spec fn be_value(bytes: Seq<u8>) -> u64 {
    spec_u64_from_le_bytes(bytes.reverse())
}

/// The little-endian form of `value`.
pub open spec fn le_bytes(value: u64) -> Seq<u8> {
    spec_u64_to_le_bytes(value)
}

/// The big-endian form of `value`.
pub open spec fn be_bytes(value: u64) -> Seq<u8> {
    spec_u64_to_le_bytes(value).reverse()
}

/// The order in which the bytes of a counter stand on disk. A counter is
/// kept in the order of the machine that holds it, and the program names that
/// order.
#[derive(Debug, Clone, Copy, PartialEq, Eq, Structural)]
pub enum Endianness {
    /// The least significant byte first.
    Little,
    /// The most significant byte first.
    Big,
}

/// The integer whose form in `order` is `bytes`.
pub open spec fn counter_value(order: Endianness, bytes: Seq<u8>) -> u64 {
    match order {
        Endianness::Little => le_value(bytes),
        Endianness::Big => be_value(bytes),
    }
}

/// The eight bytes of `value` in `order`.
pub open spec fn counter_bytes(order: Endianness, value: u64) -> Seq<u8> {
    match order {
        Endianness::Little => le_bytes(value),
        Endianness::Big => be_bytes(value),
    }
}

/// Calls `byteorder::LittleEndian::read_u64` on `buf`.
///
/// It reads the first eight bytes of `buf` as a little-endian integer. The
/// function panics on fewer than eight bytes, which `requires` leaves out.
#[verifier::external_body]
fn little_read_u64(buf: &[u8]) -> (r: u64)
    requires
        buf@.len() >= 8,
    ensures
        r == le_value(buf@.subrange(0, 8)),
{
    byteorder::LittleEndian::read_u64(buf)
}

/// Calls `byteorder::BigEndian::read_u64` on `buf`.
///
/// It reads the first eight bytes of `buf` as a big-endian integer. The
/// function panics on fewer than eight bytes, which `requires` leaves out.
#[verifier::external_body]
fn big_read_u64(buf: &[u8]) -> (r: u64)
    requires
        buf@.len() >= 8,
    ensures
        r == be_value(buf@.subrange(0, 8)),
{
    byteorder::BigEndian::read_u64(buf)
}

/// Calls `byteorder::LittleEndian::write_u64` on an eight-byte buffer.
///
/// It overwrites the buffer with the little-endian form of `value`. The
/// function panics on a buffer of fewer than eight bytes, which `requires`
/// leaves out.
#[verifier::external_body]
fn little_write_u64(buf: &mut Vec<u8>, value: u64)
    requires
        old(buf)@.len() == 8,
    ensures
        final(buf)@ == le_bytes(value),
{
    byteorder::LittleEndian::write_u64(buf.as_mut_slice(), value)
}

/// Calls `byteorder::BigEndian::write_u64` on an eight-byte buffer.
///
/// It overwrites the buffer with the big-endian form of `value`. The function
/// panics on a buffer of fewer than eight bytes, which `requires` leaves out.
#[verifier::external_body]
fn big_write_u64(buf: &mut Vec<u8>, value: u64)
    requires
        old(buf)@.len() == 8,
    ensures
        final(buf)@ == be_bytes(value),
{
    byteorder::BigEndian::write_u64(buf.as_mut_slice(), value)
}

/// What a counter file with these contents holds: the first id for a file
/// that is empty or too short to hold a counter, and else the integer that
/// its first eight bytes are in `order`.
pub open spec fn held(order: Endianness, contents: Seq<u8>) -> u64 {
    if contents.len() < 8 {
        FIRST_JOB_ID
    } else {
        counter_value(order, contents.subrange(0, 8))
    }
}

/// Reads a counter from the contents of its file. A file that is empty, or
/// too short to hold a counter, stands for the first id.
pub fn read_counter(order: Endianness, contents: &[u8]) -> (r: u64)
    ensures
        r == held(order, contents@),
{
    if contents.len() < COUNTER_LEN {
        FIRST_JOB_ID
    } else {
        match order {
            Endianness::Little => little_read_u64(contents),
            Endianness::Big => big_read_u64(contents),
        }
    }
}

/// The contents of a counter file that holds `value`: exactly eight bytes.
pub fn write_counter(order: Endianness, value: u64) -> (r: Vec<u8>)
    ensures
        r@ == counter_bytes(order, value),
        r@.len() == 8,
{
    let mut buf: Vec<u8> = vec![0u8; 8];
    match order {
        Endianness::Little => little_write_u64(&mut buf, value),
        Endianness::Big => big_write_u64(&mut buf, value),
    }
    proof {
        lemma_auto_spec_u64_to_from_le_bytes();
    }
    buf
}

/// Why no id could be given out.
#[derive(Debug, PartialEq, Eq)]
pub enum AllocationError {
    /// The counter's file could not be opened, locked, read or written; the
    /// text says why.
    Io(String),
    /// The counter holds the last id there is, so that no counter could be
    /// written back.
    Exhausted,
}

/// One allocation: the id that is given out and what the counter holds
/// afterwards.
#[derive(Debug, Clone, Copy, PartialEq, Eq, Structural)]
pub struct Allocation {
    pub id: JobId,
    pub next: u64,
}

/// What an allocation from a counter that holds `current` gives: the id
/// `current`, and `current + 1` to write back. There is none when `current`
/// is the last id.
pub open spec fn allocation(current: u64) -> Option<Allocation> {
    if current < u64::MAX {
        Some(Allocation { id: current, next: (current + 1) as u64 })
    } else {
        None
    }
}

/// Gives out the id that the counter holds and says what to write back. No
/// id is made up: when there is no next counter, there is no id.
pub fn allocate(current: u64) -> (r: Result<Allocation, AllocationError>)
    ensures
        match r {
            Ok(a) => allocation(current) == Some(a),
            Err(e) => allocation(current) is None && e == AllocationError::Exhausted,
        },
{
    if current < u64::MAX {
        Ok(Allocation { id: current, next: current + 1 })
    } else {
        Err(AllocationError::Exhausted)
    }
}

/// One turn of the allocator on the contents of a counter file: the id that
/// is given out, and the new contents of the file.
///
/// The id is what the file holds, and the new contents are the eight bytes of
/// one more, in the same order: what the next turn reads.
pub fn next_job_id(order: Endianness, contents: &[u8]) -> (r: Result<
    (JobId, Vec<u8>),
    AllocationError,
>)
    ensures
        match r {
            Ok((id, written)) => {
                &&& id == held(order, contents@)
                &&& id < u64::MAX
                &&& written@ == counter_bytes(order, (id + 1) as u64)
                &&& held(order, written@) == id + 1
            },
            Err(e) => held(order, contents@) == u64::MAX && e == AllocationError::Exhausted,
        },
{
    let current = read_counter(order, contents);
    match allocate(current) {
        Ok(a) => {
            proof {
                law_counter_round_trip(order, a.next);
            }
            Ok((a.id, write_counter(order, a.next)))
        },
        Err(e) => Err(e),
    }
}

/// The ids given out by `n` allocations in a row from a counter that holds
/// `start`, each of which writes back what the next one reads. The row ends
/// early where there is no next id.
pub open spec fn issued(start: u64, n: nat) -> Seq<JobId>
    decreases n,
{
    if n == 0 {
        Seq::empty()
    } else {
        match allocation(start) {
            Some(a) => seq![a.id] + issued(a.next, (n - 1) as nat),
            None => Seq::empty(),
        }
    }
}

/// Monotonic unique ids. `n` allocations in a row from a counter that holds
/// `k` give out exactly `k, k + 1, …, k + n - 1`, in this order: every id
/// once, none left out.
pub proof fn law_ids_are_consecutive(k: u64, n: nat)
    requires
        k + n <= u64::MAX,
    ensures
        issued(k, n).len() == n,
        forall|i: int| 0 <= i < n ==> #[trigger] issued(k, n)[i] == k + i,
    decreases n,
{
    if n > 0 {
        law_ids_are_consecutive((k + 1) as u64, (n - 1) as nat);
        let rest = issued((k + 1) as u64, (n - 1) as nat);
        assert forall|i: int| 0 <= i < n implies #[trigger] issued(k, n)[i] == k + i by {
            if i > 0 {
                assert(issued(k, n)[i] == rest[i - 1]);
            }
        }
    }
}

/// No id is given out twice, and ids only grow, however long the row is and
/// wherever it starts.
pub proof fn law_ids_are_unique(k: u64, n: nat, i: int, j: int)
    requires
        0 <= i < j < issued(k, n).len(),
    ensures
        issued(k, n)[i] < issued(k, n)[j],
    decreases n,
{
    lemma_issued_from(k, n, i);
    lemma_issued_from(k, n, j);
}

/// The id at position `i` of a row that starts at `k` is `k + i`.
proof fn lemma_issued_from(k: u64, n: nat, i: int)
    requires
        0 <= i < issued(k, n).len(),
    ensures
        issued(k, n)[i] == k + i,
        issued(k, n).len() <= n,
    decreases n,
{
    if n > 0 && k < u64::MAX {
        let rest = issued((k + 1) as u64, (n - 1) as nat);
        if i > 0 {
            lemma_issued_from((k + 1) as u64, (n - 1) as nat, i - 1);
            assert(issued(k, n)[i] == rest[i - 1]);
        } else {
            lemma_issued_len((k + 1) as u64, (n - 1) as nat);
        }
    }
}

/// A row of `n` allocations gives out at most `n` ids.
proof fn lemma_issued_len(k: u64, n: nat)
    ensures
        issued(k, n).len() <= n,
    decreases n,
{
    if n > 0 && k < u64::MAX {
        lemma_issued_len((k + 1) as u64, (n - 1) as nat);
    }
}

/// What is written is what is read back. The eight bytes that hold a counter
/// in some order are read as that counter in the same order, so that each
/// allocation reads what the last one wrote.
pub proof fn law_counter_round_trip(order: Endianness, value: u64)
    ensures
        counter_bytes(order, value).len() == 8,
        counter_value(order, counter_bytes(order, value)) == value,
        held(order, counter_bytes(order, value)) == value,
{
    lemma_auto_spec_u64_to_from_le_bytes();
    assert(be_bytes(value).reverse() =~= le_bytes(value));
    assert(counter_bytes(order, value).subrange(0, 8) =~= counter_bytes(order, value));
}

/// The ids given out by `n` turns in a row on a counter file that begins with
/// `contents`, where each turn leaves the file as [`next_job_id`] writes it.
pub open spec fn issued_from_file(order: Endianness, contents: Seq<u8>, n: nat) -> Seq<JobId>
    decreases n,
{
    if n == 0 {
        Seq::empty()
    } else {
        match allocation(held(order, contents)) {
            Some(a) => seq![a.id] + issued_from_file(
                order,
                counter_bytes(order, a.next),
                (n - 1) as nat,
            ),
            None => Seq::empty(),
        }
    }
}

/// Monotonic unique ids, on disk. The turns on a counter file give out the
/// ids that allocations in a row give from the counter that the file holds
/// at first: with [`law_ids_are_consecutive`], `n` turns on a file that holds
/// `k` give out exactly `k, k + 1, …, k + n - 1`.
pub proof fn law_ids_from_a_file(order: Endianness, contents: Seq<u8>, n: nat)
    ensures
        issued_from_file(order, contents, n) == issued(held(order, contents), n),
    decreases n,
{
    if n > 0 {
        match allocation(held(order, contents)) {
            Some(a) => {
                law_counter_round_trip(order, a.next);
                law_ids_from_a_file(order, counter_bytes(order, a.next), (n - 1) as nat);
            },
            None => {},
        }
    }
}

/// Where one turn of the allocator stands. A turn works on the counter file
/// of one project, and holds an exclusive lock on it from the read to the
/// write.
#[derive(Debug, Clone, Copy, PartialEq, Eq, Structural)]
pub enum TurnState {
    /// The file is being opened, and created if it is not there.
    Opening,
    /// The exclusive lock is being taken.
    Locking,
    /// The lock is held; the counter is being read.
    Reading,
    /// The lock is held; the next counter is being written over the old one.
    /// `id` is what the counter held.
    Writing { id: JobId },
    /// The lock is held; the file is being cut to the length of a counter.
    Truncating { id: JobId },
    /// The lock is being given back. `outcome` is the id to give out, if the
    /// turn got that far.
    Releasing { outcome: Option<JobId> },
    /// The turn is over, with the id that it gives out or with none.
    Finished { outcome: Option<JobId> },
}

/// What has just happened in a turn.
#[derive(Debug, Clone, Copy, PartialEq, Eq, Structural)]
pub enum TurnEvent {
    /// What was asked for is done.
    Done,
    /// What was asked for has failed.
    Failed,
    /// The counter has been read and holds `current`. A file that is empty
    /// or too short to hold a counter has been read too: it holds the first
    /// id, as [`read_counter`] says. A read that fails is the event `Failed`.
    Read { current: u64 },
}

/// What a turn asks for next.
#[derive(Debug, Clone, Copy, PartialEq, Eq, Structural)]
pub enum TurnAction {
    /// Take the exclusive lock on the file.
    Lock,
    /// Read the counter.
    Read,
    /// Write `value` at the start of the file.
    Write { value: u64 },
    /// Cut the file to eight bytes.
    Truncate,
    /// Give the lock back.
    Unlock,
    /// Give out `id`.
    Return { id: JobId },
    /// Report that no id can be given out.
    Fail,
    /// The event does not belong to the state; nothing changes.
    Ignore,
}

/// The transition rule of a turn.
///
/// Every failure ends the turn without an id, and a failure under the lock
/// gives the lock back first. An id is given out only when the next counter
/// has been written and the file cut to its length.
pub open spec fn turn_spec(state: TurnState, event: TurnEvent) -> (TurnState, TurnAction) {
    match (state, event) {
        (TurnState::Opening, TurnEvent::Done) => (TurnState::Locking, TurnAction::Lock),
        (TurnState::Opening, TurnEvent::Failed) => (
            TurnState::Finished { outcome: None },
            TurnAction::Fail,
        ),
        (TurnState::Locking, TurnEvent::Done) => (TurnState::Reading, TurnAction::Read),
        (TurnState::Locking, TurnEvent::Failed) => (
            TurnState::Finished { outcome: None },
            TurnAction::Fail,
        ),
        (TurnState::Reading, TurnEvent::Read { current }) => match allocation(current) {
            Some(a) => (TurnState::Writing { id: a.id }, TurnAction::Write { value: a.next }),
            None => (TurnState::Releasing { outcome: None }, TurnAction::Unlock),
        },
        (TurnState::Reading, TurnEvent::Failed) => (
            TurnState::Releasing { outcome: None },
            TurnAction::Unlock,
        ),
        (TurnState::Writing { id }, TurnEvent::Done) => (
            TurnState::Truncating { id },
            TurnAction::Truncate,
        ),
        (TurnState::Writing { .. }, TurnEvent::Failed) => (
            TurnState::Releasing { outcome: None },
            TurnAction::Unlock,
        ),
        (TurnState::Truncating { id }, TurnEvent::Done) => (
            TurnState::Releasing { outcome: Some(id) },
            TurnAction::Unlock,
        ),
        (TurnState::Truncating { .. }, TurnEvent::Failed) => (
            TurnState::Releasing { outcome: None },
            TurnAction::Unlock,
        ),
        (TurnState::Releasing { outcome }, TurnEvent::Done) => (
            TurnState::Finished { outcome },
            match outcome {
                Some(id) => TurnAction::Return { id },
                None => TurnAction::Fail,
            },
        ),
        (TurnState::Releasing { outcome }, TurnEvent::Failed) => (
            TurnState::Finished { outcome },
            match outcome {
                Some(id) => TurnAction::Return { id },
                None => TurnAction::Fail,
            },
        ),
        _ => (state, TurnAction::Ignore),
    }
}

fn released(outcome: Option<JobId>) -> (r: (TurnState, TurnAction))
    ensures
        r == turn_spec(TurnState::Releasing { outcome }, TurnEvent::Done),
        r == turn_spec(TurnState::Releasing { outcome }, TurnEvent::Failed),
{
    match outcome {
        Some(id) => (TurnState::Finished { outcome: Some(id) }, TurnAction::Return { id }),
        None => (TurnState::Finished { outcome: None }, TurnAction::Fail),
    }
}

/// Applies the transition rule of a turn: the state after `event` and what to
/// do next. A turn begins in `Opening`, with the file being opened.
pub fn turn(state: TurnState, event: TurnEvent) -> (r: (TurnState, TurnAction))
    ensures
        r == turn_spec(state, event),
{
    let give_up = (TurnState::Releasing { outcome: None }, TurnAction::Unlock);
    match state {
        TurnState::Opening => match event {
            TurnEvent::Done => (TurnState::Locking, TurnAction::Lock),
            TurnEvent::Failed => (TurnState::Finished { outcome: None }, TurnAction::Fail),
            _ => (state, TurnAction::Ignore),
        },
        TurnState::Locking => match event {
            TurnEvent::Done => (TurnState::Reading, TurnAction::Read),
            TurnEvent::Failed => (TurnState::Finished { outcome: None }, TurnAction::Fail),
            _ => (state, TurnAction::Ignore),
        },
        TurnState::Reading => match event {
            TurnEvent::Read { current } => match allocate(current) {
                Ok(a) => (TurnState::Writing { id: a.id }, TurnAction::Write { value: a.next }),
                Err(_) => give_up,
            },
            TurnEvent::Failed => give_up,
            _ => (state, TurnAction::Ignore),
        },
        TurnState::Writing { id } => match event {
            TurnEvent::Done => (TurnState::Truncating { id }, TurnAction::Truncate),
            TurnEvent::Failed => give_up,
            _ => (state, TurnAction::Ignore),
        },
        TurnState::Truncating { id } => match event {
            TurnEvent::Done => (TurnState::Releasing { outcome: Some(id) }, TurnAction::Unlock),
            TurnEvent::Failed => give_up,
            _ => (state, TurnAction::Ignore),
        },
        TurnState::Releasing { outcome } => match event {
            TurnEvent::Done => released(outcome),
            TurnEvent::Failed => released(outcome),
            _ => (state, TurnAction::Ignore),
        },
        TurnState::Finished { .. } => (state, TurnAction::Ignore),
    }
}

/// Whether the turn holds the lock in `state`.
pub open spec fn holds_lock(state: TurnState) -> bool {
    state is Reading || state is Writing || state is Truncating
}

/// The state of a turn that has seen `events`.
pub open spec fn turn_after(events: Seq<TurnEvent>) -> TurnState
    decreases events.len(),
{
    if events.len() == 0 {
        TurnState::Opening
    } else {
        turn_spec(turn_after(events.drop_last()), events.last()).0
    }
}

/// What the turn asked for, event by event.
pub open spec fn turn_actions(events: Seq<TurnEvent>) -> Seq<TurnAction>
    decreases events.len(),
{
    if events.len() == 0 {
        Seq::empty()
    } else {
        turn_actions(events.drop_last()).push(
            turn_spec(turn_after(events.drop_last()), events.last()).1,
        )
    }
}

/// How many of `actions` are `wanted`.
pub open spec fn asked(actions: Seq<TurnAction>, wanted: TurnAction) -> nat
    decreases actions.len(),
{
    if actions.len() == 0 {
        0
    } else {
        asked(actions.drop_last(), wanted) + if actions.last() == wanted {
            1nat
        } else {
            0nat
        }
    }
}

/// The lock covers the read-modify-write. The counter is written and cut only
/// in a state in which the lock is held, and the lock is still held
/// afterwards; and the read is asked for at the moment the lock is taken.
pub proof fn law_lock_covers_the_turn(state: TurnState, event: TurnEvent)
    ensures
        turn_spec(state, event).1 is Read ==> state is Locking && holds_lock(
            turn_spec(state, event).0,
        ),
        turn_spec(state, event).1 is Write || turn_spec(state, event).1 is Truncate
            ==> holds_lock(state) && holds_lock(turn_spec(state, event).0),
        turn_spec(state, event).1 is Unlock ==> holds_lock(state) && !holds_lock(
            turn_spec(state, event).0,
        ),
        turn_spec(state, event).1 is Return || turn_spec(state, event).1 is Fail ==> !holds_lock(
            state,
        ) && turn_spec(state, event).0 is Finished,
{
}

/// The lock is always given back. Whatever happens in a turn, the lock is
/// asked for at most once and given back at most once; it is held exactly
/// from the moment it is taken until it is given back; and a turn that is
/// over has given back the lock if it had taken it, also after a failure.
pub proof fn law_lock_is_given_back(events: Seq<TurnEvent>)
    ensures
        asked(turn_actions(events), TurnAction::Lock) <= 1,
        asked(turn_actions(events), TurnAction::Read) <= 1,
        asked(turn_actions(events), TurnAction::Unlock) <= asked(
            turn_actions(events),
            TurnAction::Read,
        ),
        asked(turn_actions(events), TurnAction::Read) <= asked(
            turn_actions(events),
            TurnAction::Lock,
        ),
        holds_lock(turn_after(events)) <==> asked(turn_actions(events), TurnAction::Read) == 1
            && asked(turn_actions(events), TurnAction::Unlock) == 0,
        turn_after(events) is Finished ==> asked(turn_actions(events), TurnAction::Unlock)
            == asked(turn_actions(events), TurnAction::Read),
        turn_after(events) is Opening ==> asked(turn_actions(events), TurnAction::Lock) == 0,
        turn_after(events) is Locking ==> asked(turn_actions(events), TurnAction::Lock) == 1
            && asked(turn_actions(events), TurnAction::Read) == 0,
        turn_after(events) is Releasing ==> asked(turn_actions(events), TurnAction::Unlock) == 1,
    decreases events.len(),
{
    if events.len() > 0 {
        law_lock_is_given_back(events.drop_last());
        assert(turn_actions(events).drop_last() =~= turn_actions(events.drop_last()));
    }
}

/// No id is made up. A turn gives out an id only as its last step, and only
/// after it has asked for one more than that id to be written back and for the
/// file to be cut to the length of a counter, in this order.
pub proof fn law_id_only_after_write(events: Seq<TurnEvent>, k: int)
    requires
        0 <= k < events.len(),
        turn_actions(events)[k] is Return,
    ensures
        turn_after(events.take(k + 1)) == (TurnState::Finished {
            outcome: Some(turn_actions(events)[k]->id),
        }),
        exists|i: int, j: int|
            0 <= i < j < k && turn_actions(events)[i] == (TurnAction::Write {
                value: (turn_actions(events)[k]->id + 1) as u64,
            }) && turn_actions(events)[j] == TurnAction::Truncate,
{
    lemma_turn_history(events.take(k + 1));
    lemma_turn_prefix(events, k + 1);
    let prefix = turn_actions(events.take(k + 1));
    let id = turn_actions(events)[k]->id;
    assert(prefix[k] == turn_actions(events)[k]);
    assert(events.take(k + 1).drop_last() =~= events.take(k));
    lemma_turn_history(events.take(k));
    lemma_turn_prefix(events, k);
    let (i, j) = choose|i: int, j: int|
        0 <= i < j < k && turn_actions(events.take(k))[i] == (TurnAction::Write {
            value: (id + 1) as u64,
        }) && turn_actions(events.take(k))[j] == TurnAction::Truncate;
    assert(turn_actions(events)[i] == turn_actions(events.take(k))[i]);
    assert(turn_actions(events)[j] == turn_actions(events.take(k))[j]);
}

/// One action per event, and the actions of a shorter history are the first
/// actions of a longer one.
proof fn lemma_turn_prefix(events: Seq<TurnEvent>, n: int)
    requires
        0 <= n <= events.len(),
    ensures
        turn_actions(events).len() == events.len(),
        turn_actions(events.take(n)) == turn_actions(events).take(n),
    decreases events.len(),
{
    if events.len() > 0 {
        lemma_turn_prefix(events.drop_last(), 0);
        if n == events.len() {
            assert(events.take(n) =~= events);
            assert(turn_actions(events).take(n) =~= turn_actions(events));
        } else {
            lemma_turn_prefix(events.drop_last(), n);
            assert(events.drop_last().take(n) =~= events.take(n));
            assert(turn_actions(events).take(n) =~= turn_actions(events.drop_last()).take(n));
        }
    } else {
        assert(events.take(n) =~= events);
        assert(turn_actions(events).take(n) =~= turn_actions(events));
    }
}

/// What a turn has asked for when it stands in a state that carries an id:
/// the write of the next counter, and the cut once the write is done.
proof fn lemma_turn_history(events: Seq<TurnEvent>)
    ensures
        turn_actions(events).len() == events.len(),
        turn_after(events) matches TurnState::Writing { id } ==> id < u64::MAX && exists|i: int|
            0 <= i < events.len() && turn_actions(events)[i] == (TurnAction::Write {
                value: (id + 1) as u64,
            }),
        turn_after(events) matches TurnState::Truncating { id } ==> id < u64::MAX && exists|
            i: int,
            j: int,
        |
            0 <= i < j < events.len() && turn_actions(events)[i] == (TurnAction::Write {
                value: (id + 1) as u64,
            }) && turn_actions(events)[j] == TurnAction::Truncate,
        turn_after(events) matches TurnState::Releasing { outcome: Some(id) } ==> id < u64::MAX
            && exists|i: int, j: int|
            0 <= i < j < events.len() && turn_actions(events)[i] == (TurnAction::Write {
                value: (id + 1) as u64,
            }) && turn_actions(events)[j] == TurnAction::Truncate,
        turn_after(events) matches TurnState::Finished { outcome: Some(id) } ==> id < u64::MAX
            && exists|i: int, j: int|
            0 <= i < j < events.len() - 1 && turn_actions(events)[i] == (TurnAction::Write {
                value: (id + 1) as u64,
            }) && turn_actions(events)[j] == TurnAction::Truncate,
    decreases events.len(),
{
    if events.len() > 0 {
        let before = events.drop_last();
        lemma_turn_history(before);
        let old_actions = turn_actions(before);
        let actions = turn_actions(events);
        let n = before.len() as int;
        assert(actions.drop_last() =~= old_actions);
        assert forall|i: int| 0 <= i < n implies actions[i] == old_actions[i] by {
            assert(actions.drop_last()[i] == actions[i]);
        }
        match turn_after(events) {
            TurnState::Writing { id } => {
                if turn_after(before) is Reading {
                    assert(actions[n] == (TurnAction::Write { value: (id + 1) as u64 }));
                } else {
                    let i = choose|i: int|
                        0 <= i < n && old_actions[i] == (TurnAction::Write {
                            value: (id + 1) as u64,
                        });
                    assert(actions[i] == old_actions[i]);
                }
            },
            TurnState::Truncating { id } => {
                if turn_after(before) is Writing {
                    let i = choose|i: int|
                        0 <= i < n && old_actions[i] == (TurnAction::Write {
                            value: (id + 1) as u64,
                        });
                    assert(actions[i] == old_actions[i]);
                    assert(actions[n] == TurnAction::Truncate);
                } else {
                    let (i, j) = choose|i: int, j: int|
                        0 <= i < j < n && old_actions[i] == (TurnAction::Write {
                            value: (id + 1) as u64,
                        }) && old_actions[j] == TurnAction::Truncate;
                    assert(actions[i] == old_actions[i]);
                    assert(actions[j] == old_actions[j]);
                }
            },
            TurnState::Releasing { outcome: Some(id) } => {
                let (i, j) = choose|i: int, j: int|
                    0 <= i < j < n && old_actions[i] == (TurnAction::Write {
                        value: (id + 1) as u64,
                    }) && old_actions[j] == TurnAction::Truncate;
                assert(actions[i] == old_actions[i]);
                assert(actions[j] == old_actions[j]);
            },
            TurnState::Finished { outcome: Some(id) } => {
                if turn_after(before) is Releasing {
                    let (i, j) = choose|i: int, j: int|
                        0 <= i < j < n && old_actions[i] == (TurnAction::Write {
                            value: (id + 1) as u64,
                        }) && old_actions[j] == TurnAction::Truncate;
                    assert(actions[i] == old_actions[i]);
                    assert(actions[j] == old_actions[j]);
                } else {
                    let (i, j) = choose|i: int, j: int|
                        0 <= i < j < n - 1 && old_actions[i] == (TurnAction::Write {
                            value: (id + 1) as u64,
                        }) && old_actions[j] == TurnAction::Truncate;
                    assert(actions[i] == old_actions[i]);
                    assert(actions[j] == old_actions[j]);
                }
            },
            _ => {},
        }
    }
}

} // verus!
