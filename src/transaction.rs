//! A transaction: the writes of one display operation, handed out one at a time.
use vstd::prelude::*;

use crate::error::Error;

verus! {

/// Model of a transaction: the device address, its frames, how many were handed out, and
/// whether it has finished.
pub struct TransactionState {
    pub address: u8,
    pub frames: Seq<Seq<u8>>,
    pub sent: nat,
    pub finished: bool,
}

/// Model of what a transaction asks for next: a write of a frame to an address, or the end,
/// successful or not.
pub enum Move {
    Write(u8, Seq<u8>),
    Finish(bool),
}

/// A transaction that has written nothing yet.
pub open spec fn fresh(address: u8, frames: Seq<Seq<u8>>) -> TransactionState {
    TransactionState { address, frames, sent: 0, finished: false }
}

/// The frames' contents.
pub open spec fn frames_view(frames: Seq<Vec<u8>>) -> Seq<Seq<u8>> {
    frames.map_values(|f: Vec<u8>| f@)
}

/// One transition. `last` is the outcome of the previous write (`None` before the first):
/// a failure ends the transaction at once; otherwise the next frame is written, or the
/// transaction ends successfully when none is left.
pub open spec fn next(s: TransactionState, last: Option<bool>) -> (TransactionState, Move) {
    if last == Some(false) {
        (TransactionState { finished: true, ..s }, Move::Finish(false))
    } else if s.sent < s.frames.len() {
        (TransactionState { sent: s.sent + 1, ..s }, Move::Write(s.address, s.frames[s.sent as int]))
    } else {
        (TransactionState { finished: true, ..s }, Move::Finish(true))
    }
}

/// The writes a transaction makes from state `s`, when the previous write ended as `last` and
/// the transport answers the following writes with `outcomes`, in order; with the end result,
/// or `None` while a write is still unanswered.
pub open spec fn run(s: TransactionState, last: Option<bool>, outcomes: Seq<bool>) -> (
    Seq<Seq<u8>>,
    Option<bool>,
)
    decreases outcomes.len(),
{
    let (s2, m) = next(s, last);
    match m {
        Move::Finish(ok) => (seq![], Some(ok)),
        Move::Write(_, f) => {
            if outcomes.len() == 0 {
                (seq![f], None)
            } else {
                let (w, r) = run(s2, Some(outcomes[0]), outcomes.drop_first());
                (seq![f] + w, r)
            }
        },
    }
}

/// From a state that has handed out `s.sent` frames and heard no failure, a transport that
/// fails the write `k` places further, after accepting the ones before it, sees exactly those
/// `k + 1` writes, and the transaction ends in failure.
proof fn lemma_run_until_failure(s: TransactionState, last: Option<bool>, outcomes: Seq<bool>, k: nat)
    requires
        last != Some(false),
        s.sent + k < s.frames.len(),
        k < outcomes.len(),
        forall|i: int| 0 <= i < k ==> outcomes[i],
        !outcomes[k as int],
    ensures
        run(s, last, outcomes) == (
            s.frames.subrange(s.sent as int, (s.sent + k + 1) as int),
            Some(false),
        ),
    decreases k,
{
    let (s2, m) = next(s, last);
    let tail = outcomes.drop_first();
    if k == 0 {
        assert(next(s2, Some(outcomes[0])).1 == Move::Finish(false));
        assert(run(s2, Some(outcomes[0]), tail) == (Seq::<Seq<u8>>::empty(), Some(false)));
        assert(seq![s.frames[s.sent as int]] =~= s.frames.subrange(s.sent as int, (s.sent + 1) as int));
    } else {
        assert(outcomes[0]);
        assert forall|i: int| 0 <= i < k - 1 implies tail[i] by {
            assert(outcomes[i + 1]);
        }
        lemma_run_until_failure(s2, Some(outcomes[0]), tail, (k - 1) as nat);
        assert(seq![s.frames[s.sent as int]] + s2.frames.subrange(s2.sent as int, (s2.sent + k) as int)
            =~= s.frames.subrange(s.sent as int, (s.sent + k + 1) as int));
    }
}

/// From a state that has heard no failure, a transport that accepts every write sees each
/// remaining frame written once, in order, and the transaction ends successfully.
proof fn lemma_run_to_success(s: TransactionState, last: Option<bool>, outcomes: Seq<bool>)
    requires
        last != Some(false),
        s.sent <= s.frames.len(),
        outcomes.len() >= s.frames.len() - s.sent,
        forall|i: int| 0 <= i < outcomes.len() ==> outcomes[i],
    ensures
        run(s, last, outcomes) == (s.frames.subrange(s.sent as int, s.frames.len() as int), Some(true)),
    decreases s.frames.len() - s.sent,
{
    let (s2, m) = next(s, last);
    if s.sent < s.frames.len() {
        let tail = outcomes.drop_first();
        assert(outcomes[0]);
        lemma_run_to_success(s2, Some(outcomes[0]), tail);
        assert(seq![s.frames[s.sent as int]] + s2.frames.subrange(
            s2.sent as int,
            s2.frames.len() as int,
        ) =~= s.frames.subrange(s.sent as int, s.frames.len() as int));
    } else {
        assert(s.frames.subrange(s.sent as int, s.frames.len() as int) =~= seq![]);
    }
}

/// A transaction aborts at the first transport failure: when the transport accepts the
/// first `k` writes and fails write `k`, exactly the first `k + 1` frames are written and
/// the transaction ends in failure.
pub proof fn lemma_abort_at_first_failure(
    address: u8,
    frames: Seq<Seq<u8>>,
    outcomes: Seq<bool>,
    k: nat,
)
    requires
        k < frames.len(),
        k < outcomes.len(),
        forall|i: int| 0 <= i < k ==> outcomes[i],
        !outcomes[k as int],
    ensures
        run(fresh(address, frames), None, outcomes) == (frames.take((k + 1) as int), Some(false)),
{
    lemma_run_until_failure(fresh(address, frames), None, outcomes, k);
    assert(frames.subrange(0, (k + 1) as int) =~= frames.take((k + 1) as int));
}

/// A transport that accepts every write sees every frame of a transaction written once, in
/// order, and the transaction ends successfully.
pub proof fn lemma_all_frames_written(address: u8, frames: Seq<Seq<u8>>, outcomes: Seq<bool>)
    requires
        outcomes.len() >= frames.len(),
        forall|i: int| 0 <= i < outcomes.len() ==> outcomes[i],
    ensures
        run(fresh(address, frames), None, outcomes) == (frames, Some(true)),
{
    lemma_run_to_success(fresh(address, frames), None, outcomes);
    assert(frames.subrange(0, frames.len() as int) =~= frames);
}

/// What the caller does next: write a payload to an address, then call `step` with the
/// outcome; or stop, with the result of the whole operation.
pub enum Action<E> {
    Write(u8, Vec<u8>),
    Done(Result<(), Error<E>>),
}

/// The outcome of a write, as the model sees it.
pub open spec fn outcome_ok<E>(outcome: Option<Result<(), E>>) -> Option<bool> {
    match outcome {
        None => None,
        Some(r) => Some(r is Ok),
    }
}

/// An action, as the model sees it.
pub open spec fn action_move<E>(a: Action<E>) -> Move {
    match a {
        Action::Write(address, payload) => Move::Write(address, payload@),
        Action::Done(r) => Move::Finish(r is Ok),
    }
}

/// The sequence of writes that carries out one display operation.
pub struct Transaction {
    address: u8,
    frames: Vec<Vec<u8>>,
    sent: usize,
    finished: bool,
}

impl View for Transaction {
    type V = TransactionState;

    closed spec fn view(&self) -> TransactionState {
        TransactionState {
            address: self.address,
            frames: frames_view(self.frames@),
            sent: self.sent as nat,
            finished: self.finished,
        }
    }
}

impl Transaction {
    /// A transaction that writes `frames` to `address`, in order.
    pub fn new(address: u8, frames: Vec<Vec<u8>>) -> (t: Self)
        ensures
            t@ == fresh(address, frames_view(frames@)),
    {
        Transaction { address, frames, sent: 0, finished: false }
    }

    /// Device address the frames go to.
    pub fn address(&self) -> (r: u8)
        ensures
            r == self@.address,
    {
        self.address
    }

    /// Number of frames.
    pub fn len(&self) -> (r: usize)
        ensures
            r == self@.frames.len(),
    {
        self.frames.len()
    }

    /// The frame at `index`.
    pub fn frame(&self, index: usize) -> (r: Vec<u8>)
        requires
            index < self@.frames.len(),
        ensures
            r@ == self@.frames[index as int],
    {
        self.frames[index].clone()
    }

    /// Whether the transaction has ended.
    pub fn is_finished(&self) -> (r: bool)
        ensures
            r == self@.finished,
    {
        self.finished
    }

    /// Takes the outcome of the previous write (`None` before the first) and says what to do
    /// next. The first failure ends the transaction with that transport error.
    pub fn step<E>(&mut self, outcome: Option<Result<(), E>>) -> (a: Action<E>)
        requires
            !old(self)@.finished,
        ensures
            (final(self)@, action_move(a)) == next(old(self)@, outcome_ok(outcome)),
            outcome matches Some(Err(e)) ==> a == Action::<E>::Done(Err(Error::I2C(e))),
    {
        match outcome {
            Some(Err(e)) => {
                self.finished = true;
                Action::Done(Err(Error::I2C(e)))
            },
            _ => {
                if self.sent < self.frames.len() {
                    let payload = self.frames[self.sent].clone();
                    self.sent = self.sent + 1;
                    Action::Write(self.address, payload)
                } else {
                    self.finished = true;
                    Action::Done(Ok(()))
                }
            },
        }
    }
}

} // verus!
