//! Decisions of the batch writer: when a batch of events is written, and
//! how a failed write is retried.

use vstd::prelude::*;

verus! {

/// Events collected until a batch is full, a tick comes, or the channel
/// closes.
pub struct BatchBuffer<T> {
    batch_size: usize,
    buffer: Vec<T>,
}

/// What reaches the batch writer.
pub enum WriterInput<T> {
    /// An event came through the channel.
    Received(T),
    /// The channel closed: no event will come any more.
    ChannelClosed,
    /// The flush interval elapsed.
    Tick,
}

/// What the batch writer does next.
pub enum WriterAction<T> {
    /// Nothing to write: wait for the next input.
    Wait,
    /// Write these events, then wait for the next input.
    Flush(Vec<T>),
    /// Write these events, then stop.
    FlushAndStop(Vec<T>),
}

/// The abstract state of the writer after an input: the events it holds,
/// the batch it writes (if any), and whether it stops.
pub struct StepResult<T> {
    pub held: Seq<T>,
    pub flushed: Option<Seq<T>>,
    pub stops: bool,
}

/// The largest number of events a writer with this batch size holds between
/// inputs, plus one.
pub open spec fn hold_limit(batch_size: nat) -> nat {
    if batch_size == 0 {
        1
    } else {
        batch_size
    }
}

/// How the writer with `held` events and the given batch size answers an
/// input: an event is added and the whole buffer flushed once it reaches the
/// batch size; a tick flushes a non-empty buffer; a closed channel flushes
/// what is left (possibly nothing) and stops.
pub open spec fn writer_step<T>(held: Seq<T>, batch_size: nat, input: WriterInput<T>) -> StepResult<T> {
    match input {
        WriterInput::Received(e) => {
            let next = held.push(e);
            if next.len() >= batch_size {
                StepResult { held: Seq::empty(), flushed: Some(next), stops: false }
            } else {
                StepResult { held: next, flushed: None, stops: false }
            }
        },
        WriterInput::ChannelClosed => StepResult {
            held: Seq::empty(),
            flushed: Some(held),
            stops: true,
        },
        WriterInput::Tick => if held.len() == 0 {
            StepResult { held: held, flushed: None, stops: false }
        } else {
            StepResult { held: Seq::empty(), flushed: Some(held), stops: false }
        },
    }
}

impl<T> View for BatchBuffer<T> {
    type V = Seq<T>;

    closed spec fn view(&self) -> Seq<T> {
        self.buffer@
    }
}

impl<T> BatchBuffer<T> {
    /// The batch size the buffer was made with.
    pub closed spec fn spec_batch_size(&self) -> nat {
        self.batch_size as nat
    }

    /// The buffer holds fewer events than a full batch.
    pub closed spec fn wf(&self) -> bool {
        self.buffer@.len() < hold_limit(self.batch_size as nat)
    }

    /// An empty buffer for batches of `batch_size` events.
    pub fn new(batch_size: usize) -> (b: Self)
        ensures
            b@ == Seq::<T>::empty(),
            b.spec_batch_size() == batch_size,
            b.wf(),
    {
        BatchBuffer { batch_size, buffer: Vec::new() }
    }

    /// The batch size the buffer was made with.
    pub fn batch_size(&self) -> (n: usize)
        ensures
            n == self.spec_batch_size(),
    {
        self.batch_size
    }

    /// The number of events held.
    pub fn len(&self) -> (n: usize)
        ensures
            n == self@.len(),
    {
        self.buffer.len()
    }

    fn take_all(&mut self) -> (out: Vec<T>)
        ensures
            out@ == old(self)@,
            final(self)@ == Seq::<T>::empty(),
            final(self).batch_size == old(self).batch_size,
    {
        let mut out: Vec<T> = Vec::new();
        std::mem::swap(&mut out, &mut self.buffer);
        out
    }

    /// Answers one input, as [`writer_step`] says.
    pub fn step(&mut self, input: WriterInput<T>) -> (action: WriterAction<T>)
        requires
            old(self).wf(),
        ensures
            final(self).wf(),
            final(self)@.len() < hold_limit(final(self).spec_batch_size()),
            final(self).spec_batch_size() == old(self).spec_batch_size(),
            ({
                let r = writer_step(old(self)@, old(self).spec_batch_size(), input);
                &&& final(self)@ == r.held
                &&& match action {
                    WriterAction::Wait => r.flushed is None && !r.stops,
                    WriterAction::Flush(b) => r.flushed == Some(b@) && !r.stops,
                    WriterAction::FlushAndStop(b) => r.flushed == Some(b@) && r.stops,
                }
            }),
    {
        match input {
            WriterInput::Received(e) => {
                self.buffer.push(e);
                if self.buffer.len() >= self.batch_size {
                    WriterAction::Flush(self.take_all())
                } else {
                    WriterAction::Wait
                }
            },
            WriterInput::ChannelClosed => WriterAction::FlushAndStop(self.take_all()),
            WriterInput::Tick => {
                if self.buffer.len() == 0 {
                    WriterAction::Wait
                } else {
                    WriterAction::Flush(self.take_all())
                }
            },
        }
    }
}


/// The events of the inputs up to the first closing of the channel.
pub open spec fn received_events<T>(inputs: Seq<WriterInput<T>>) -> Seq<T>
    decreases inputs.len(),
{
    if inputs.len() == 0 {
        Seq::empty()
    } else {
        match inputs[0] {
            WriterInput::Received(e) => seq![e] + received_events(inputs.drop_first()),
            WriterInput::ChannelClosed => Seq::empty(),
            WriterInput::Tick => received_events(inputs.drop_first()),
        }
    }
}

/// The outcome of feeding `inputs` one after another to a writer holding
/// `held`, until it stops: the events it holds at the end, all the batches
/// it flushed joined in order, and whether it stopped.
pub open spec fn writer_run<T>(held: Seq<T>, batch_size: nat, inputs: Seq<WriterInput<T>>) -> (
    Seq<T>,
    Seq<T>,
    bool,
)
    decreases inputs.len(),
{
    if inputs.len() == 0 {
        (held, Seq::empty(), false)
    } else {
        let r = writer_step(held, batch_size, inputs[0]);
        let flushed = match r.flushed {
            Some(b) => b,
            None => Seq::empty(),
        };
        if r.stops {
            (r.held, flushed, true)
        } else {
            let rest = writer_run(r.held, batch_size, inputs.drop_first());
            (rest.0, flushed + rest.1, rest.2)
        }
    }
}

/// No event is lost, duplicated or reordered: over any run, the batches
/// written followed by the events still held are the events held at the
/// start followed by every event received before the channel closed. A
/// writer holds fewer events than a full batch between inputs, and holds none
/// once it has stopped.
pub proof fn lemma_writer_keeps_every_event<T>(
    held: Seq<T>,
    batch_size: nat,
    inputs: Seq<WriterInput<T>>,
)
    requires
        held.len() < hold_limit(batch_size),
    ensures
        ({
            let (h, f, stopped) = writer_run(held, batch_size, inputs);
            &&& f + h == held + received_events(inputs)
            &&& h.len() < hold_limit(batch_size)
            &&& stopped ==> h.len() == 0
        }),
    decreases inputs.len(),
{
    if inputs.len() > 0 {
        let r = writer_step(held, batch_size, inputs[0]);
        lemma_step_keeps_every_event(held, batch_size, inputs[0]);
        if !r.stops {
            lemma_writer_keeps_every_event(r.held, batch_size, inputs.drop_first());
            let rest = writer_run(r.held, batch_size, inputs.drop_first());
            let flushed = match r.flushed {
                Some(b) => b,
                None => Seq::<T>::empty(),
            };
            match inputs[0] {
                WriterInput::Received(e) => {
                    assert(flushed + rest.1 + rest.0 =~= held + (seq![e] + received_events(
                        inputs.drop_first(),
                    )));
                },
                WriterInput::ChannelClosed => {},
                WriterInput::Tick => {
                    assert(flushed + rest.1 + rest.0 =~= held + received_events(
                        inputs.drop_first(),
                    ));
                },
            }
        } else {
            assert(held + Seq::<T>::empty() =~= held);
        }
    } else {
        assert(Seq::<T>::empty() + held =~= held + Seq::<T>::empty());
    }
}

/// One input: what is flushed followed by what is held is what was held
/// followed by the event received, if any; a received event that fills the
/// buffer flushes a batch of exactly the batch size (one event for batch size
/// zero).
pub proof fn lemma_step_keeps_every_event<T>(held: Seq<T>, batch_size: nat, input: WriterInput<T>)
    requires
        held.len() < hold_limit(batch_size),
    ensures
        ({
            let r = writer_step(held, batch_size, input);
            let flushed = match r.flushed {
                Some(b) => b,
                None => Seq::empty(),
            };
            &&& flushed + r.held == match input {
                WriterInput::Received(e) => held.push(e),
                _ => held,
            }
            &&& r.held.len() < hold_limit(batch_size)
            &&& (input is Received && r.flushed is Some) ==> flushed.len() == hold_limit(batch_size)
            &&& r.stops <==> input is ChannelClosed
        }),
{
    let r = writer_step(held, batch_size, input);
    match input {
        WriterInput::Received(e) => {
            assert(held.push(e) + Seq::<T>::empty() =~= held.push(e));
            assert(Seq::<T>::empty() + held.push(e) =~= held.push(e));
        },
        _ => {
            assert(held + Seq::<T>::empty() =~= held);
            assert(Seq::<T>::empty() + held =~= held);
        },
    }
}


/// A tick on a writer that holds events flushes every one of them, in the
/// order they came, and leaves it empty; a tick on an empty writer does
/// nothing. Neither stops the writer.
pub proof fn lemma_tick_flushes_everything<T>(held: Seq<T>, batch_size: nat)
    ensures
        ({
            let r = writer_step(held, batch_size, WriterInput::Tick);
            &&& !r.stops
            &&& r.held.len() == 0
            &&& held.len() > 0 ==> r.flushed == Some(held)
            &&& held.len() == 0 ==> r.flushed is None
        }),
{
}

/// A closed channel flushes every held event, leaves the writer empty and
/// stops it.
pub proof fn lemma_close_flushes_everything<T>(held: Seq<T>, batch_size: nat)
    ensures
        ({
            let r = writer_step(held, batch_size, WriterInput::ChannelClosed);
            &&& r.stops
            &&& r.held.len() == 0
            &&& r.flushed == Some(held)
        }),
{
}

/// A received event is kept behind the held ones while the batch is not full;
/// once the held events and it reach the batch size, they are flushed
/// together, oldest first, and the writer is left empty.
pub proof fn lemma_event_fills_batch<T>(held: Seq<T>, batch_size: nat, e: T)
    ensures
        ({
            let r = writer_step(held, batch_size, WriterInput::Received(e));
            &&& !r.stops
            &&& held.len() + 1 >= batch_size ==> r.flushed == Some(held.push(e)) && r.held.len()
                == 0
            &&& held.len() + 1 < batch_size ==> r.flushed is None && r.held == held.push(e)
        }),
{
}

/// How many times a batch write is attempted before the batch is dropped.
pub const MAX_RETRIES: u32 = 3;

/// The pause, in milliseconds, after the failed write attempt `attempt`
/// (from 0): 100, 500, then 2000.
pub open spec fn backoff_for(attempt: nat) -> u64 {
    if attempt == 0 {
        100
    } else if attempt == 1 {
        500
    } else {
        2000
    }
}

/// The pause after the failed write attempt `attempt`.
pub fn backoff_ms(attempt: u32) -> (ms: u64)
    requires
        attempt < MAX_RETRIES,
    ensures
        ms == backoff_for(attempt as nat),
{
    if attempt == 0 {
        100
    } else if attempt == 1 {
        500
    } else {
        2000
    }
}

/// What follows one attempt to write a batch.
#[derive(Debug, Clone, Copy, PartialEq, Eq, Structural)]
pub enum FlushOutcome {
    /// The batch is stored; `retries` attempts failed before.
    Written { retries: u32 },
    /// Wait this long, then try again.
    RetryAfter { backoff_ms: u64 },
    /// The last attempt failed: the batch is dropped.
    Dropped,
}

/// The decision after write attempt `attempt` (from 0) succeeded or failed.
pub open spec fn flush_decision(attempt: nat, succeeded: bool) -> FlushOutcome {
    if succeeded {
        FlushOutcome::Written { retries: attempt as u32 }
    } else if attempt + 1 < MAX_RETRIES {
        FlushOutcome::RetryAfter { backoff_ms: backoff_for(attempt) }
    } else {
        FlushOutcome::Dropped
    }
}

/// Decides what follows write attempt `attempt` of a batch.
pub fn after_write_attempt(attempt: u32, succeeded: bool) -> (o: FlushOutcome)
    requires
        attempt < MAX_RETRIES,
    ensures
        o == flush_decision(attempt as nat, succeeded),
{
    if succeeded {
        FlushOutcome::Written { retries: attempt }
    } else if attempt + 1 < MAX_RETRIES {
        FlushOutcome::RetryAfter { backoff_ms: backoff_ms(attempt) }
    } else {
        FlushOutcome::Dropped
    }
}

/// Flushing a batch from attempt `attempt` on, when attempt `k` succeeds
/// exactly if `results[k]`: the number of attempts made, whether the batch
/// was written, and the milliseconds spent waiting between attempts.
pub open spec fn flush_from(results: Seq<bool>, attempt: nat) -> (nat, bool, nat)
    decreases MAX_RETRIES - attempt,
{
    if attempt >= MAX_RETRIES || attempt >= results.len() {
        (attempt, false, 0)
    } else {
        match flush_decision(attempt, results[attempt as int]) {
            FlushOutcome::Written { .. } => (attempt + 1, true, 0),
            FlushOutcome::RetryAfter { backoff_ms } => {
                let rest = flush_from(results, attempt + 1);
                (rest.0, rest.1, rest.2 + backoff_ms as nat)
            },
            FlushOutcome::Dropped => (attempt + 1, false, 0),
        }
    }
}

/// A batch is attempted at most `MAX_RETRIES` times; it is written exactly
/// when one of those attempts succeeds, after the first success; and the
/// waits between attempts add up to at most 600 ms (100 then 500).
pub proof fn lemma_flush_bounded(results: Seq<bool>)
    requires
        results.len() >= MAX_RETRIES,
    ensures
        ({
            let (attempts, written, waited) = flush_from(results, 0);
            &&& 1 <= attempts <= MAX_RETRIES
            &&& written <==> exists|k: int| 0 <= k < MAX_RETRIES && #[trigger] results[k]
            &&& written ==> results[attempts - 1] && forall|k: int|
                0 <= k < attempts - 1 ==> !#[trigger] results[k]
            &&& !written ==> attempts == MAX_RETRIES
            &&& waited <= 600
        }),
{
    reveal_with_fuel(flush_from, 4);
    if results[0] {
    } else if results[1] {
    } else if results[2] {
    } else {
        assert forall|k: int| 0 <= k < MAX_RETRIES implies !#[trigger] results[k] by {
            if k == 0 {
            } else if k == 1 {
            } else {
                assert(k == 2);
            }
        }
    }
}

} // verus!
