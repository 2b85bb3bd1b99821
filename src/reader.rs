//! Decisions of the background reader: after each bounded-timeout read it
//! either forwards exactly the bytes read, polls again, or stops for good.
use vstd::prelude::*;

verus! {

/// Size of the buffer the reader reads into.
pub const READ_BUFFER_LEN: usize = 1024;

/// Read timeout of an open port, in milliseconds.
pub const READ_TIMEOUT_MS: u64 = 100;

/// What one read on the port gave.
#[derive(Debug, Clone, Copy, PartialEq, Eq, Structural)]
pub enum ReadResult {
    /// The read returned this many bytes, at the front of the buffer; zero
    /// means the port reported end of data.
    Data(usize),
    /// The read timed out with nothing to read.
    TimedOut,
    /// The read failed with any other error.
    Failed,
}

/// What the reader does next.
#[derive(Debug, Clone, PartialEq, Eq)]
pub enum ReaderStep {
    /// Send this chunk to the listener, then read again.
    Emit(Vec<u8>),
    /// Nothing to send; read again.
    Idle,
    /// Leave the loop; nothing more is sent for this connection.
    Stop,
}

/// The step's view: what would be sent, if anything, and whether the loop
/// goes on.
pub enum StepView {
    Emit(Seq<u8>),
    Idle,
    Stop,
}

impl View for ReaderStep {
    type V = StepView;

    open spec fn view(&self) -> StepView {
        match self {
            ReaderStep::Emit(v) => StepView::Emit(v@),
            ReaderStep::Idle => StepView::Idle,
            ReaderStep::Stop => StepView::Stop,
        }
    }
}

/// A read result fits a buffer when it claims no more bytes than it holds.
pub open spec fn fits(buffer: Seq<u8>, result: ReadResult) -> bool {
    match result {
        ReadResult::Data(n) => n <= buffer.len(),
        _ => true,
    }
}

/// The reader's decision after a read into `buffer` gave `result`.
pub open spec fn step_of(buffer: Seq<u8>, result: ReadResult) -> StepView {
    match result {
        ReadResult::Data(n) => if n > 0 {
            StepView::Emit(buffer.take(n as int))
        } else {
            StepView::Stop
        },
        ReadResult::TimedOut => StepView::Idle,
        ReadResult::Failed => StepView::Stop,
    }
}

/// Whether the reader should poll the port again, given the stop flag as it
/// reads it now.
pub fn keep_polling(running: bool) -> (r: bool)
    ensures
        r == running,
{
    running
}

/// Decides what follows a read into `buffer` that gave `result`: a
/// non-empty read is sent as exactly the bytes read, a timeout is passed
/// over, and end of data or any other error ends the loop.
pub fn on_read(buffer: &[u8], result: ReadResult) -> (r: ReaderStep)
    requires
        fits(buffer@, result),
    ensures
        r@ == step_of(buffer@, result),
{
    match result {
        ReadResult::Data(n) => {
            if n > 0 {
                let mut chunk: Vec<u8> = Vec::with_capacity(n);
                let mut i: usize = 0;
                while i < n
                    invariant
                        n <= buffer@.len(),
                        i <= n,
                        chunk@ == buffer@.take(i as int),
                    decreases n - i,
                {
                    chunk.push(buffer[i]);
                    i = i + 1;
                    assert(chunk@ =~= buffer@.take(i as int));
                }
                ReaderStep::Emit(chunk)
            } else {
                ReaderStep::Stop
            }
        },
        ReadResult::TimedOut => ReaderStep::Idle,
        ReadResult::Failed => ReaderStep::Stop,
    }
}

/// One turn of the reader loop: the stop flag as it was read, and, when it
/// was set, the read that followed (into `buffer`, giving `result`).
#[derive(Debug, Clone)]
pub struct Poll {
    pub running: bool,
    pub buffer: Vec<u8>,
    pub result: ReadResult,
}

/// Whether the loop leaves at this turn.
pub open spec fn ends_at(p: Poll) -> bool {
    !p.running || step_of(p.buffer@, p.result) is Stop
}

/// Every turn's read fits its buffer.
pub open spec fn all_fit(polls: Seq<Poll>) -> bool {
    forall|i: int| 0 <= i < polls.len() ==> fits(#[trigger] polls[i].buffer@, polls[i].result)
}

/// The chunks the reader sends, in order, over the turns `polls`: each turn
/// with the flag set sends what its read gave, until a turn that ends the
/// loop.
pub open spec fn emitted(polls: Seq<Poll>) -> Seq<Seq<u8>>
    decreases polls.len(),
{
    if polls.len() == 0 {
        seq![]
    } else {
        let p = polls[0];
        if !p.running {
            seq![]
        } else {
            match step_of(p.buffer@, p.result) {
                StepView::Emit(c) => seq![c] + emitted(polls.drop_first()),
                StepView::Idle => emitted(polls.drop_first()),
                StepView::Stop => seq![],
            }
        }
    }
}

/// The byte sequences of a list of chunks.
pub open spec fn chunks_of(v: Seq<Vec<u8>>) -> Seq<Seq<u8>> {
    v.map_values(|c: Vec<u8>| c@)
}

/// Runs the reader loop over the turns `polls` and returns the chunks it
/// sends, in order.
pub fn run_reader(polls: &Vec<Poll>) -> (r: Vec<Vec<u8>>)
    requires
        all_fit(polls@),
    ensures
        chunks_of(r@) == emitted(polls@),
{
    let mut out: Vec<Vec<u8>> = Vec::new();
    let mut i: usize = 0;
    assert(polls@.skip(0) =~= polls@);
    assert(chunks_of(out@) =~= Seq::<Seq<u8>>::empty());
    while i < polls.len()
        invariant
            i <= polls@.len(),
            all_fit(polls@),
            chunks_of(out@) + emitted(polls@.skip(i as int)) == emitted(polls@),
        decreases polls.len() - i,
    {
        let ghost rest = polls@.skip(i as int);
        assert(rest[0] == polls@[i as int]);
        assert(rest.drop_first() =~= polls@.skip(i + 1));
        let p = &polls[i];
        if !keep_polling(p.running) {
            assert(chunks_of(out@) =~= chunks_of(out@) + Seq::<Seq<u8>>::empty());
            return out;
        }
        assert(fits(polls@[i as int].buffer@, polls@[i as int].result));
        match on_read(p.buffer.as_slice(), p.result) {
            ReaderStep::Emit(chunk) => {
                let ghost before = chunks_of(out@);
                out.push(chunk);
                assert(chunks_of(out@) =~= before.push(chunk@));
                assert(before + emitted(rest) =~= chunks_of(out@) + emitted(
                    polls@.skip(i + 1),
                ));
            },
            ReaderStep::Idle => {},
            ReaderStep::Stop => {
                assert(chunks_of(out@) =~= chunks_of(out@) + Seq::<Seq<u8>>::empty());
                return out;
            },
        }
        i = i + 1;
    }
    assert(polls@.skip(i as int) =~= Seq::<Poll>::empty());
    assert(chunks_of(out@) =~= chunks_of(out@) + Seq::<Seq<u8>>::empty());
    out
}

/// A turn whose read gave bytes sends exactly those bytes as one chunk of
/// its own: nothing is merged with a later chunk, nothing is split.
pub proof fn lemma_one_read_one_chunk(p: Poll, rest: Seq<Poll>)
    requires
        p.running,
        p.result matches ReadResult::Data(n) && 0 < n <= p.buffer@.len(),
    ensures
        emitted(seq![p] + rest) == seq![p.buffer@.take(p.result->Data_0 as int)] + emitted(rest),
{
    assert((seq![p] + rest)[0] == p);
    assert((seq![p] + rest).drop_first() =~= rest);
}

/// Once a turn ends the loop (the flag was found cleared, or the read hit
/// end of data or an error), nothing is sent at that turn or after it.
pub proof fn lemma_nothing_after_end(pre: Seq<Poll>, p: Poll, rest: Seq<Poll>)
    requires
        ends_at(p),
    ensures
        emitted(pre + seq![p] + rest) == emitted(pre),
    decreases pre.len(),
{
    let all = pre + seq![p] + rest;
    if pre.len() == 0 {
        assert(all[0] == p);
        assert(emitted(pre) == Seq::<Seq<u8>>::empty());
    } else {
        assert(all[0] == pre[0]);
        assert(all.drop_first() =~= pre.drop_first() + seq![p] + rest);
        lemma_nothing_after_end(pre.drop_first(), p, rest);
    }
}

/// A read that fails with an error other than a timeout ends the loop.
pub proof fn lemma_failure_ends(p: Poll)
    requires
        p.result == ReadResult::Failed,
    ensures
        ends_at(p),
{
}

} // verus!
