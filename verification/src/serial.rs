//! Reassembly of serial records and the pacing of their processing.
//!
//! The device sends one record per line. Bytes arrive in chunks of any size;
//! the reader joins them and cuts them at line feeds. The most recent
//! complete line waits. A newer line takes its place; a line that no newer
//! line has replaced for the debounce interval is handed out at the next
//! poll. So of a burst of lines only the last is handed out, and lines are
//! never queued up.
//!
//! Times are milliseconds on a clock that never runs backwards.

use crate::repeat::{elapsed, elapsed_ms};
use vstd::prelude::*;

verus! {

/// How long a line waits for a newer one before it is handed out, in
/// milliseconds.
pub const LINE_DEBOUNCE_MS: u64 = 50;

/// The byte that ends a record.
pub const LINE_FEED: u8 = 10;

/// The position of the last line feed in `bytes`, or `-1` if there is none.
pub open spec fn last_line_feed(bytes: Seq<u8>) -> int
    decreases bytes.len(),
{
    if bytes.len() == 0 {
        -1
    } else if bytes.last() == LINE_FEED {
        bytes.len() - 1
    } else {
        last_line_feed(bytes.drop_last())
    }
}

/// The bytes after the last line feed: the start of a line that is not yet
/// complete.
pub open spec fn unfinished(bytes: Seq<u8>) -> Seq<u8> {
    bytes.subrange(last_line_feed(bytes) + 1, bytes.len() as int)
}

/// The most recent complete line in `bytes`, without its line feed, if
/// there is a complete line at all.
pub open spec fn latest_line(bytes: Seq<u8>) -> Option<Seq<u8>> {
    let end = last_line_feed(bytes);
    if end < 0 {
        None
    } else {
        Some(bytes.subrange(last_line_feed(bytes.take(end)) + 1, end))
    }
}

/// `last_line_feed` gives a position of a line feed with none after it.
pub proof fn lemma_last_line_feed(bytes: Seq<u8>)
    ensures
        -1 <= last_line_feed(bytes) < bytes.len(),
        last_line_feed(bytes) >= 0 ==> bytes[last_line_feed(bytes)] == LINE_FEED,
        forall|i: int| last_line_feed(bytes) < i < bytes.len() ==> bytes[i] != LINE_FEED,
    decreases bytes.len(),
{
    if bytes.len() > 0 && bytes.last() != LINE_FEED {
        lemma_last_line_feed(bytes.drop_last());
        assert forall|i: int| last_line_feed(bytes) < i < bytes.len() implies bytes[i]
            != LINE_FEED by {
            if i < bytes.len() - 1 {
                assert(bytes.drop_last()[i] == bytes[i]);
            }
        }
    }
}

/// A position that holds a line feed with none after it is the one that
/// `last_line_feed` gives.
pub proof fn lemma_last_line_feed_is(bytes: Seq<u8>, at: int)
    requires
        -1 <= at < bytes.len(),
        at >= 0 ==> bytes[at] == LINE_FEED,
        forall|i: int| at < i < bytes.len() ==> bytes[i] != LINE_FEED,
    ensures
        last_line_feed(bytes) == at,
{
    lemma_last_line_feed(bytes);
}

/// The last line feed of two byte strings joined is that of the second, if
/// it has one, and else that of the first.
pub proof fn lemma_last_line_feed_of_joined(a: Seq<u8>, b: Seq<u8>)
    ensures
        last_line_feed(a + b) == if last_line_feed(b) >= 0 {
            a.len() + last_line_feed(b)
        } else {
            last_line_feed(a)
        },
{
    lemma_last_line_feed(a);
    lemma_last_line_feed(b);
    let joined = a + b;
    if last_line_feed(b) >= 0 {
        let at = a.len() + last_line_feed(b);
        lemma_last_line_feed_is(joined, at);
    } else {
        let at = last_line_feed(a);
        lemma_last_line_feed_is(joined, at);
    }
}

/// Receiving `a` and then `b` leaves the same unfinished line, and the same
/// latest complete line, as receiving `a + b` at once.
pub proof fn lemma_joined_chunks(a: Seq<u8>, b: Seq<u8>)
    ensures
        unfinished(unfinished(a) + b) == unfinished(a + b),
        latest_line(a + b) == match latest_line(unfinished(a) + b) {
            Some(line) => Some(line),
            None => latest_line(a),
        },
{
    let u = unfinished(a);
    let cut = last_line_feed(a);
    let end = last_line_feed(b);
    lemma_last_line_feed(a);
    lemma_last_line_feed(b);
    lemma_last_line_feed(u);
    assert(last_line_feed(u) == -1) by {
        if last_line_feed(u) >= 0 {
            assert(u[last_line_feed(u)] == a[cut + 1 + last_line_feed(u)]);
        }
    }
    lemma_last_line_feed_of_joined(a, b);
    lemma_last_line_feed_of_joined(u, b);
    if end >= 0 {
        let head = b.take(end);
        lemma_last_line_feed(head);
        lemma_last_line_feed_of_joined(a, head);
        lemma_last_line_feed_of_joined(u, head);
        assert((a + b).take(a.len() + end) =~= a + head);
        assert((u + b).take(u.len() + end) =~= u + head);
        assert(unfinished(u + b) =~= unfinished(a + b));
        if last_line_feed(head) >= 0 {
            assert((a + b).subrange(a.len() + last_line_feed(head) + 1, a.len() + end) =~= (u
                + b).subrange(u.len() + last_line_feed(head) + 1, u.len() + end));
        } else {
            assert((a + b).subrange(cut + 1, a.len() + end) =~= (u + b).subrange(
                0,
                u.len() + end,
            ));
        }
    } else {
        assert(unfinished(u + b) =~= unfinished(a + b));
        if cut >= 0 {
            assert((a + b).take(cut) =~= a.take(cut));
            assert((a + b).subrange(last_line_feed(a.take(cut)) + 1, cut) =~= a.subrange(
                last_line_feed(a.take(cut)) + 1,
                cut,
            )) by {
                lemma_last_line_feed(a.take(cut));
            }
        }
    }
}

/// Whatever came before, once a line has arrived in full after a line feed
/// it is the latest complete line and nothing is left unfinished.
pub proof fn lemma_line_after_line_feed(earlier: Seq<u8>, line: Seq<u8>)
    requires
        forall|i: int| 0 <= i < line.len() ==> line[i] != LINE_FEED,
    ensures
        latest_line(earlier.push(LINE_FEED) + line.push(LINE_FEED)) == Some(line),
        unfinished(earlier.push(LINE_FEED) + line.push(LINE_FEED)) == Seq::<u8>::empty(),
{
    let a = earlier.push(LINE_FEED);
    let b = line.push(LINE_FEED);
    let all = a + b;
    let end = all.len() - 1;
    lemma_last_line_feed_is(all, end);
    let head = all.take(end);
    lemma_last_line_feed_is(head, a.len() - 1);
}

/// A complete line that waits to be handed out.
pub struct Waiting {
    /// The line, without its line feed.
    pub line: Seq<u8>,
    /// When the line was completed.
    pub since: u64,
}

/// What the reader holds.
pub struct ReaderState {
    /// The bytes received since the last line feed.
    pub buffer: Seq<u8>,
    /// The most recent complete line, if it has not been handed out yet.
    pub waiting: Option<Waiting>,
}

impl ReaderState {
    /// The state for a new connection: nothing buffered, nothing waiting.
    pub open spec fn fresh() -> ReaderState {
        ReaderState { buffer: Seq::<u8>::empty(), waiting: None }
    }

    /// Whether a poll at `now` hands out a line: one is waiting and no
    /// newer line has taken its place for the debounce interval.
    pub open spec fn ready(self, now: u64) -> bool {
        self.waiting is Some && elapsed(now, self.waiting->0.since) >= LINE_DEBOUNCE_MS
    }

    /// The line that a poll at `now` hands out, if it hands one out.
    pub open spec fn due_line(self, now: u64) -> Option<Seq<u8>> {
        if self.ready(now) {
            Some(self.waiting->0.line)
        } else {
            None
        }
    }

    /// The state after a poll at `now`. A line that is handed out waits no
    /// longer; a line that is not goes on waiting.
    pub open spec fn polled(self, now: u64) -> ReaderState {
        if self.ready(now) {
            ReaderState { waiting: None, ..self }
        } else {
            self
        }
    }

    /// The state after `chunk` arrived at `now`. If the bytes received so
    /// far hold a complete line, the most recent one takes the place of the
    /// line that waited, and waits from `now`. What follows the last line
    /// feed is kept for the next chunk.
    pub open spec fn received(self, chunk: Seq<u8>, now: u64) -> ReaderState {
        ReaderState {
            buffer: unfinished(self.buffer + chunk),
            waiting: match latest_line(self.buffer + chunk) {
                Some(line) => Some(Waiting { line, since: now }),
                None => self.waiting,
            },
        }
    }
}

/// The bytes of a line, if there is a line.
pub open spec fn line_bytes(line: Option<Vec<u8>>) -> Option<Seq<u8>> {
    match line {
        Some(bytes) => Some(bytes@),
        None => None,
    }
}

/// Of two complete lines that arrive less than the debounce interval apart,
/// only the later is handed out. Whatever the reader held before: once the
/// first line has arrived at `first`, no poll up to the arrival of the
/// second at `second` hands anything out; the second line then takes the
/// place of the first; and every poll from the end of the interval on hands
/// out the second line.
pub proof fn law_only_the_later_line_is_handed_out(
    state: ReaderState,
    first_line: Seq<u8>,
    first: u64,
    second_line: Seq<u8>,
    second: u64,
)
    requires
        forall|i: int| 0 <= i < second_line.len() ==> second_line[i] != LINE_FEED,
        first <= second < first + LINE_DEBOUNCE_MS,
    ensures
        ({
            let after_first = state.received(first_line.push(LINE_FEED), first);
            let after_second = after_first.polled(second).received(
                second_line.push(LINE_FEED),
                second,
            );
            &&& forall|poll: u64|
                first <= poll <= second ==> after_first.due_line(poll) is None
                    && #[trigger] after_first.polled(poll) == after_first
            &&& after_second.waiting == Some(Waiting { line: second_line, since: second })
            &&& forall|poll: u64|
                poll >= second + LINE_DEBOUNCE_MS ==> #[trigger] after_second.due_line(poll)
                    == Some(second_line)
        }),
{
    let one = state.buffer + first_line.push(LINE_FEED);
    let two = second_line.push(LINE_FEED);
    lemma_last_line_feed_is(one, one.len() - 1);
    assert(unfinished(one) =~= Seq::<u8>::empty());
    let after_first = state.received(first_line.push(LINE_FEED), first);
    assert(after_first.waiting is Some);
    assert(after_first.waiting->0.since == first);
    assert(after_first.polled(second) == after_first);
    assert(after_first.buffer + two =~= two);
    lemma_last_line_feed_is(two, two.len() - 1);
    assert(two.take(two.len() - 1) =~= second_line);
    lemma_last_line_feed_is(second_line, -1);
    assert(two.subrange(0, two.len() - 1) =~= second_line);
}

/// No line is handed out twice: once a poll has handed out a line, nothing
/// waits, and no later poll hands out anything until a new line arrives.
pub proof fn law_no_line_is_handed_out_twice(state: ReaderState, poll: u64, later: u64)
    requires
        state.due_line(poll) is Some,
    ensures
        state.polled(poll).waiting is None,
        state.polled(poll).due_line(later) is None,
{
}

/// A line that waits is handed out by the first poll that comes once the
/// debounce interval has passed, and by no poll before.
pub proof fn law_waiting_line_is_handed_out(state: ReaderState, poll: u64)
    requires
        state.waiting is Some,
    ensures
        poll >= state.waiting->0.since + LINE_DEBOUNCE_MS ==> state.due_line(poll) == Some(
            state.waiting->0.line,
        ),
        state.waiting->0.since <= poll < state.waiting->0.since + LINE_DEBOUNCE_MS
            ==> state.due_line(poll) is None && state.polled(poll) == state,
{
}

/// What the reader holds does not depend on how the stream was cut into
/// chunks: taking in `a` and then `b` leaves the reader as taking in `a + b`
/// at once does.
pub proof fn law_chunking_does_not_matter(state: ReaderState, a: Seq<u8>, b: Seq<u8>, now: u64)
    ensures
        state.received(a, now).received(b, now) == state.received(a + b, now),
{
    lemma_joined_chunks(state.buffer + a, b);
    assert((state.buffer + a) + b =~= state.buffer + (a + b));
}

/// Of a burst of lines only the last waits: whatever came before it, the
/// line that was completed last is the one that can be handed out.
pub proof fn law_burst_keeps_only_latest(
    state: ReaderState,
    earlier: Seq<u8>,
    line: Seq<u8>,
    now: u64,
)
    requires
        forall|i: int| 0 <= i < line.len() ==> line[i] != LINE_FEED,
    ensures
        state.received(earlier.push(LINE_FEED) + line.push(LINE_FEED), now).waiting == Some(
            Waiting { line, since: now },
        ),
{
    lemma_line_after_line_feed(state.buffer + earlier, line);
    assert((state.buffer + earlier).push(LINE_FEED) + line.push(LINE_FEED) =~= state.buffer + (
    earlier.push(LINE_FEED) + line.push(LINE_FEED)));
}

/// The reader of the serial stream.
pub struct SerialReader {
    buffer: Vec<u8>,
    waiting: Option<Vec<u8>>,
    since: u64,
}

impl View for SerialReader {
    type V = ReaderState;

    closed spec fn view(&self) -> ReaderState {
        ReaderState {
            buffer: self.buffer@,
            waiting: match self.waiting {
                Some(line) => Some(Waiting { line: line@, since: self.since }),
                None => None,
            },
        }
    }
}

fn find_last_line_feed(bytes: &Vec<u8>, upto: usize) -> (r: Option<usize>)
    requires
        upto <= bytes@.len(),
    ensures
        match r {
            Some(at) => at == last_line_feed(bytes@.take(upto as int)),
            None => last_line_feed(bytes@.take(upto as int)) == -1,
        },
{
    let mut i: usize = upto;
    while i > 0
        invariant
            i <= upto <= bytes@.len(),
            forall|k: int| i <= k < upto ==> bytes@[k] != LINE_FEED,
        decreases i,
    {
        if bytes[i - 1] == LINE_FEED {
            proof {
                lemma_last_line_feed_is(bytes@.take(upto as int), i - 1);
            }
            return Some(i - 1);
        }
        i = i - 1;
    }
    proof {
        lemma_last_line_feed_is(bytes@.take(upto as int), -1);
    }
    None
}

fn copy_range(bytes: &Vec<u8>, from: usize, to: usize) -> (r: Vec<u8>)
    requires
        from <= to <= bytes@.len(),
    ensures
        r@ == bytes@.subrange(from as int, to as int),
{
    let mut out: Vec<u8> = Vec::new();
    let mut i: usize = from;
    while i < to
        invariant
            from <= i <= to <= bytes@.len(),
            out@ == bytes@.subrange(from as int, i as int),
        decreases to - i,
    {
        out.push(bytes[i]);
        i = i + 1;
    }
    out
}

impl SerialReader {
    /// A reader for a new connection.
    pub fn new() -> (r: SerialReader)
        ensures
            r@ == ReaderState::fresh(),
    {
        SerialReader { buffer: Vec::new(), waiting: None, since: 0 }
    }

    /// Starts afresh for a connection made anew: whatever was buffered or
    /// waited belongs to the old connection and is discarded.
    pub fn reset(&mut self)
        ensures
            final(self)@ == ReaderState::fresh(),
    {
        self.buffer = Vec::new();
        self.waiting = None;
    }

    /// Takes in a chunk of bytes that arrived at `now`.
    pub fn receive(&mut self, chunk: &[u8], now: u64)
        ensures
            final(self)@ == old(self)@.received(chunk@, now),
    {
        let ghost total = self.buffer@ + chunk@;
        self.buffer.extend_from_slice(chunk);
        assert(self.buffer@ == total);
        let n = self.buffer.len();
        assert(self.buffer@.take(n as int) =~= total);
        match find_last_line_feed(&self.buffer, n) {
            Some(end) => {
                proof {
                    lemma_last_line_feed(total);
                    lemma_last_line_feed(total.take(end as int));
                }
                let start: usize = match find_last_line_feed(&self.buffer, end) {
                    Some(previous) => previous + 1,
                    None => 0,
                };
                self.waiting = Some(copy_range(&self.buffer, start, end));
                self.since = now;
                self.buffer = copy_range(&self.buffer, end + 1, n);
            },
            None => {
                assert(unfinished(total) =~= total);
            },
        }
    }

    /// Hands out the line that waits if no newer line has taken its place
    /// for the debounce interval; otherwise the line goes on waiting.
    pub fn poll(&mut self, now: u64) -> (line: Option<Vec<u8>>)
        ensures
            final(self)@ == old(self)@.polled(now),
            line_bytes(line) == old(self)@.due_line(now),
    {
        if self.waiting.is_some() && elapsed_ms(now, self.since) >= LINE_DEBOUNCE_MS {
            self.waiting.take()
        } else {
            None
        }
    }

    /// Polls at `now`, then takes in a chunk of bytes that arrived at `now`.
    /// The line that the poll hands out, if any, is returned; a line that
    /// the chunk completes waits from `now`.
    pub fn push_bytes(&mut self, chunk: &[u8], now: u64) -> (line: Option<Vec<u8>>)
        ensures
            final(self)@ == old(self)@.polled(now).received(chunk@, now),
            line_bytes(line) == old(self)@.due_line(now),
    {
        let line = self.poll(now);
        self.receive(chunk, now);
        line
    }
}

} // verus!
