//! The chat relay: plans and orders the chunks that one chat request
//! streams back to the caller.
//!
//! The relay posts the question to the upstream answering service and
//! replays the answer word by word. Every failure on the way — no
//! response within the timeout, a non-success status, an unreadable
//! body — becomes a single human-readable chunk, never a protocol
//! error: once the stream is open, failures are content. The stream
//! interleaves heartbeats with the chunks while it is open and sends
//! nothing once it is closed; a chunk is always delivered whole.
//!
//! The transport loop lives outside the library: it performs the
//! upstream call and the timing (the 120-second upstream timeout, the
//! 50-millisecond pacing between chunks, the 1-second heartbeat), and
//! hands the outcome in as an `UpstreamReply`.

use vstd::prelude::*;

use crate::text::blank_text;
use crate::text::is_whitespace;
use crate::text::scan_tokens;
use crate::text::split_words;
use crate::text::tokens_of;

verus! {

/// Hard timeout on the upstream call, measured from its start.
pub const UPSTREAM_TIMEOUT_MS: u64 = 120000;

/// Pacing delay between two emitted chunks.
pub const CHUNK_PACING_MS: u64 = 50;

/// Cadence of the keep-alive heartbeat while the stream is open.
pub const HEARTBEAT_PERIOD_MS: u64 = 1000;

/// What came back from the upstream answering service, as the
/// transport saw it: a response with its status and — when the body
/// parsed as an answer — the answer text, or no response at all
/// (connection refused, resolution failure, timeout expiry).
pub enum UpstreamReply {
    Response { status: u16, answer: Option<String> },
    NoResponse,
}

pub open spec fn is_success_status(status: u16) -> bool {
    200 <= status < 300
}

pub open spec fn connect_failure_text() -> Seq<char> {
    "Sorry, I could not reach the assistant service. Please try again later."@
}

pub open spec fn unavailable_text() -> Seq<char> {
    "Sorry, the assistant service is unavailable right now. Please try again later."@
}

pub open spec fn parse_failure_text() -> Seq<char> {
    "Sorry, I could not read the answer from the assistant service."@
}

/// Chunk sequence for an answer's tokens: the first token stands
/// alone, every later one carries a single leading space, so that
/// concatenation reconstructs the answer with normalized whitespace.
pub open spec fn chunk_list(tokens: Seq<Seq<char>>) -> Seq<Seq<char>> {
    Seq::new(
        tokens.len(),
        |i: int|
            if i == 0 {
                tokens[0]
            } else {
                seq![' '] + tokens[i]
            },
    )
}

/// The chunks that one reply is streamed back as: an answered
/// question yields its words, any failure yields exactly one chunk
/// with the fixed message for that failure.
pub open spec fn plan_of(reply: UpstreamReply) -> Seq<Seq<char>> {
    match reply {
        UpstreamReply::NoResponse => seq![connect_failure_text()],
        UpstreamReply::Response { status, answer } => if !is_success_status(status) {
            seq![unavailable_text()]
        } else {
            match answer {
                Option::None => seq![parse_failure_text()],
                Option::Some(a) => chunk_list(tokens_of(a@)),
            }
        },
    }
}

pub fn connect_failure_message() -> (m: String)
    ensures
        m@ == connect_failure_text(),
{
    String::from_str("Sorry, I could not reach the assistant service. Please try again later.")
}

pub fn unavailable_message() -> (m: String)
    ensures
        m@ == unavailable_text(),
{
    String::from_str("Sorry, the assistant service is unavailable right now. Please try again later.")
}

pub fn parse_failure_message() -> (m: String)
    ensures
        m@ == parse_failure_text(),
{
    String::from_str("Sorry, I could not read the answer from the assistant service.")
}

fn single_chunk(m: String) -> (chunks: Vec<String>)
    ensures
        chunks.deep_view() == seq![m@],
{
    let mut chunks: Vec<String> = Vec::new();
    chunks.push(m);
    proof {
        assert(chunks.deep_view() =~= seq![chunks@[0]@]);
    }
    chunks
}

/// Prefixes every token after the first with a single space.
fn make_chunks(tokens: Vec<String>) -> (chunks: Vec<String>)
    ensures
        chunks.deep_view() == chunk_list(tokens.deep_view()),
{
    let ghost goal = chunk_list(tokens.deep_view());
    let mut chunks: Vec<String> = Vec::new();
    let mut i: usize = 0;
    proof {
        assert(chunks.deep_view() =~= goal.take(0));
    }
    while i < tokens.len()
        invariant
            i <= tokens.len(),
            goal == chunk_list(tokens.deep_view()),
            chunks.deep_view() == goal.take(i as int),
        decreases tokens.len() - i,
    {
        let ghost before = chunks.deep_view();
        if i == 0 {
            let first = tokens[0].clone();
            chunks.push(first);
        } else {
            let mut prefixed = String::from_str(" ");
            prefixed.append(tokens[i].as_str());
            proof {
                reveal_strlit(" ");
                assert(" "@ =~= seq![' ']);
                assert(prefixed@ == seq![' '] + tokens.deep_view()[i as int]);
            }
            chunks.push(prefixed);
        }
        proof {
            assert(chunks.deep_view() =~= before.push(goal[i as int]));
            assert(chunks.deep_view() =~= goal.take(i as int + 1));
        }
        i = i + 1;
    }
    proof {
        assert(goal.take(tokens.len() as int) =~= goal);
    }
    chunks
}

/// Plans the full chunk sequence for one reply.
pub fn plan_chunks(reply: UpstreamReply) -> (chunks: Vec<String>)
    ensures
        chunks.deep_view() == plan_of(reply),
{
    match reply {
        UpstreamReply::NoResponse => single_chunk(connect_failure_message()),
        UpstreamReply::Response { status, answer } => {
            if !(200 <= status && status < 300) {
                single_chunk(unavailable_message())
            } else {
                match answer {
                    Option::None => single_chunk(parse_failure_message()),
                    Option::Some(a) => {
                        let tokens = split_words(a.as_str());
                        make_chunks(tokens)
                    },
                }
            }
        },
    }
}

/// One open stream: the planned chunks and how many have been emitted.
/// The stream closes itself after the last chunk; a stream whose plan
/// is empty is closed from the start.
pub struct RelayStream {
    chunks: Vec<String>,
    next: usize,
}

impl RelayStream {
    /// The chunk sequence this stream delivers.
    pub closed spec fn plan(&self) -> Seq<Seq<char>> {
        self.chunks.deep_view()
    }

    /// How many chunks have been emitted so far.
    pub closed spec fn emitted(&self) -> int {
        self.next as int
    }

    pub open spec fn wf(&self) -> bool {
        0 <= self.emitted() <= self.plan().len()
    }

    /// The one terminal state: every planned chunk is out, nothing
    /// more is sent, heartbeats included.
    pub open spec fn is_closed_spec(&self) -> bool {
        self.emitted() == self.plan().len()
    }

    /// Opens the stream for one reply. No content precedes the plan:
    /// a failure reply starts (and ends) with its single message.
    pub fn start(reply: UpstreamReply) -> (s: RelayStream)
        ensures
            s.wf(),
            s.plan() == plan_of(reply),
            s.emitted() == 0,
    {
        let chunks = plan_chunks(reply);
        RelayStream { chunks, next: 0 }
    }

    pub fn is_closed(&self) -> (r: bool)
        ensures
            r == self.is_closed_spec(),
    {
        self.next == self.chunks.len()
    }

    /// Whether a heartbeat may still be sent: only while the stream
    /// is open.
    pub fn heartbeat_due(&self) -> (r: bool)
        requires
            self.wf(),
        ensures
            r == !self.is_closed_spec(),
    {
        self.next < self.chunks.len()
    }

    /// Emits the next chunk, whole: the chunk at the cursor, in plan
    /// order, or nothing once the stream is closed.
    pub fn emit_next(&mut self) -> (c: Option<String>)
        requires
            old(self).wf(),
        ensures
            final(self).wf(),
            final(self).plan() == old(self).plan(),
            old(self).is_closed_spec() ==> c is None && final(self).emitted() == old(self).emitted(),
            !old(self).is_closed_spec() ==> (c matches Option::Some(ch) && ch@ == old(self).plan()[old(
                self,
            ).emitted()] && final(self).emitted() == old(self).emitted() + 1),
    {
        if self.next < self.chunks.len() {
            let ch = self.chunks[self.next].clone();
            self.next = self.next + 1;
            Some(ch)
        } else {
            None
        }
    }
}

/// One event on the wire: a content chunk, delivered whole, or a
/// keep-alive heartbeat, which the transport frames as its own event
/// type, never as content.
pub enum RelayEvent {
    Content(String),
    Heartbeat,
}

/// The content chunks of an event sequence, heartbeats dropped.
pub open spec fn content_of(events: Seq<RelayEvent>) -> Seq<Seq<char>>
    decreases events.len(),
{
    if events.len() == 0 {
        Seq::empty()
    } else {
        match events[0] {
            RelayEvent::Content(c) => seq![c@] + content_of(events.drop_first()),
            RelayEvent::Heartbeat => content_of(events.drop_first()),
        }
    }
}

/// Whether `events` is something the stream may emit once `k` chunks
/// of `plan` are already out: each content event is the next planned
/// chunk, whole, and every event — heartbeats included — comes while
/// the stream is still open.
pub open spec fn run_from(events: Seq<RelayEvent>, plan: Seq<Seq<char>>, k: int) -> bool
    decreases events.len(),
{
    if events.len() == 0 {
        true
    } else {
        match events[0] {
            RelayEvent::Heartbeat => k < plan.len() && run_from(events.drop_first(), plan, k),
            RelayEvent::Content(c) => k < plan.len() && c@ == plan[k] && run_from(
                events.drop_first(),
                plan,
                k + 1,
            ),
        }
    }
}

/// Whether `events` is a sequence the freshly opened stream may emit.
pub open spec fn stream_run(events: Seq<RelayEvent>, plan: Seq<Seq<char>>) -> bool {
    run_from(events, plan, 0)
}

proof fn lemma_run_from_content(events: Seq<RelayEvent>, plan: Seq<Seq<char>>, k: int)
    requires
        0 <= k <= plan.len(),
        run_from(events, plan, k),
        k + content_of(events).len() == plan.len(),
    ensures
        content_of(events) == plan.subrange(k, plan.len() as int),
    decreases events.len(),
{
    if events.len() == 0 {
        assert(content_of(events) =~= plan.subrange(k, plan.len() as int));
    } else {
        match events[0] {
            RelayEvent::Heartbeat => {
                lemma_run_from_content(events.drop_first(), plan, k);
            },
            RelayEvent::Content(c) => {
                lemma_run_from_content(events.drop_first(), plan, k + 1);
                assert(content_of(events) =~= plan.subrange(k, plan.len() as int));
            },
        }
    }
}

/// Heartbeats keep chunks whole: however heartbeats interleave, a
/// complete run of the stream delivers exactly the planned chunks, in
/// order, each as one undivided content event.
pub proof fn lemma_heartbeats_preserve_chunks(events: Seq<RelayEvent>, plan: Seq<Seq<char>>)
    requires
        stream_run(events, plan),
        content_of(events).len() == plan.len(),
    ensures
        content_of(events) == plan,
{
    lemma_run_from_content(events, plan, 0);
    assert(plan.subrange(0, plan.len() as int) =~= plan);
}

/// A reply that never arrived — transport failure or timeout expiry —
/// plans exactly one chunk, the connect-failure message: no partial
/// content precedes it.
pub proof fn lemma_no_response_single_chunk()
    ensures
        plan_of(UpstreamReply::NoResponse) == seq![connect_failure_text()],
        plan_of(UpstreamReply::NoResponse).len() == 1,
{
}

/// A reply with a non-success status plans exactly one chunk, the
/// service-unavailable message, whatever the response body held.
pub proof fn lemma_bad_status_single_chunk(status: u16, answer: Option<String>)
    requires
        !is_success_status(status),
    ensures
        plan_of(UpstreamReply::Response { status, answer }) == seq![unavailable_text()],
        plan_of(UpstreamReply::Response { status, answer }).len() == 1,
{
}

/// A chunk sequence concatenated into one text.
pub open spec fn concat_chunks(chunks: Seq<Seq<char>>) -> Seq<char>
    decreases chunks.len(),
{
    if chunks.len() == 0 {
        Seq::empty()
    } else {
        chunks[0] + concat_chunks(chunks.drop_first())
    }
}

/// Tokens joined by single spaces: the whitespace-normalized answer.
pub open spec fn join_words(tokens: Seq<Seq<char>>) -> Seq<char>
    decreases tokens.len(),
{
    if tokens.len() == 0 {
        Seq::empty()
    } else if tokens.len() == 1 {
        tokens[0]
    } else {
        tokens[0] + seq![' '] + join_words(tokens.drop_first())
    }
}

spec fn spaced(tokens: Seq<Seq<char>>) -> Seq<Seq<char>> {
    Seq::new(tokens.len(), |i: int| seq![' '] + tokens[i])
}

proof fn lemma_concat_spaced_join(tokens: Seq<Seq<char>>)
    requires
        tokens.len() >= 1,
    ensures
        concat_chunks(spaced(tokens)) == seq![' '] + join_words(tokens),
    decreases tokens.len(),
{
    assert(concat_chunks(spaced(tokens)) == spaced(tokens)[0] + concat_chunks(
        spaced(tokens).drop_first(),
    ));
    assert(spaced(tokens)[0] == seq![' '] + tokens[0]);
    if tokens.len() == 1 {
        assert(spaced(tokens).drop_first() =~= Seq::<Seq<char>>::empty());
        assert(concat_chunks(spaced(tokens).drop_first()) == Seq::<char>::empty());
        assert(concat_chunks(spaced(tokens)) =~= seq![' '] + join_words(tokens));
    } else {
        assert(spaced(tokens).drop_first() =~= spaced(tokens.drop_first()));
        lemma_concat_spaced_join(tokens.drop_first());
        assert(concat_chunks(spaced(tokens)) =~= seq![' '] + join_words(tokens));
    }
}

/// Concatenating the planned chunks of an answer reconstructs the
/// whitespace-normalized answer: its tokens joined by single spaces.
pub proof fn lemma_chunks_reconstruct_answer(tokens: Seq<Seq<char>>)
    ensures
        concat_chunks(chunk_list(tokens)) == join_words(tokens),
{
    if tokens.len() == 0 {
        assert(chunk_list(tokens) =~= Seq::<Seq<char>>::empty());
    } else {
        assert(concat_chunks(chunk_list(tokens)) == chunk_list(tokens)[0] + concat_chunks(
            chunk_list(tokens).drop_first(),
        ));
        assert(chunk_list(tokens)[0] == tokens[0]);
        if tokens.len() == 1 {
            assert(chunk_list(tokens).drop_first() =~= Seq::<Seq<char>>::empty());
            assert(concat_chunks(chunk_list(tokens).drop_first()) == Seq::<char>::empty());
            assert(concat_chunks(chunk_list(tokens)) =~= join_words(tokens));
        } else {
            assert(chunk_list(tokens).drop_first() =~= spaced(tokens.drop_first()));
            lemma_concat_spaced_join(tokens.drop_first());
            assert(concat_chunks(chunk_list(tokens)) =~= join_words(tokens));
        }
    }
}

/// A blank answer — the empty answer included — yields no tokens,
/// hence no content chunks: the stream closes without content.
pub proof fn lemma_blank_answer_no_chunks(s: Seq<char>)
    requires
        blank_text(s),
    ensures
        tokens_of(s).len() == 0,
        chunk_list(tokens_of(s)).len() == 0,
{
    lemma_scan_blank(s, 0, Seq::empty());
}

proof fn lemma_scan_blank(s: Seq<char>, i: int, acc: Seq<Seq<char>>)
    requires
        0 <= i <= s.len(),
        forall|j: int| i <= j < s.len() ==> is_whitespace(s[j]),
    ensures
        scan_tokens(s, i, Seq::empty(), acc) == acc,
    decreases s.len() - i,
{
    if i < s.len() {
        lemma_scan_blank(s, i + 1, acc);
    }
}

} // verus!
