//! The static asset responder: one exchange per matching request.
//!
//! Every matching request serves the same fixed asset. The exchange opens
//! the target, answers 404 with a fixed body when the open fails, and
//! otherwise streams the asset's bytes in bounded line-sized chunks into a
//! 200 response. The open file handle is released exactly once on every
//! path that completes the exchange, a failed body write included.

use vstd::prelude::*;
use vstd::string::StrSliceExecFns;
use vstd::string::StringSliceAdditionalSpecFns;

verus! {

/// The byte that ends a line, and with it a chunk.
pub const LINE_FEED: u8 = 10;

/// The logical root the read-only volume is mounted under.
pub fn mount_point() -> (p: &'static str)
    ensures
        p@ == "/webapp"@,
{
    "/webapp"
}

/// The storage partition backing the mounted volume.
pub fn partition_label() -> (l: &'static str)
    ensures
        l@ == "webapp"@,
{
    "webapp"
}

/// The request pattern the responder is registered against: every path
/// under the mount point.
pub fn uri_pattern() -> (p: &'static str)
    ensures
        p@ == "/webapp/*"@,
{
    "/webapp/*"
}

/// The one on-storage path the responder serves, whatever the matching
/// request's suffix says.
pub fn asset_path() -> (p: &'static str)
    ensures
        p@ == "/webapp/build.ts"@,
{
    "/webapp/build.ts"
}

/// The fixed plaintext body served when the asset is absent.
pub open spec fn not_found_bytes() -> Seq<u8> {
    "No suitable file could be found.".spec_bytes()
}

/// The status an exchange answers with: 200 exactly when the asset opened,
/// 404 otherwise, and never anything else.
pub open spec fn spec_status(opened: bool) -> u16 {
    if opened {
        200
    } else {
        404
    }
}

/// Law: a matched request resolves to exactly one of two statuses — 200
/// when the asset is present, 404 when it is absent. There is no third
/// outcome.
pub proof fn lemma_status_dichotomy(opened: bool)
    ensures
        spec_status(opened) == 200 || spec_status(opened) == 404,
        (spec_status(opened) == 200) <==> opened,
        (spec_status(opened) == 404) <==> !opened,
{
}

/// How many bytes the next chunk of `s` holds: the bytes up to and
/// including the first line feed, capped at `max` and at the end of `s`.
pub open spec fn chunk_len(s: Seq<u8>, max: nat) -> nat
    decreases s.len(),
{
    if s.len() == 0 || max == 0 {
        0
    } else if s[0] == LINE_FEED {
        1
    } else {
        (1 + chunk_len(s.skip(1), (max - 1) as nat)) as nat
    }
}

/// A chunk is non-empty when bytes remain, and never longer than the cap
/// or the remainder.
pub proof fn lemma_chunk_len_bounds(s: Seq<u8>, max: nat)
    requires
        s.len() > 0,
        max > 0,
    ensures
        1 <= chunk_len(s, max),
        chunk_len(s, max) <= s.len(),
        chunk_len(s, max) <= max,
    decreases s.len(),
{
    if s[0] != LINE_FEED {
        if s.len() > 1 && max > 1 {
            lemma_chunk_len_bounds(s.skip(1), (max - 1) as nat);
        } else {
            assert(s.skip(1).len() == s.len() - 1);
            assert(chunk_len(s.skip(1), (max - 1) as nat) == 0);
        }
    }
}

/// A finite, non-restartable source of bounded chunks over a byte
/// sequence: each chunk ends at a line feed or at the size cap, the way a
/// line-by-line file read hands bytes over.
pub struct LineReader {
    data: Vec<u8>,
    pos: usize,
}

impl LineReader {
    /// The bytes the reader was built over.
    pub closed spec fn data_view(&self) -> Seq<u8> {
        self.data@
    }

    /// How many bytes have been yielded so far.
    pub closed spec fn position(&self) -> int {
        self.pos as int
    }

    /// The position never passes the end of the data.
    pub open spec fn wf(&self) -> bool {
        0 <= self.position() <= self.data_view().len()
    }

    /// The bytes yielded so far, in order.
    pub open spec fn emitted(&self) -> Seq<u8> {
        self.data_view().take(self.position())
    }

    /// The bytes still to come.
    pub open spec fn remaining(&self) -> Seq<u8> {
        self.data_view().skip(self.position())
    }

    /// A fresh reader over the whole of `data`.
    pub fn new(data: Vec<u8>) -> (r: LineReader)
        ensures
            r.wf(),
            r.data_view() == data@,
            r.position() == 0,
    {
        LineReader { data, pos: 0 }
    }

    /// Whether any bytes are still to come.
    pub fn has_more(&self) -> (b: bool)
        requires
            self.wf(),
        ensures
            b == (self.remaining().len() > 0),
    {
        self.pos < self.data.len()
    }

    /// Yield the next chunk: the remaining bytes up to and including the
    /// first line feed, capped at `max` bytes. Yields nothing at the end
    /// of the data and a non-empty chunk otherwise; consecutive chunks
    /// partition the data in order.
    pub fn next_chunk(&mut self, max: usize) -> (r: Option<Vec<u8>>)
        requires
            old(self).wf(),
            max >= 1,
        ensures
            final(self).wf(),
            final(self).data_view() == old(self).data_view(),
            old(self).remaining().len() == 0 ==> r is None && *final(self) == *old(self),
            old(self).remaining().len() > 0 ==> (r matches Some(c)
                && c@ == old(self).remaining().take(
                chunk_len(old(self).remaining(), max as nat) as int,
            ) && c@.len() == chunk_len(old(self).remaining(), max as nat) && final(self).position()
                == old(self).position() + c@.len() && final(self).emitted() == old(self).emitted()
                + c@),
    {
        if self.pos >= self.data.len() {
            return None;
        }
        let ghost d = self.data@;
        let ghost p = self.pos as int;
        let ghost rem = self.remaining();
        let mut c: Vec<u8> = Vec::new();
        let mut i: usize = self.pos;
        let mut done: bool = false;
        proof {
            assert(rem.skip(0) =~= rem);
        }
        while i < self.data.len() && c.len() < max && !done
            invariant
                self.data@ == d,
                self.pos == p,
                0 <= p <= i <= d.len(),
                max >= 1,
                rem == d.skip(p),
                i - p == c@.len(),
                c@.len() <= max,
                c@ == d.subrange(p, i as int),
                !done ==> (forall|k: int| 0 <= k < c@.len() ==> c@[k] != LINE_FEED),
                !done ==> chunk_len(rem, max as nat) == c@.len() + chunk_len(
                    rem.skip(c@.len() as int),
                    (max - c@.len()) as nat,
                ),
                done ==> chunk_len(rem, max as nat) == c@.len(),
            decreases d.len() - i,
        {
            let ghost k = c@.len() as int;
            let b = self.data[i];
            c.push(b);
            i = i + 1;
            proof {
                assert(d.subrange(p, i as int) =~= d.subrange(p, i - 1).push(d[i - 1]));
                assert(rem.skip(k) =~= d.skip(p + k));
                assert(rem.skip(k)[0] == d[p + k]);
                assert(rem.skip(k).skip(1) =~= rem.skip(k + 1));
            }
            if b == LINE_FEED {
                done = true;
                proof {
                    // the pending chunk ends here: its tail is one line feed
                    assert(chunk_len(rem.skip(k), (max - k) as nat) == 1);
                }
            }
        }
        proof {
            if !done {
                // the cap or the end of the data closed the chunk
                assert(chunk_len(rem.skip(c@.len() as int), (max - c@.len()) as nat) == 0);
            }
            assert(c@ =~= rem.take(chunk_len(rem, max as nat) as int));
        }
        self.pos = i;
        proof {
            assert(d.take(i as int) =~= d.take(p) + d.subrange(p, i as int));
        }
        Some(c)
    }

    /// Drain the reader: yield every chunk and concatenate them in read
    /// order. The result is exactly the bytes that remained — chunking
    /// loses nothing and repeats nothing, whatever cap is used.
    pub fn read_all(&mut self, max: usize) -> (out: Vec<u8>)
        requires
            old(self).wf(),
            max >= 1,
        ensures
            final(self).wf(),
            final(self).data_view() == old(self).data_view(),
            final(self).remaining().len() == 0,
            out@ == old(self).remaining(),
    {
        let mut out: Vec<u8> = Vec::new();
        let ghost d = self.data@;
        let ghost start = self.position();
        while self.pos < self.data.len()
            invariant
                self.wf(),
                self.data@ == d,
                max >= 1,
                0 <= start <= self.position(),
                out@ == d.subrange(start, self.position()),
            decreases d.len() - self.position(),
        {
            proof {
                lemma_chunk_len_bounds(self.remaining(), max as nat);
            }
            let ghost before = self.position();
            let r = self.next_chunk(max);
            let mut c = r.unwrap();
            proof {
                assert(d.skip(before).take(c@.len() as int) =~= d.subrange(
                    before,
                    before + c@.len(),
                ));
                assert(d.subrange(start, before + c@.len()) =~= d.subrange(start, before)
                    + d.subrange(before, before + c@.len()));
            }
            out.append(&mut c);
        }
        proof {
            assert(out@ =~= d.skip(start));
        }
        out
    }
}

/// How many bytes stand before the terminating zero of `s`: all of `s`
/// when no zero occurs.
pub open spec fn nul_pos(s: Seq<u8>) -> nat
    decreases s.len(),
{
    if s.len() == 0 || s[0] == 0 {
        0
    } else {
        (1 + nul_pos(s.skip(1))) as nat
    }
}

/// The chunk a zero-terminated line buffer holds: its bytes up to the
/// first zero byte. A line read into a fixed buffer hands its result over
/// in this form.
pub fn line_chunk(buf: &[u8]) -> (c: Vec<u8>)
    ensures
        c@ == buf@.take(nul_pos(buf@) as int),
{
    let ghost d = buf@;
    let mut c: Vec<u8> = Vec::new();
    let mut i: usize = 0;
    proof {
        assert(d.skip(0) =~= d);
    }
    while i < buf.len() && buf[i] != 0
        invariant
            0 <= i <= d.len(),
            buf@ == d,
            c@ == d.take(i as int),
            forall|k: int| 0 <= k < i ==> d[k] != 0,
            nul_pos(d) == i + nul_pos(d.skip(i as int)),
        decreases d.len() - i,
    {
        let b = buf[i];
        c.push(b);
        i = i + 1;
        proof {
            assert(d.take(i as int) =~= d.take(i - 1).push(d[i - 1]));
            assert(d.skip(i - 1)[0] == d[i - 1]);
            assert(d.skip(i - 1).skip(1) =~= d.skip(i as int));
        }
    }
    proof {
        assert(nul_pos(d.skip(i as int)) == 0);
    }
    c
}

/// The phases of one request/response exchange, in the order they can be
/// entered.
#[derive(Clone, Copy, Debug, PartialEq, Eq, Structural)]
pub enum ServePhase {
    /// The open attempt on the target asset has not resolved yet.
    Opening,
    /// The asset could not be opened; the not-found body is owed.
    Missing,
    /// The asset is open and its bytes flow into the response body.
    Streaming,
    /// Streaming ended — end of data, or a failed body write — and the
    /// handle is still held: it must be released before the exchange can
    /// complete.
    Cleanup,
    /// The exchange is over.
    Complete,
}

/// The error an exchange can surface: only a failed body write, and only
/// after the handle was released.
#[derive(Clone, Copy, Debug, PartialEq, Eq, Structural)]
pub enum ServeError {
    /// A body write failed partway through streaming.
    StreamWrite,
}

/// The status line and the single fixed header of a response.
#[derive(Clone, Copy, Debug)]
pub struct ResponseHead {
    /// The status code: 200 or 404, nothing else.
    pub status: u16,
    /// The reason phrase beside the status code.
    pub reason: &'static str,
    /// The value of the one header sent, the content type.
    pub content_type: &'static str,
}

/// One request/response exchange: the phase it stands in, the handle's
/// lifecycle, and the body bytes emitted so far. No state survives the
/// exchange; each request owns a fresh session.
pub struct ServeSession {
    /// Where the exchange stands.
    pub phase: ServePhase,
    /// Whether the open attempt on the target asset succeeded.
    pub opened: bool,
    /// Whether a body write failed while streaming.
    pub write_failed: bool,
    /// The body bytes emitted so far, in order.
    pub body: Ghost<Seq<u8>>,
    /// How many times the file handle has been released.
    pub releases: Ghost<int>,
}

impl ServeSession {
    /// The session's bookkeeping is sound: a handle is held exactly while
    /// streaming or awaiting cleanup, and a completed exchange has
    /// released it exactly once — when one was ever opened.
    pub open spec fn wf(&self) -> bool {
        &&& (self.phase is Opening ==> !self.opened && self.releases@ == 0 && self.body@
            == Seq::<u8>::empty() && !self.write_failed)
        &&& (self.phase is Missing ==> !self.opened && self.releases@ == 0 && !self.write_failed)
        &&& (self.phase is Streaming ==> self.opened && self.releases@ == 0 && !self.write_failed)
        &&& (self.phase is Cleanup ==> self.opened && self.releases@ == 0)
        &&& (self.phase is Complete ==> self.releases@ == (if self.opened {
            1int
        } else {
            0int
        }))
        &&& (self.write_failed ==> self.opened)
    }

    /// A fresh exchange for one matching request.
    pub fn begin() -> (s: ServeSession)
        ensures
            s.wf(),
            s.phase is Opening,
            !s.opened,
            !s.write_failed,
            s.body@ == Seq::<u8>::empty(),
            s.releases@ == 0,
    {
        ServeSession {
            phase: ServePhase::Opening,
            opened: false,
            write_failed: false,
            body: Ghost(Seq::empty()),
            releases: Ghost(0),
        }
    }

    /// Record how the open attempt went and produce the response head:
    /// status 200 when the asset opened, 404 when it did not, the fixed
    /// content type either way. No other status exists.
    pub fn on_open_result(&mut self, opened: bool) -> (head: ResponseHead)
        requires
            old(self).wf(),
            old(self).phase is Opening,
        ensures
            final(self).wf(),
            final(self).opened == opened,
            final(self).phase == (if opened {
                ServePhase::Streaming
            } else {
                ServePhase::Missing
            }),
            final(self).body@ == old(self).body@,
            !final(self).write_failed,
            final(self).releases@ == 0,
            head.status == spec_status(opened),
            head.status == 200 <==> opened,
            head.status == 200 || head.status == 404,
            head.reason@ == (if opened {
                "OK"@
            } else {
                "Not found."@
            }),
            head.content_type@ == "text/html"@,
    {
        if opened {
            self.phase = ServePhase::Streaming;
            self.opened = true;
            ResponseHead { status: 200, reason: "OK", content_type: "text/html" }
        } else {
            self.phase = ServePhase::Missing;
            ResponseHead { status: 404, reason: "Not found.", content_type: "text/html" }
        }
    }

    /// Emit the fixed not-found body, completing the exchange. No handle
    /// was ever opened on this path, so none is owed a release.
    pub fn emit_not_found(&mut self) -> (b: Vec<u8>)
        requires
            old(self).wf(),
            old(self).phase is Missing,
        ensures
            final(self).wf(),
            final(self).phase is Complete,
            !final(self).opened,
            !final(self).write_failed,
            final(self).releases@ == 0,
            b@ == not_found_bytes(),
            final(self).body@ == old(self).body@ + not_found_bytes(),
    {
        self.phase = ServePhase::Complete;
        let text = "No suitable file could be found.";
        let b = text.as_bytes_vec();
        proof {
            self.body@ = self.body@ + b@;
        }
        b
    }

    /// Record one chunk written into the response body, in order: the body
    /// grows by exactly that chunk, with nothing lost and nothing
    /// repeated.
    pub fn emit_chunk(&mut self, chunk: &[u8])
        requires
            old(self).wf(),
            old(self).phase is Streaming,
        ensures
            final(self).wf(),
            final(self).phase is Streaming,
            final(self).opened,
            !final(self).write_failed,
            final(self).releases@ == 0,
            final(self).body@ == old(self).body@ + chunk@,
    {
        proof {
            self.body@ = self.body@ + chunk@;
        }
    }

    /// Record that the stream reached its end: the body is whole, and the
    /// handle still awaits its release.
    pub fn on_stream_end(&mut self)
        requires
            old(self).wf(),
            old(self).phase is Streaming,
        ensures
            final(self).wf(),
            final(self).phase is Cleanup,
            final(self).opened,
            !final(self).write_failed,
            final(self).releases@ == 0,
            final(self).body@ == old(self).body@,
    {
        self.phase = ServePhase::Cleanup;
    }

    /// Record that a body write failed partway: streaming stops, and the
    /// handle must still be released before the exchange completes.
    pub fn on_write_failure(&mut self)
        requires
            old(self).wf(),
            old(self).phase is Streaming,
        ensures
            final(self).wf(),
            final(self).phase is Cleanup,
            final(self).opened,
            final(self).write_failed,
            final(self).releases@ == 0,
            final(self).body@ == old(self).body@,
    {
        self.phase = ServePhase::Cleanup;
        self.write_failed = true;
    }

    /// Release the file handle and complete the exchange. This is the only
    /// way out of cleanup, and it cannot be repeated: a completed exchange
    /// holds exactly one release.
    pub fn release(&mut self)
        requires
            old(self).wf(),
            old(self).phase is Cleanup,
        ensures
            final(self).wf(),
            final(self).phase is Complete,
            final(self).opened,
            final(self).write_failed == old(self).write_failed,
            final(self).releases@ == old(self).releases@ + 1,
            final(self).releases@ == 1,
            final(self).body@ == old(self).body@,
    {
        self.phase = ServePhase::Complete;
        proof {
            self.releases@ = self.releases@ + 1;
        }
    }

    /// The handler's result for a completed exchange: an error exactly
    /// when a body write failed, surfaced only after the cleanup was done.
    pub fn outcome(&self) -> (r: Result<(), ServeError>)
        requires
            self.wf(),
            self.phase is Complete,
        ensures
            r is Err <==> self.write_failed,
            (r matches Err(e) ==> e == ServeError::StreamWrite),
    {
        if self.write_failed {
            Err(ServeError::StreamWrite)
        } else {
            Ok(())
        }
    }
}

/// Law: a completed exchange released the file handle exactly once when
/// one was opened, and never touched one otherwise. No completed exchange
/// leaks or double-releases a handle.
pub proof fn lemma_handle_released_once(s: ServeSession)
    requires
        s.wf(),
        s.phase is Complete,
    ensures
        s.opened ==> s.releases@ == 1,
        !s.opened ==> s.releases@ == 0,
{
}

/// Serve a present asset: stream its bytes in chunks of at most `max`
/// into the response body. The status is 200, the body equals the full
/// contents — the chunks concatenated in read order, nothing truncated,
/// nothing repeated, whatever cap is used — and the handle is released
/// exactly once.
pub fn serve_present(data: Vec<u8>, max: usize) -> (r: (ResponseHead, Vec<u8>, ServeSession))
    requires
        max >= 1,
    ensures
        r.0.status == 200,
        r.0.reason@ == "OK"@,
        r.0.content_type@ == "text/html"@,
        r.1@ == data@,
        r.2.wf(),
        r.2.phase is Complete,
        r.2.opened,
        !r.2.write_failed,
        r.2.body@ == data@,
        r.2.releases@ == 1,
{
    let ghost d = data@;
    let mut session = ServeSession::begin();
    let head = session.on_open_result(true);
    let mut reader = LineReader::new(data);
    let mut out: Vec<u8> = Vec::new();
    proof {
        assert(d.take(0) =~= Seq::<u8>::empty());
    }
    while reader.has_more()
        invariant
            reader.wf(),
            reader.data_view() == d,
            max >= 1,
            session.wf(),
            session.phase is Streaming,
            session.opened,
            !session.write_failed,
            session.releases@ == 0,
            session.body@ == reader.emitted(),
            out@ == reader.emitted(),
        decreases reader.data_view().len() - reader.position(),
    {
        proof {
            lemma_chunk_len_bounds(reader.remaining(), max as nat);
        }
        let chunk = reader.next_chunk(max);
        let mut c = chunk.unwrap();
        session.emit_chunk(c.as_slice());
        out.append(&mut c);
    }
    session.on_stream_end();
    session.release();
    proof {
        assert(reader.emitted() =~= d);
    }
    (head, out, session)
}

/// Serve an absent asset: the status is 404 and the body is the fixed
/// not-found text. No handle was opened, so none is released.
pub fn serve_missing() -> (r: (ResponseHead, Vec<u8>, ServeSession))
    ensures
        r.0.status == 404,
        r.0.reason@ == "Not found."@,
        r.0.content_type@ == "text/html"@,
        r.1@ == not_found_bytes(),
        r.2.wf(),
        r.2.phase is Complete,
        !r.2.opened,
        !r.2.write_failed,
        r.2.body@ == not_found_bytes(),
        r.2.releases@ == 0,
{
    let mut session = ServeSession::begin();
    let head = session.on_open_result(false);
    let body = session.emit_not_found();
    (head, body, session)
}

} // verus!
