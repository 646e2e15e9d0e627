//! The probe session: the target configuration, the frame history that one
//! run accumulates, and the bookkeeping of each attempt from its start to its
//! terminal condition. The session performs no I/O itself: the caller opens
//! connections, writes and reads, and hands the session plain clock readings
//! in nanoseconds; the session decides, records and aggregates.

use vstd::prelude::*;

use crate::digits::push_decimal;
use crate::digits::spec_decimal;
use crate::frame::TcpFrame;
use crate::method::spec_http_method_str;
use crate::method::HttpMethod;
use crate::method::PingMethod;
use crate::stats::spec_summary;
use crate::stats::summarize;
use crate::stats::PingResult;

verus! {

/// A probe session: one configured run that issues a sequence of attempts
/// and owns their history.
#[derive(Debug)]
pub struct Pluto {
    /// When the session began, in nanoseconds on the caller's clock.
    pub start: u64,
    /// The transport each attempt uses.
    pub method: PingMethod,
    /// The target port.
    pub port: u32,
    /// The frame history, one frame per attempt, in issuance order.
    pub queue: Vec<TcpFrame>,
    /// The target address, as `host:port`.
    pub host: String,
    /// Nanoseconds from the session's start to its summary.
    pub elapsed: u64,
    /// Whether an HTTP probe waits for (and drains) the response.
    pub wait: bool,
    /// How many payload octets each attempt sends.
    pub bytes: usize,
    /// The verb an HTTP probe puts on its request line.
    pub http_method: HttpMethod,
    /// The summary of the history, filled when the run ends.
    pub result: PingResult,
    /// Whether the run ignores the attempt count and sends until cancelled.
    pub timeout: bool,
    /// How many milliseconds one attempt may wait for its connection.
    pub wait_timeout: u64,
}

/// Whether two session values carry the same configuration: everything but
/// the frame history, the summary and the session's own elapsed time.
pub open spec fn same_config(a: Pluto, b: Pluto) -> bool {
    &&& a.start == b.start
    &&& a.method == b.method
    &&& a.port == b.port
    &&& a.host == b.host
    &&& a.wait == b.wait
    &&& a.bytes == b.bytes
    &&& a.http_method == b.http_method
    &&& a.timeout == b.timeout
    &&& a.wait_timeout == b.wait_timeout
}

/// The head of the HTTP request an attempt sends: the request line, the
/// fixed headers with the target host and the payload length, and the blank
/// line that ends the head. The payload octets follow it on the wire.
pub open spec fn spec_http_head(m: HttpMethod, host: Seq<char>, bytes: int) -> Seq<char> {
    spec_http_method_str(m) + " / HTTP/1.1\r\nHost: "@ + host
        + "\r\nUser-Agent: Pluto/0.1.0\r\nContent-Type: text/plain\r\nContent-Length: "@
        + spec_decimal(bytes) + "\r\n\r\n"@
}

impl Pluto {
    /// Whether every frame of the history sits at the position its `id`
    /// names: the `n`th attempt issued is the `n`th frame recorded.
    pub open spec fn wf(self) -> bool {
        forall|i: int| 0 <= i < self.queue@.len() ==> #[trigger] self.queue@[i].id == i + 1
    }
}

impl Default for Pluto {
    fn default() -> (r: Self)
        ensures
            r.start == 0,
            r.method == PingMethod::Tcp,
            r.port == 80,
            r.queue@ == Seq::<TcpFrame>::empty(),
            r.host@ == Seq::<char>::empty(),
            r.elapsed == 0,
            !r.wait,
            r.bytes == 56,
            r.http_method == HttpMethod::GET,
            r.result == spec_summary(Seq::<TcpFrame>::empty()),
            !r.timeout,
            r.wait_timeout == 300,
            r.wf(),
    {
        Pluto {
            start: 0,
            method: PingMethod::Tcp,
            port: 80,
            queue: Vec::new(),
            host: String::new(),
            elapsed: 0,
            wait: false,
            bytes: 56,
            http_method: HttpMethod::GET,
            result: PingResult::default(),
            timeout: false,
            wait_timeout: 300,
        }
    }
}

impl Pluto {
    /// Builds a session for the given transport and target, folding the port
    /// into the target address as `host:port`. Every other setting keeps its
    /// default; the frame history starts empty.
    pub fn build(method: PingMethod, host: String, port: u32) -> (r: Self)
        ensures
            r.method == method,
            r.host@ == host@ + seq![':'] + spec_decimal(port as int),
            r.port == port,
            r.start == 0,
            r.queue@ == Seq::<TcpFrame>::empty(),
            r.elapsed == 0,
            !r.wait,
            r.bytes == 56,
            r.http_method == HttpMethod::GET,
            r.result == spec_summary(Seq::<TcpFrame>::empty()),
            !r.timeout,
            r.wait_timeout == 300,
            r.wf(),
    {
        proof {
            reveal_strlit(":");
        }
        let mut address = host;
        address.append(":");
        proof {
            assert(":"@ =~= seq![':']);
        }
        push_decimal(&mut address, port as u64);
        let mut session = Self::default();
        session.method = method;
        session.host = address;
        session.port = port;
        session
    }

    /// Starts one attempt: appends a fresh frame that records the attempt's
    /// start time and carries the next 1-based id. Nothing else changes.
    pub fn begin_attempt(&mut self, now: u64)
        requires
            old(self).queue@.len() < usize::MAX,
        ensures
            final(self).queue@ == old(self).queue@.push(
                (TcpFrame {
                    id: (old(self).queue@.len() + 1) as usize,
                    start: now,
                    elapsed: 0,
                    success: false,
                    send_success: false,
                }),
            ),
            same_config(*old(self), *final(self)),
            final(self).result == old(self).result,
            final(self).elapsed == old(self).elapsed,
            old(self).wf() ==> final(self).wf(),
    {
        let id = self.queue.len() + 1;
        self.queue.push(
            TcpFrame { id, start: now, elapsed: 0, success: false, send_success: false },
        );
    }

    /// Records that the current attempt's payload was fully written and
    /// flushed: the newest frame's `send_success` becomes true, and nothing
    /// else changes.
    pub fn mark_sent(&mut self)
        requires
            old(self).queue@.len() > 0,
        ensures
            final(self).queue@ == old(self).queue@.update(
                old(self).queue@.len() - 1,
                (TcpFrame {
                    send_success: true,
                    ..old(self).queue@.last()
                }),
            ),
            same_config(*old(self), *final(self)),
            final(self).result == old(self).result,
            final(self).elapsed == old(self).elapsed,
            old(self).wf() ==> final(self).wf(),
    {
        let ghost before = self.queue@;
        let mut frame = self.queue.pop().unwrap();
        frame.send_success = true;
        self.queue.push(frame);
        proof {
            assert(final(self).queue@ =~= before.update(
                before.len() - 1,
                (TcpFrame { send_success: true, ..before.last() }),
            ));
        }
    }

    /// Ends the current attempt at its terminal condition: fixes the newest
    /// frame's elapsed time from its start to `now` and marks it successful.
    /// Nothing else changes.
    pub fn complete_attempt(&mut self, now: u64)
        requires
            old(self).queue@.len() > 0,
            now >= old(self).queue@.last().start,
        ensures
            final(self).queue@ == old(self).queue@.update(
                old(self).queue@.len() - 1,
                (TcpFrame {
                    elapsed: (now - old(self).queue@.last().start) as u64,
                    success: true,
                    ..old(self).queue@.last()
                }),
            ),
            same_config(*old(self), *final(self)),
            final(self).result == old(self).result,
            final(self).elapsed == old(self).elapsed,
            old(self).wf() ==> final(self).wf(),
    {
        let ghost before = self.queue@;
        let mut frame = self.queue.pop().unwrap();
        frame.calculate_delay(now);
        frame.success = true;
        self.queue.push(frame);
        proof {
            assert(final(self).queue@ =~= before.update(
                before.len() - 1,
                (TcpFrame {
                    elapsed: (now - before.last().start) as u64,
                    success: true,
                    ..before.last()
                }),
            ));
        }
    }

    /// Closes the run: fixes the session's own elapsed time and summarizes
    /// the frame history. The history itself is left untouched, and the
    /// summary is a function of the history alone, so running this again on
    /// the unmodified session yields the identical result.
    pub fn end(&mut self, now: u64)
        requires
            now >= old(self).start,
        ensures
            final(self).elapsed == now - old(self).start,
            final(self).result == spec_summary(old(self).queue@),
            final(self).queue == old(self).queue,
            same_config(*old(self), *final(self)),
            old(self).wf() ==> final(self).wf(),
    {
        self.elapsed = now - self.start;
        self.result = summarize(&self.queue);
    }

    /// The head of the HTTP request this session's attempts send.
    pub fn http_request_head(&self) -> (r: String)
        ensures
            r@ == spec_http_head(self.http_method, self.host@, self.bytes as int),
    {
        let mut head = String::new();
        head.append(self.http_method.as_str());
        head.append(" / HTTP/1.1\r\nHost: ");
        head.append(self.host.as_str());
        head.append("\r\nUser-Agent: Pluto/0.1.0\r\nContent-Type: text/plain\r\nContent-Length: ");
        push_decimal(&mut head, self.bytes as u64);
        head.append("\r\n\r\n");
        proof {
            assert(head@ =~= spec_http_head(self.http_method, self.host@, self.bytes as int));
        }
        head
    }

    /// The payload one attempt sends: `bytes` fill octets of value 255.
    pub fn payload(&self) -> (r: Vec<u8>)
        ensures
            r@ == Seq::new(self.bytes as nat, |i: int| 0xffu8),
    {
        let mut data: Vec<u8> = Vec::new();
        while data.len() < self.bytes
            invariant
                data@.len() <= self.bytes,
                forall|i: int| 0 <= i < data@.len() ==> data@[i] == 0xffu8,
            decreases self.bytes - data@.len(),
        {
            data.push(0xff);
        }
        proof {
            assert(data@ =~= Seq::new(self.bytes as nat, |i: int| 0xffu8));
        }
        data
    }

    /// Whether the run loop should issue another attempt after `sent` of a
    /// planned `count`: it keeps sending while the unbounded flag is set or
    /// the planned count is not yet reached.
    pub fn keep_sending(&self, sent: usize, count: usize) -> (r: bool)
        ensures
            r == (self.timeout || sent != count),
    {
        self.timeout || sent != count
    }
}

/// Attempt ordering: a history whose frames sit at the positions their ids
/// name, extended by a frame carrying the next id, still has every frame at
/// its position — so after N sequential attempts the history holds exactly N
/// frames in issuance order.
pub proof fn lemma_attempt_order(history: Seq<TcpFrame>, next: TcpFrame)
    requires
        forall|i: int| 0 <= i < history.len() ==> #[trigger] history[i].id == i + 1,
        next.id == history.len() + 1,
    ensures
        forall|i: int|
            0 <= i < history.push(next).len() ==> #[trigger] history.push(next)[i].id == i + 1,
{
}

/// Whether a line of the response ends the read of an HTTP reply: the probe
/// stops at the first line shorter than 3 octets, taking it for the blank
/// line that terminates a response head. This is a deliberately crude
/// framing heuristic, not an HTTP parser; responses framed otherwise may
/// keep the reader waiting.
pub fn response_terminated(line_len: usize) -> (r: bool)
    ensures
        r == (line_len < 3),
{
    line_len < 3
}

} // verus!
