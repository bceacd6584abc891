//! Control socket: one JSON object per line, one request per line.
//!
//! `status` is answered straight from the published state so it stays
//! responsive while the supervisor is busy dialing; everything else is
//! forwarded to the supervisor, which owns the link.
use crate::aap::codec::{lossy_text, text_lossy};
use crate::clock::{Duration, MILLISECOND, SECOND};
use crate::config::{joined_path, socket_path};
use crate::ctl_proto::{Request, Response};
use crate::text::{chars_of, trim, trimmed};
use vstd::prelude::*;
use vstd::string::*;

verus! {

/// Longest request line accepted. Real requests are well under 200 bytes;
/// anything past this is a bug or an attempt to grow the daemon's heap.
pub const MAX_LINE: usize = 65536;

/// Most control clients that may be served at once. `auris` connects, asks one
/// thing and leaves, so this is generous.
pub const MAX_CLIENTS: usize = 16;

/// Pause after a transient accept error, so a descriptor shortage does not
/// turn into a busy loop.
pub const ACCEPT_RETRY: Duration = 200 * MILLISECOND;

/// Leave a little room below the CLI's five-second I/O timeout. Commands that
/// sat behind a dial this long must become inert, not run after the client has
/// already given up or the selected device changed.
pub const COMMAND_DEADLINE: Duration = 4 * SECOND;

/// Why `accept` failed.
#[derive(Debug, Clone, Copy, PartialEq, Eq, Structural)]
pub enum AcceptFault {
    /// This process has no descriptor left (`EMFILE`).
    ProcessFiles,
    /// The system has no descriptor left (`ENFILE`).
    SystemFiles,
    /// The client hung up mid-handshake.
    Aborted,
    /// A signal came in between.
    Interrupted,
    /// Nothing to accept after all.
    WouldBlock,
    /// Anything else.
    Other,
}

/// Is this accept error transient enough to keep serving through?
///
/// Running out of file descriptors or having a client hang up mid-handshake
/// must not take the control socket down for the life of the daemon.
pub fn accept_is_transient(fault: AcceptFault) -> (r: bool)
    ensures
        r == (fault != AcceptFault::Other),
{
    match fault {
        AcceptFault::Other => false,
        _ => true,
    }
}

/// Where the first newline is, or the length without one.
pub open spec fn newline_at(bytes: Seq<u8>) -> int
    decreases bytes.len(),
{
    if bytes.len() == 0 || bytes[0] == 0x0a {
        0
    } else {
        1 + newline_at(bytes.skip(1))
    }
}

proof fn newline_bounds(bytes: Seq<u8>)
    ensures
        0 <= newline_at(bytes) <= bytes.len(),
    decreases bytes.len(),
{
    if bytes.len() > 0 && bytes[0] != 0x0a {
        newline_bounds(bytes.skip(1));
    }
}

fn find_newline(bytes: &[u8]) -> (r: usize)
    ensures
        r == newline_at(bytes@),
        r <= bytes@.len(),
{
    let total: usize = bytes.len();
    let mut i: usize = 0;
    proof {
        assert(bytes@.skip(0) =~= bytes@);
    }
    while i < total && bytes[i] != 0x0a
        invariant
            total == bytes@.len(),
            i <= total,
            newline_at(bytes@) == i + newline_at(bytes@.skip(i as int)),
        decreases total - i,
    {
        proof {
            assert(bytes@.skip(i as int)[0] == bytes@[i as int]);
            assert(bytes@.skip(i as int).skip(1) =~= bytes@.skip(i + 1));
        }
        i += 1;
    }
    proof {
        if i < total {
            assert(bytes@.skip(i as int)[0] == bytes@[i as int]);
        }
    }
    i
}

/// What reading a line has come to.
#[derive(Debug, Clone, PartialEq, Eq)]
pub enum Line {
    /// The line goes on.
    More,
    /// A complete line, newline stripped.
    Got(String),
    /// The peer hung up between lines.
    Eof,
    /// The line ran past [`MAX_LINE`].
    TooLong,
}

/// A line reader's progress as mathematical values.
#[verifier::ext_equal]
pub enum LineModel {
    /// See [`Line::More`].
    More,
    /// See [`Line::Got`].
    Got(Seq<char>),
    /// See [`Line::Eof`].
    Eof,
    /// See [`Line::TooLong`].
    TooLong,
}

impl View for Line {
    type V = LineModel;

    open spec fn view(&self) -> LineModel {
        match *self {
            Line::More => LineModel::More,
            Line::Got(text) => LineModel::Got(text@),
            Line::Eof => LineModel::Eof,
            Line::TooLong => LineModel::TooLong,
        }
    }
}

/// What comes of more bytes: the bytes kept, how many were used, and the line.
/// No bytes at all means that the peer hung up.
pub open spec fn line_step(held: Seq<u8>, available: Seq<u8>) -> (Seq<u8>, nat, LineModel) {
    let at = newline_at(available);
    if available.len() == 0 {
        (
            Seq::empty(),
            0,
            if held.len() == 0 {
                LineModel::Eof
            } else {
                LineModel::Got(lossy_text(held))
            },
        )
    } else if held.len() + at > MAX_LINE {
        (held, 0, LineModel::TooLong)
    } else if at < available.len() {
        (Seq::empty(), (at + 1) as nat, LineModel::Got(lossy_text(held + available.take(at))))
    } else {
        (held + available, available.len(), LineModel::More)
    }
}

/// Reads newline-terminated lines, refusing to hold more than [`MAX_LINE`]
/// bytes of one.
#[derive(Debug)]
pub struct LineReader {
    held: Vec<u8>,
}

impl View for LineReader {
    type V = Seq<u8>;

    closed spec fn view(&self) -> Seq<u8> {
        self.held@
    }
}

impl LineReader {
    /// Nothing is held, or no more than a line may be long.
    pub open spec fn wf(self) -> bool {
        self@.len() <= MAX_LINE
    }

    /// Nothing read yet.
    pub fn new() -> (r: Self)
        ensures
            r.wf(),
            r@.len() == 0,
    {
        LineReader { held: Vec::new() }
    }

    /// Take in the bytes that are available; none means that the peer hung up.
    /// The result is what has come of the line, and how many bytes were used.
    pub fn feed(&mut self, available: &[u8]) -> (r: (Line, usize))
        requires
            old(self).wf(),
        ensures
            final(self).wf(),
            (final(self)@, r.1 as nat, r.0@) == line_step(old(self)@, available@),
    {
        let total: usize = available.len();
        if total == 0 {
            if self.held.len() == 0 {
                proof {
                    assert(self.held@ =~= Seq::empty());
                }
                return (Line::Eof, 0);
            }
            let text: String = text_lossy(self.held.as_slice());
            self.held = Vec::new();
            return (Line::Got(text), 0);
        }
        let at: usize = find_newline(available);
        proof {
            newline_bounds(available@);
        }
        if at > MAX_LINE - self.held.len() {
            return (Line::TooLong, 0);
        }
        let ghost before = self.held@;
        let mut i: usize = 0;
        proof {
            assert(before + available@.take(0) =~= before);
        }
        while i < at
            invariant
                i <= at <= available@.len(),
                self.held@ == before + available@.take(i as int),
            decreases at - i,
        {
            proof {
                assert((before + available@.take(i as int)).push(available@[i as int]) =~= before
                    + available@.take(i + 1));
            }
            self.held.push(available[i]);
            i += 1;
        }
        if at < total {
            let text: String = text_lossy(self.held.as_slice());
            self.held = Vec::new();
            (Line::Got(text), at + 1)
        } else {
            proof {
                assert(available@.take(at as int) =~= available@);
            }
            (Line::More, total)
        }
    }
}

/// The held part of a line never outgrows its limit, and a line that would is
/// refused without using a byte of it.
pub proof fn a_line_never_outgrows_its_limit(held: Seq<u8>, available: Seq<u8>)
    requires
        held.len() <= MAX_LINE,
    ensures
        line_step(held, available).0.len() <= MAX_LINE,
        line_step(held, available).1 <= available.len(),
        line_step(held, available).2 is TooLong ==> line_step(held, available).0 == held
            && line_step(held, available).1 == 0,
        available.len() > 0 && !(line_step(held, available).2 is TooLong) ==> line_step(
            held,
            available,
        ).1 > 0,
{
    newline_bounds(available);
}

proof fn newline_of_joined(a: Seq<u8>, b: Seq<u8>)
    ensures
        newline_at(a + b) == (if newline_at(a) < a.len() {
            newline_at(a)
        } else {
            a.len() + newline_at(b)
        }),
    decreases a.len(),
{
    newline_bounds(a);
    if a.len() == 0 {
        assert(a + b =~= b);
    } else {
        assert((a + b)[0] == a[0]);
        if a[0] != 0x0a {
            assert((a + b).skip(1) =~= a.skip(1) + b);
            newline_of_joined(a.skip(1), b);
        }
    }
}

/// How the bytes of a line are cut into pieces does not matter: a first piece
/// that leaves the line open, followed by a second one, comes to what both
/// come to at once, and a first piece that is too long is too long in any
/// case.
pub proof fn cuts_do_not_matter(held: Seq<u8>, first: Seq<u8>, second: Seq<u8>)
    requires
        first.len() > 0,
        second.len() > 0,
    ensures
        line_step(held, first).2 is More ==> line_step(line_step(held, first).0, second).2
            == line_step(held, first + second).2,
        line_step(held, first).2 is TooLong && newline_at(first) == first.len() ==> line_step(
            held,
            first + second,
        ).2 is TooLong,
{
    newline_bounds(first);
    newline_bounds(second);
    newline_of_joined(first, second);
    let at = newline_at(second);
    assert(held + (first + second).take(first.len() + at) =~= (held + first) + second.take(at));
}

/// How a client is served after one line.
#[derive(Debug, Clone, PartialEq, Eq)]
pub enum Serving {
    /// Answer with the published state.
    Status,
    /// Stream the published state until the client goes away.
    Stream,
    /// Hand the request to the supervisor.
    Dispatch(Request),
    /// Answer with this error.
    Refuse(String),
}

/// Whether a line holds nothing to serve.
pub fn is_blank(line: &str) -> (r: bool)
    ensures
        r == (trimmed(line@).len() == 0),
{
    trim(&chars_of(line)).len() == 0
}

/// How a client is served, given its request or why it is none.
pub fn serve_request(parsed: Result<Request, String>) -> (r: Serving)
    ensures
        match parsed {
            Ok(Request::Status) => r == Serving::Status,
            Ok(Request::Subscribe) => r == Serving::Stream,
            Ok(request) => r == Serving::Dispatch(request),
            Err(e) => r matches Serving::Refuse(why) && why@ == "bad request: "@ + e@,
        },
{
    match parsed {
        Ok(Request::Status) => Serving::Status,
        Ok(Request::Subscribe) => Serving::Stream,
        Ok(request) => Serving::Dispatch(request),
        Err(e) => {
            let mut text: String = "bad request: ".to_owned();
            text.append(e.as_str());
            Serving::Refuse(text)
        },
    }
}

/// The answer to a line that is too long; the connection ends with it.
pub fn too_long_answer() -> (r: Response)
    ensures
        r matches Response::Ack { ok: false, error: Some(text) } && text@ == "request too long"@,
{
    Response::error("request too long")
}

/// Why a request could not be queued: `None` means that the queue stayed full
/// until the deadline, `Some(false)` that nobody reads it any more.
pub fn queue_refusal(queued: Option<bool>) -> (r: Option<Response>)
    ensures
        match queued {
            Some(true) => r is None,
            Some(false) => r matches Some(Response::Ack { ok: false, error: Some(text) }) && text@
                == "daemon is shutting down"@,
            None => r matches Some(Response::Ack { ok: false, error: Some(text) }) && text@
                == "request expired before queueing"@,
        },
{
    match queued {
        Some(true) => None,
        Some(false) => Some(Response::error("daemon is shutting down")),
        None => Some(Response::error("request expired before queueing")),
    }
}

/// The answer to a queued request: `None` means that none came before the
/// deadline, `Some(None)` that the supervisor let the request go.
pub fn queued_answer(answer: Option<Option<Response>>) -> (r: Response)
    ensures
        match answer {
            Some(Some(response)) => r == response,
            Some(None) => r matches Response::Ack { ok: false, error: Some(text) } && text@
                == "daemon dropped the request"@,
            None => r matches Response::Ack { ok: false, error: Some(text) } && text@
                == "request timed out; an already-sent operation may still complete; no automatic retry"@,
        },
{
    match answer {
        Some(Some(response)) => response,
        Some(None) => Response::error("daemon dropped the request"),
        None => Response::error(
            "request timed out; an already-sent operation may still complete; no automatic retry",
        ),
    }
}

/// Path helper used by both programs.
pub fn default_socket(runtime_dir: &str) -> (r: String)
    ensures
        r@ == joined_path(runtime_dir@, "ctl.sock"@),
{
    socket_path(runtime_dir)
}

} // verus!
