//! The duplex pipe handle and its state machine.
//!
//! A [`Pipe`] owns a pipe name and two lazily established connection slots:
//! the writer (client role, brought up on first write) and the listener
//! (server role, brought up on first read). The OS transport is performed by
//! an unverified runner which reports each attempt's outcome as a plain
//! value; the handle's verified methods turn those outcomes into the new
//! handle state and the caller-visible result. A designated platform error
//! code met during a read is a graceful peer disconnect and is never
//! surfaced as an error.

use vstd::prelude::*;
use vstd::string::{StringSliceAdditionalSpecFns, StrSliceExecFns};
use crate::path_name::{SUFFIX_LEN, is_alnum_seq, pipe_path_spec, make_pipe_path, random_alphanumeric};

verus! {

/// Raw OS error code on which a failed read is treated as a graceful peer
/// disconnect rather than a failure.
pub const BROKEN_PIPE_RAW: i32 = 109;

/// Whether the named OS pipe object is deleted when the owning handle is
/// finally discarded, or left for external cleanup.
#[derive(Clone, Copy, Debug)]
pub enum OnCleanup {
    DeleteOnDrop,
    NoDelete,
}

/// A failed OS call, reduced to what the handle's rules read of it: the raw
/// platform error code, when the failure carries one.
#[derive(Clone, Copy, Debug)]
pub struct OsFailure {
    pub raw_code: Option<i32>,
}

/// Outcome of one attempt to bring up a connection (client connect, or
/// listener bind-and-accept), as the runner observed it.
#[derive(Clone, Copy, Debug)]
pub enum ConnectOutcome {
    Connected,
    ConnectFailed(OsFailure),
}

/// Outcome of one write on the established writer connection: how many bytes
/// the OS accepted, or the failure.
#[derive(Clone, Copy, Debug)]
pub enum WriteOutcome {
    Accepted(usize),
    WriteFailed(OsFailure),
}

/// Outcome of one read on the established listener connection: the bytes the
/// OS delivered, or the failure.
#[derive(Debug)]
pub enum ReadOutcome {
    Delivered(Vec<u8>),
    ReadFailed(OsFailure),
}

/// Outcome of one read into a caller-owned buffer: how many bytes the OS
/// delivered, or the failure.
#[derive(Clone, Copy, Debug)]
pub enum CountOutcome {
    Counted(usize),
    CountFailed(OsFailure),
}

/// Outcome of flushing the listener connection.
#[derive(Clone, Copy, Debug)]
pub enum FlushOutcome {
    Flushed,
    FlushFailed(OsFailure),
}

/// An error surfaced to the caller: the connection could not be brought up,
/// or the established transport failed for a reason that is not a graceful
/// disconnect.
#[derive(Clone, Copy, Debug)]
pub enum PipeError {
    ConnectionFailed(OsFailure),
    TransportFailed(OsFailure),
}

/// The abstract state of a handle: its name, which connection slots are
/// live, whether it was closed, whether its discard deletes the OS object,
/// and the log of every byte the transport has accepted from its writer.
#[verifier::ext_equal]
pub struct PipeView {
    pub path: Seq<u8>,
    pub writer: bool,
    pub listener: bool,
    pub closed: bool,
    pub delete_on_discard: bool,
    pub sent: Seq<u8>,
}

/// The pipe handle. All methods are total over every reported outcome; the
/// runner that performs the OS calls decides nothing.
pub struct Pipe {
    path: Vec<u8>,
    writer_live: bool,
    listener_live: bool,
    closed: bool,
    delete_on_discard: bool,
    sent: Ghost<Seq<u8>>,
}

impl View for Pipe {
    type V = PipeView;

    closed spec fn view(&self) -> PipeView {
        PipeView {
            path: self.path@,
            writer: self.writer_live,
            listener: self.listener_live,
            closed: self.closed,
            delete_on_discard: self.delete_on_discard,
            sent: self.sent@,
        }
    }
}

/// A failure met during a read that means the peer is gone, not that the
/// read went wrong: the designated broken-pipe code, or a failure that
/// carries no platform code at all.
pub open spec fn spec_graceful(f: OsFailure) -> bool {
    match f.raw_code {
        Option::None => true,
        Option::Some(c) => c == BROKEN_PIPE_RAW,
    }
}

/// The state of a handle freshly attached to `path`: no connections, not
/// closed, deleting on discard exactly when the policy asks for it.
pub open spec fn spec_open(path: Seq<u8>, on_cleanup: OnCleanup) -> PipeView {
    PipeView {
        path: path,
        writer: false,
        listener: false,
        closed: false,
        delete_on_discard: on_cleanup is DeleteOnDrop,
        sent: Seq::empty(),
    }
}

/// Closing drops both connections and marks the handle closed; the name and
/// the policy stay.
pub open spec fn spec_close(v: PipeView) -> PipeView {
    PipeView { writer: false, listener: false, closed: true, ..v }
}

/// A duplicate shares the name but starts with no connections and is marked
/// closed for cleanup purposes, so it never deletes the shared OS object.
pub open spec fn spec_clone(v: PipeView) -> PipeView {
    PipeView {
        path: v.path,
        writer: false,
        listener: false,
        closed: true,
        delete_on_discard: v.delete_on_discard,
        sent: Seq::empty(),
    }
}

/// Whether discarding the handle deletes the named OS object: only an
/// owning, never-closed handle under the deleting policy does.
pub open spec fn spec_should_delete(v: PipeView) -> bool {
    v.delete_on_discard && !v.closed
}

/// Writer bring-up: a live writer is reused and the outcome is ignored;
/// otherwise a successful connect fills the slot and a failure leaves the
/// state unchanged and surfaces as a connection error.
pub open spec fn spec_init_writer(v: PipeView, connect: ConnectOutcome) -> (PipeView, Result<
    (),
    PipeError,
>) {
    if v.writer {
        (v, Ok(()))
    } else {
        match connect {
            ConnectOutcome::Connected => (PipeView { writer: true, ..v }, Ok(())),
            ConnectOutcome::ConnectFailed(f) => (v, Err(PipeError::ConnectionFailed(f))),
        }
    }
}

/// Listener bring-up, the mirror image of writer bring-up.
pub open spec fn spec_init_listener(v: PipeView, accept: ConnectOutcome) -> (PipeView, Result<
    (),
    PipeError,
>) {
    if v.listener {
        (v, Ok(()))
    } else {
        match accept {
            ConnectOutcome::Connected => (PipeView { listener: true, ..v }, Ok(())),
            ConnectOutcome::ConnectFailed(f) => (v, Err(PipeError::ConnectionFailed(f))),
        }
    }
}

/// The prefix of `buf` that a write outcome accepting `n` bytes stands for;
/// a count beyond the buffer is read as the whole buffer.
pub open spec fn spec_accepted(buf: Seq<u8>, n: nat) -> Seq<u8> {
    if n <= buf.len() {
        buf.take(n as int)
    } else {
        buf
    }
}

/// `size` zero bytes.
pub open spec fn zero_bytes(size: nat) -> Seq<u8> {
    Seq::new(size, |i: int| 0u8)
}

/// A delivery padded to exactly `size` bytes: the delivered bytes, then
/// zeros; a delivery beyond `size` is cut to `size`.
pub open spec fn spec_padded(data: Seq<u8>, size: nat) -> Seq<u8> {
    if data.len() >= size {
        data.take(size as int)
    } else {
        data + zero_bytes((size - data.len()) as nat)
    }
}

/// One write: writer bring-up, then the accepted bytes are appended to the
/// sent log and their count returned; a transport failure is always an
/// error — writes never treat any failure as graceful.
pub open spec fn spec_write_bytes(
    v: PipeView,
    buf: Seq<u8>,
    connect: ConnectOutcome,
    outcome: WriteOutcome,
) -> (PipeView, Result<usize, PipeError>) {
    let (v1, c) = spec_init_writer(v, connect);
    match c {
        Err(e) => (v1, Err(e)),
        Ok(_) => match outcome {
            WriteOutcome::Accepted(n) => (
                PipeView { sent: v1.sent + spec_accepted(buf, n as nat), ..v1 },
                Ok(n),
            ),
            WriteOutcome::WriteFailed(f) => (v1, Err(PipeError::TransportFailed(f))),
        },
    }
}

/// One exact read of `size` bytes: listener bring-up, then the delivery
/// padded to `size`; a graceful failure yields `size` zero bytes, any other
/// failure is an error.
pub open spec fn spec_read_bytes(
    v: PipeView,
    size: nat,
    accept: ConnectOutcome,
    outcome: ReadOutcome,
) -> (PipeView, Result<Seq<u8>, PipeError>) {
    let (v1, c) = spec_init_listener(v, accept);
    match c {
        Err(e) => (v1, Err(e)),
        Ok(_) => match outcome {
            ReadOutcome::Delivered(data) => (v1, Ok(spec_padded(data@, size))),
            ReadOutcome::ReadFailed(f) => if spec_graceful(f) {
                (v1, Ok(zero_bytes(size)))
            } else {
                (v1, Err(PipeError::TransportFailed(f)))
            },
        },
    }
}

/// One single-byte read: the first delivered byte, or a zero byte when the
/// delivery is empty or the peer disconnected gracefully.
pub open spec fn spec_read_byte(v: PipeView, accept: ConnectOutcome, outcome: ReadOutcome) -> (
    PipeView,
    Result<u8, PipeError>,
) {
    let (v1, c) = spec_init_listener(v, accept);
    match c {
        Err(e) => (v1, Err(e)),
        Ok(_) => match outcome {
            ReadOutcome::Delivered(data) => (
                v1,
                Ok(if data@.len() >= 1 { data@[0] } else { 0u8 }),
            ),
            ReadOutcome::ReadFailed(f) => if spec_graceful(f) {
                (v1, Ok(0u8))
            } else {
                (v1, Err(PipeError::TransportFailed(f)))
            },
        },
    }
}

/// One generic stream read: the delivered count, where a graceful failure
/// becomes a zero count — end of stream, not an error.
pub open spec fn spec_stream_read(v: PipeView, accept: ConnectOutcome, outcome: CountOutcome) -> (
    PipeView,
    Result<usize, PipeError>,
) {
    let (v1, c) = spec_init_listener(v, accept);
    match c {
        Err(e) => (v1, Err(e)),
        Ok(_) => match outcome {
            CountOutcome::Counted(n) => (v1, Ok(n)),
            CountOutcome::CountFailed(f) => if spec_graceful(f) {
                (v1, Ok(0usize))
            } else {
                (v1, Err(PipeError::TransportFailed(f)))
            },
        },
    }
}

/// One flush: the writer connection is torn down and re-established from
/// the reported connect outcome — also establishing it where none was live —
/// and then a live listener is flushed.
pub open spec fn spec_flush(v: PipeView, connect: ConnectOutcome, outcome: FlushOutcome) -> (
    PipeView,
    Result<(), PipeError>,
) {
    let torn = PipeView { writer: false, ..v };
    match connect {
        ConnectOutcome::ConnectFailed(f) => (torn, Err(PipeError::ConnectionFailed(f))),
        ConnectOutcome::Connected => {
            let v1 = PipeView { writer: true, ..torn };
            if v.listener {
                match outcome {
                    FlushOutcome::Flushed => (v1, Ok(())),
                    FlushOutcome::FlushFailed(f) => (v1, Err(PipeError::TransportFailed(f))),
                }
            } else {
                (v1, Ok(()))
            }
        },
    }
}

/// Name for what std's lossy UTF-8 decoding returns: a function of the
/// bytes alone.
pub uninterp spec fn lossy_decode(bytes: Seq<u8>) -> Seq<char>;

/// Relies on std's String::from_utf8_lossy: the decoding depends on the
/// bytes alone, and empty bytes decode to the empty string.
#[verifier::external_body]
fn utf8_lossy(bytes: &Vec<u8>) -> (r: String)
    ensures
        r@ == lossy_decode(bytes@),
        bytes@.len() == 0 ==> r@.len() == 0,
{
    String::from_utf8_lossy(bytes).into_owned()
}

/// Whether `f` is a graceful peer disconnect.
pub fn is_graceful_failure(f: &OsFailure) -> (b: bool)
    ensures
        b == spec_graceful(*f),
{
    match f.raw_code {
        Option::None => true,
        Option::Some(c) => c == BROKEN_PIPE_RAW,
    }
}

/// Pads (or cuts) a delivery to exactly `size` bytes.
fn pad_to(data: &Vec<u8>, size: usize) -> (r: Vec<u8>)
    ensures
        r@ == spec_padded(data@, size as nat),
{
    let mut r: Vec<u8> = Vec::new();
    let mut i: usize = 0;
    while i < size
        invariant
            i <= size,
            r@.len() == i,
            forall|j: int|
                0 <= j < i ==> r@[j] == (if j < data@.len() {
                    data@[j]
                } else {
                    0u8
                }),
        decreases size - i,
    {
        if i < data.len() {
            let b = data[i];
            r.push(b);
        } else {
            r.push(0);
        }
        i = i + 1;
    }
    proof {
        assert(r@ =~= spec_padded(data@, size as nat));
    }
    r
}

impl Pipe {
    /// Attaches to an existing pipe name. Nothing is validated and no
    /// connection is made: first use does both. Always succeeds.
    pub fn open(path: Vec<u8>, on_cleanup: OnCleanup) -> (r: Result<Pipe, PipeError>)
        ensures
            r matches Ok(p) && p@ == spec_open(path@, on_cleanup),
    {
        let delete = match on_cleanup {
            OnCleanup::DeleteOnDrop => true,
            OnCleanup::NoDelete => false,
        };
        Ok(
            Pipe {
                path,
                writer_live: false,
                listener_live: false,
                closed: false,
                delete_on_discard: delete,
                sent: Ghost(Seq::empty()),
            },
        )
    }

    /// Creates a pipe under a fresh anonymous name: the process identifier
    /// combined with a fixed-length random alphanumeric suffix, so that
    /// collisions between live pipes are overwhelmingly unlikely. Always
    /// succeeds.
    pub fn create(process_id: u64, on_cleanup: OnCleanup) -> (r: Result<Pipe, PipeError>)
        ensures
            r matches Ok(p) && p@ == spec_open(p@.path, on_cleanup),
            r matches Ok(p) && (exists|suffix: Seq<u8>|
                #![auto]
                suffix.len() == SUFFIX_LEN && is_alnum_seq(suffix) && p@.path == pipe_path_spec(
                    process_id,
                    suffix,
                )),
    {
        let suffix = random_alphanumeric(SUFFIX_LEN);
        let path = make_pipe_path(process_id, &suffix);
        let r = Pipe::open(path, on_cleanup);
        proof {
            let p = r->Ok_0;
            assert(suffix@.len() == SUFFIX_LEN && is_alnum_seq(suffix@) && p@ == spec_open(
                pipe_path_spec(process_id, suffix@),
                on_cleanup,
            ));
        }
        r
    }

    /// Marks the handle closed and drops both connections. Idempotent, and
    /// always succeeds.
    pub fn close(&mut self) -> (r: Result<(), PipeError>)
        ensures
            r is Ok,
            final(self)@ == spec_close(old(self)@),
    {
        self.closed = true;
        self.writer_live = false;
        self.listener_live = false;
        Ok(())
    }

    /// Brings up the writer connection if none is live, from the reported
    /// connect outcome.
    fn init_reader(&mut self, connect: ConnectOutcome) -> (r: Result<(), PipeError>)
        ensures
            final(self)@ == spec_init_writer(old(self)@, connect).0,
            r == spec_init_writer(old(self)@, connect).1,
    {
        if self.writer_live {
            Ok(())
        } else {
            match connect {
                ConnectOutcome::Connected => {
                    self.writer_live = true;
                    Ok(())
                },
                ConnectOutcome::ConnectFailed(f) => Err(PipeError::ConnectionFailed(f)),
            }
        }
    }

    /// Brings up the listener connection if none is live, from the reported
    /// bind-and-accept outcome.
    fn init_listener(&mut self, accept: ConnectOutcome) -> (r: Result<(), PipeError>)
        ensures
            final(self)@ == spec_init_listener(old(self)@, accept).0,
            r == spec_init_listener(old(self)@, accept).1,
    {
        if self.listener_live {
            Ok(())
        } else {
            match accept {
                ConnectOutcome::Connected => {
                    self.listener_live = true;
                    Ok(())
                },
                ConnectOutcome::ConnectFailed(f) => Err(PipeError::ConnectionFailed(f)),
            }
        }
    }

    /// Writes a byte buffer: brings up the writer if needed, then returns
    /// how many bytes the transport accepted. Any transport failure is an
    /// error — writes never treat a failure as graceful.
    pub fn write_bytes(&mut self, buf: &Vec<u8>, connect: ConnectOutcome, outcome: WriteOutcome) -> (
        r: Result<usize, PipeError>
    )
        ensures
            final(self)@ == spec_write_bytes(old(self)@, buf@, connect, outcome).0,
            r == spec_write_bytes(old(self)@, buf@, connect, outcome).1,
    {
        match self.init_reader(connect) {
            Err(e) => Err(e),
            Ok(_) => match outcome {
                WriteOutcome::Accepted(n) => {
                    proof {
                        self.sent@ = self.sent@ + spec_accepted(buf@, n as nat);
                    }
                    Ok(n)
                },
                WriteOutcome::WriteFailed(f) => Err(PipeError::TransportFailed(f)),
            },
        }
    }

    /// Writes a single byte, as a one-byte buffer write.
    pub fn write_byte(&mut self, b: u8, connect: ConnectOutcome, outcome: WriteOutcome) -> (r:
        Result<usize, PipeError>)
        ensures
            final(self)@ == spec_write_bytes(old(self)@, seq![b], connect, outcome).0,
            r == spec_write_bytes(old(self)@, seq![b], connect, outcome).1,
    {
        let mut buf: Vec<u8> = Vec::new();
        buf.push(b);
        proof {
            assert(buf@ =~= seq![b]);
        }
        self.write_bytes(&buf, connect, outcome)
    }

    /// Writes a string as its UTF-8 bytes.
    pub fn write_string(&mut self, s: &str, connect: ConnectOutcome, outcome: WriteOutcome) -> (r:
        Result<usize, PipeError>)
        ensures
            final(self)@ == spec_write_bytes(old(self)@, s.spec_bytes(), connect, outcome).0,
            r == spec_write_bytes(old(self)@, s.spec_bytes(), connect, outcome).1,
    {
        let buf = s.as_bytes_vec();
        self.write_bytes(&buf, connect, outcome)
    }

    /// Reads one byte: brings up the listener if needed, then hands back the
    /// first delivered byte. An empty delivery or a graceful peer disconnect
    /// yields a zero byte and no error.
    pub fn read_byte(&mut self, accept: ConnectOutcome, outcome: ReadOutcome) -> (r: Result<
        u8,
        PipeError,
    >)
        ensures
            final(self)@ == spec_read_byte(old(self)@, accept, outcome).0,
            r == spec_read_byte(old(self)@, accept, outcome).1,
    {
        match self.init_listener(accept) {
            Err(e) => Err(e),
            Ok(_) => match outcome {
                ReadOutcome::Delivered(data) => if data.len() >= 1 {
                    Ok(data[0])
                } else {
                    Ok(0)
                },
                ReadOutcome::ReadFailed(f) => if is_graceful_failure(&f) {
                    Ok(0)
                } else {
                    Err(PipeError::TransportFailed(f))
                },
            },
        }
    }

    /// Reads exactly `size` bytes into a fresh buffer: the delivered bytes,
    /// zero-padded when the peer sent fewer — in particular a graceful
    /// disconnect yields `size` zero bytes and no error.
    pub fn read_bytes(&mut self, size: usize, accept: ConnectOutcome, outcome: ReadOutcome) -> (r:
        Result<Vec<u8>, PipeError>)
        ensures
            final(self)@ == spec_read_bytes(old(self)@, size as nat, accept, outcome).0,
            r is Ok <==> spec_read_bytes(old(self)@, size as nat, accept, outcome).1 is Ok,
            r matches Ok(b) ==> b@ == spec_read_bytes(old(self)@, size as nat, accept, outcome).1
                -> Ok_0,
            r matches Err(e) ==> e == spec_read_bytes(old(self)@, size as nat, accept, outcome).1
                -> Err_0,
    {
        match self.init_listener(accept) {
            Err(e) => Err(e),
            Ok(_) => match outcome {
                ReadOutcome::Delivered(data) => Ok(pad_to(&data, size)),
                ReadOutcome::ReadFailed(f) => if is_graceful_failure(&f) {
                    let empty: Vec<u8> = Vec::new();
                    let zeros = pad_to(&empty, size);
                    proof {
                        assert(zeros@ =~= zero_bytes(size as nat));
                    }
                    Ok(zeros)
                } else {
                    Err(PipeError::TransportFailed(f))
                },
            },
        }
    }

    /// Reads exactly `size` bytes and decodes them as UTF-8, substituting
    /// the replacement character for invalid sequences.
    pub fn read_string(&mut self, size: usize, accept: ConnectOutcome, outcome: ReadOutcome) -> (r:
        Result<String, PipeError>)
        ensures
            final(self)@ == spec_read_bytes(old(self)@, size as nat, accept, outcome).0,
            r is Ok <==> spec_read_bytes(old(self)@, size as nat, accept, outcome).1 is Ok,
            r matches Ok(s) ==> s@ == lossy_decode(
                spec_read_bytes(old(self)@, size as nat, accept, outcome).1->Ok_0,
            ),
            r matches Err(e) ==> e == spec_read_bytes(old(self)@, size as nat, accept, outcome).1
                -> Err_0,
    {
        match self.read_bytes(size, accept, outcome) {
            Err(e) => Err(e),
            Ok(buf) => Ok(utf8_lossy(&buf)),
        }
    }

    /// The generic stream read: hands back the delivered count, where a
    /// graceful peer disconnect becomes a zero count — end of stream, never
    /// an error.
    pub fn read(&mut self, accept: ConnectOutcome, outcome: CountOutcome) -> (r: Result<
        usize,
        PipeError,
    >)
        ensures
            final(self)@ == spec_stream_read(old(self)@, accept, outcome).0,
            r == spec_stream_read(old(self)@, accept, outcome).1,
    {
        match self.init_listener(accept) {
            Err(e) => Err(e),
            Ok(_) => match outcome {
                CountOutcome::Counted(n) => Ok(n),
                CountOutcome::CountFailed(f) => if is_graceful_failure(&f) {
                    Ok(0)
                } else {
                    Err(PipeError::TransportFailed(f))
                },
            },
        }
    }

    /// Flushes: tears the writer connection down and re-establishes it from
    /// the reported outcome — establishing one even where none was live —
    /// then flushes the listener if one is live.
    pub fn flush_pipe(&mut self, connect: ConnectOutcome, outcome: FlushOutcome) -> (r: Result<
        (),
        PipeError,
    >)
        ensures
            final(self)@ == spec_flush(old(self)@, connect, outcome).0,
            r == spec_flush(old(self)@, connect, outcome).1,
    {
        self.writer_live = false;
        match self.init_reader(connect) {
            Err(e) => Err(e),
            Ok(_) => {
                if self.listener_live {
                    match outcome {
                        FlushOutcome::Flushed => Ok(()),
                        FlushOutcome::FlushFailed(f) => Err(PipeError::TransportFailed(f)),
                    }
                } else {
                    Ok(())
                }
            },
        }
    }

    /// The pipe name this handle is attached to.
    pub fn path(&self) -> (r: &Vec<u8>)
        ensures
            r@ == self@.path,
    {
        &self.path
    }

    /// Whether the handle was closed (or is a duplicate, which is born
    /// closed for cleanup purposes).
    pub fn is_closed(&self) -> (b: bool)
        ensures
            b == self@.closed,
    {
        self.closed
    }

    /// Whether the writer connection is live.
    pub fn writer_connected(&self) -> (b: bool)
        ensures
            b == self@.writer,
    {
        self.writer_live
    }

    /// Whether the listener connection is live.
    pub fn listener_connected(&self) -> (b: bool)
        ensures
            b == self@.listener,
    {
        self.listener_live
    }

    /// Whether discarding this handle must delete the named OS object.
    pub fn should_delete_on_discard(&self) -> (b: bool)
        ensures
            b == spec_should_delete(self@),
    {
        self.delete_on_discard && !self.closed
    }
}

impl Clone for Pipe {
    /// Duplicates the handle: the duplicate shares the path but starts with
    /// no connections and is marked closed, so its discard never deletes the
    /// shared OS object.
    fn clone(&self) -> (r: Self)
        ensures
            r@ == spec_clone(self@),
    {
        Pipe {
            path: self.path.clone(),
            writer_live: false,
            listener_live: false,
            closed: true,
            delete_on_discard: self.delete_on_discard,
            sent: Ghost(Seq::empty()),
        }
    }
}

/// Closing is idempotent: a second close finds the handle already closed
/// and leaves it in exactly the same state — and `close` itself always
/// returns success.
pub proof fn lemma_close_idempotent(v: PipeView)
    ensures
        spec_close(spec_close(v)) == spec_close(v),
{
}

/// A duplicated handle never triggers deletion of the underlying OS object
/// on discard, whatever the original's cleanup policy — while it still
/// addresses the same pipe name.
pub proof fn lemma_clone_never_deletes(v: PipeView)
    ensures
        !spec_should_delete(spec_clone(v)),
        spec_clone(v).path == v.path,
{
}

/// Round trip at the handle level: a write whose bytes the transport
/// accepts in full logs exactly `b` as sent and reports its full length,
/// and an exact read of a delivery of those same bytes hands them back
/// unchanged.
pub proof fn lemma_round_trip(
    w: PipeView,
    v: PipeView,
    wc: ConnectOutcome,
    rc: ConnectOutcome,
    b: Vec<u8>,
    n: usize,
)
    requires
        n == b@.len(),
        w.writer || wc is Connected,
        v.listener || rc is Connected,
    ensures
        spec_write_bytes(w, b@, wc, WriteOutcome::Accepted(n)).0.sent == w.sent + b@,
        spec_write_bytes(w, b@, wc, WriteOutcome::Accepted(n)).1 == Ok::<usize, PipeError>(n),
        spec_read_bytes(v, n as nat, rc, ReadOutcome::Delivered(b)).1 == Ok::<Seq<u8>, PipeError>(
            b@,
        ),
{
    assert(spec_accepted(b@, n as nat) =~= b@);
    assert(spec_padded(b@, n as nat) =~= b@);
}

/// A graceful peer disconnect mid-read is invisible as an error: the exact
/// byte read yields a zero byte, and the generic stream read yields a zero
/// count.
pub proof fn lemma_graceful_disconnect(v: PipeView, accept: ConnectOutcome, f: OsFailure)
    requires
        v.listener || accept is Connected,
        spec_graceful(f),
    ensures
        spec_read_byte(v, accept, ReadOutcome::ReadFailed(f)).1 == Ok::<u8, PipeError>(0u8),
        spec_stream_read(v, accept, CountOutcome::CountFailed(f)).1 == Ok::<usize, PipeError>(
            0usize,
        ),
{
}

/// Flushing establishes the writer connection as a side effect: after a
/// flush whose reconnect succeeded — also on a handle with no prior writer
/// connection — a write needs no further connect and succeeds whenever the
/// transport accepts its bytes.
pub proof fn lemma_flush_then_write_succeeds(
    v: PipeView,
    fo: FlushOutcome,
    buf: Seq<u8>,
    c2: ConnectOutcome,
    n: usize,
)
    requires
        spec_flush(v, ConnectOutcome::Connected, fo).1 is Ok,
    ensures
        spec_flush(v, ConnectOutcome::Connected, fo).0.writer,
        spec_write_bytes(
            spec_flush(v, ConnectOutcome::Connected, fo).0,
            buf,
            c2,
            WriteOutcome::Accepted(n),
        ).1 == Ok::<usize, PipeError>(n),
{
}

} // verus!
