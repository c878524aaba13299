//! Where frames come from: a datagram endpoint or a file played in a loop.
//!
//! The library decides how a source is to be opened and what each outcome of
//! a read means. Opening, reading and seeking are done by the caller.

use vstd::prelude::*;

verus! {

/// Bytes asked of the operating system for the socket's receive buffer, and
/// held by the buffered reader of a file.
pub const IO_BUFFER_SIZE: usize = 1048576;

/// Longest wait for a datagram, in milliseconds.
pub const READ_TIMEOUT_MS: u64 = 1000;

/// Stream source options.
#[derive(Debug, PartialEq, Eq)]
pub struct SourceOpts {
    /// The local IPv4 address to receive streaming data on, as four octets.
    pub ip: [u8; 4],
    /// The UDP port to receive streaming data on.
    pub port: u16,
    /// Use frames from the given file.
    pub file: Option<String>,
    /// Frame size in the file, in bytes.
    pub frame_size: usize,
}

impl Default for SourceOpts {
    /// Any address, port 9293, no file, frames of 1400 bytes.
    fn default() -> (opts: Self)
        ensures
            opts.ip@ == seq![0u8, 0u8, 0u8, 0u8],
            opts.port == 9293,
            opts.file is None,
            opts.frame_size == 1400,
    {
        SourceOpts { ip: [0u8, 0u8, 0u8, 0u8], port: 9293, file: None, frame_size: 1400 }
    }
}

/// How to bind the datagram endpoint.
#[derive(Clone, Copy, Debug, PartialEq, Eq)]
pub struct Endpoint {
    /// Local address, as four octets.
    pub ip: [u8; 4],
    /// Local port.
    pub port: u16,
    /// Size hint for the receive buffer, in bytes.
    pub recv_buffer_size: usize,
    /// Bound on the wait of one receive, in milliseconds.
    pub read_timeout_ms: u64,
}

/// How to open the file.
#[derive(Debug, PartialEq, Eq)]
pub struct Replay {
    /// Path of the file.
    pub path: String,
    /// Capacity of the buffered reader, in bytes.
    pub capacity: usize,
}

/// A stream source: network receipt, or replay of a file in frames of a
/// fixed size.
#[derive(Debug, PartialEq, Eq)]
pub enum Source {
    /// Datagrams received on an endpoint.
    Udp(Endpoint),
    /// A file and the size of a frame in it, in bytes.
    File(Replay, usize),
}

/// How one attempt to read ended.
#[derive(Clone, Copy, Debug, PartialEq, Eq, Structural)]
pub enum ReadOutcome {
    /// The read succeeded; a receive reports how many bytes came.
    Filled(usize),
    /// The input ended before the request was met.
    EndOfInput,
    /// The wait for data ran out.
    TimedOut,
    /// Any other failure.
    Failed,
}

/// What the source makes of a read.
#[derive(Clone, Copy, Debug, PartialEq, Eq, Structural)]
pub enum Fetch {
    /// The buffer holds a frame of this many bytes.
    Frame(usize),
    /// Seek to the start of the file and read again.
    Rewind,
    /// No data this time; not an error.
    Idle,
    /// The source is broken; give up.
    Fatal,
}

impl Source {
    /// The source that `opts` selects: the file if one is named, else the
    /// datagram endpoint.
    pub open spec fn spec_new(opts: SourceOpts) -> Source {
        match opts.file {
            Some(path) => Source::File(
                Replay { path, capacity: IO_BUFFER_SIZE },
                opts.frame_size,
            ),
            None => Source::Udp(
                Endpoint {
                    ip: opts.ip,
                    port: opts.port,
                    recv_buffer_size: IO_BUFFER_SIZE,
                    read_timeout_ms: READ_TIMEOUT_MS,
                },
            ),
        }
    }

    /// Selects the source and fixes its buffer sizes and timeout.
    pub fn new(opts: &SourceOpts) -> (source: Self)
        ensures
            source == Self::spec_new(*opts),
    {
        match &opts.file {
            Some(path) => Source::File(
                Replay { path: path.clone(), capacity: IO_BUFFER_SIZE },
                opts.frame_size,
            ),
            None => Source::Udp(
                Endpoint {
                    ip: opts.ip,
                    port: opts.port,
                    recv_buffer_size: IO_BUFFER_SIZE,
                    read_timeout_ms: READ_TIMEOUT_MS,
                },
            ),
        }
    }

    /// Whether one read fits a buffer of `capacity` bytes.
    pub open spec fn spec_fits(&self, capacity: usize) -> bool {
        match *self {
            Source::File(_, frame_size) => frame_size <= capacity,
            Source::Udp(_) => true,
        }
    }

    /// Whether one read fits a buffer of `capacity` bytes: a file's frame
    /// must, a datagram is cut to the buffer.
    #[verifier::when_used_as_spec(spec_fits)]
    pub fn fits(&self, capacity: usize) -> (fits: bool)
        ensures
            fits == self.spec_fits(capacity),
    {
        match self {
            Source::File(_, frame_size) => *frame_size <= capacity,
            Source::Udp(_) => true,
        }
    }

    /// Bytes to ask for in one read into a buffer of `capacity` bytes.
    pub open spec fn spec_request(&self, capacity: usize) -> usize {
        match *self {
            Source::File(_, frame_size) => frame_size,
            Source::Udp(_) => capacity,
        }
    }

    /// Bytes to ask for in one read into a buffer of `capacity` bytes: the
    /// frame size of a file, the whole buffer for a datagram. Where the
    /// source fits the buffer, so does the read.
    #[verifier::when_used_as_spec(spec_request)]
    pub fn request(&self, capacity: usize) -> (len: usize)
        ensures
            len == self.spec_request(capacity),
            self.fits(capacity) ==> len <= capacity,
    {
        match self {
            Source::File(_, frame_size) => *frame_size,
            Source::Udp(_) => capacity,
        }
    }

    /// What `outcome` means for this source.
    pub open spec fn spec_get(&self, outcome: ReadOutcome) -> Fetch {
        match *self {
            Source::File(_, frame_size) => match outcome {
                ReadOutcome::Filled(_) => Fetch::Frame(frame_size),
                ReadOutcome::EndOfInput => Fetch::Rewind,
                ReadOutcome::TimedOut => Fetch::Fatal,
                ReadOutcome::Failed => Fetch::Fatal,
            },
            Source::Udp(_) => match outcome {
                ReadOutcome::Filled(len) => Fetch::Frame(len),
                ReadOutcome::TimedOut => Fetch::Idle,
                ReadOutcome::EndOfInput => Fetch::Fatal,
                ReadOutcome::Failed => Fetch::Fatal,
            },
        }
    }

    /// Decides what follows a read.
    ///
    /// A file yields a frame of its fixed size whenever the read succeeded,
    /// is rewound when the input ended, and fails on anything else. A
    /// datagram endpoint yields what was received, stays idle on a timeout,
    /// and fails on anything else.
    #[verifier::when_used_as_spec(spec_get)]
    pub fn get(&self, outcome: ReadOutcome) -> (fetch: Fetch)
        ensures
            fetch == self.spec_get(outcome),
    {
        match self {
            Source::File(_, frame_size) => match outcome {
                ReadOutcome::Filled(_) => Fetch::Frame(*frame_size),
                ReadOutcome::EndOfInput => Fetch::Rewind,
                ReadOutcome::TimedOut => Fetch::Fatal,
                ReadOutcome::Failed => Fetch::Fatal,
            },
            Source::Udp(_) => match outcome {
                ReadOutcome::Filled(len) => Fetch::Frame(len),
                ReadOutcome::TimedOut => Fetch::Idle,
                ReadOutcome::EndOfInput => Fetch::Fatal,
                ReadOutcome::Failed => Fetch::Fatal,
            },
        }
    }
}

} // verus!
