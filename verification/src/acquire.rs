//! The acquisition loop as a state machine.
//!
//! The loop alternates work that only its surroundings can do (poll the
//! command channel, read the source, decode a buffer, feed the accumulators,
//! publish a snapshot) with decisions. The decisions are here: the machine
//! names the next piece of work as an [`Action`], and is told how it went by
//! an [`Event`].

use crate::channel::{Cmd, Delivery, TryRecv};
use crate::source::{Fetch, ReadOutcome, Source, SourceOpts};
use vstd::prelude::*;

verus! {

/// Number of channels in a frame, and of accumulators in the bank.
pub const CHANNELS: usize = 4;

/// Stage length that every accumulator is built with.
pub const STAGE_LENGTH: usize = 3;

/// A snapshot is published once more than this many frames were counted.
pub const PUBLISH_THRESHOLD: usize = 100;

/// Length of the buffer that every read fills.
pub const BUFFER_LEN: usize = 2048;

/// Options of the program.
#[derive(Debug, PartialEq, Eq)]
pub struct Opts {
    /// Where the frames come from.
    pub source: SourceOpts,
    /// Least number of averages that a segment of an estimate must have.
    pub min_avg: usize,
}

impl Default for Opts {
    /// The default source and at least four averages.
    fn default() -> (opts: Self)
        ensures
            opts.source.ip@ == seq![0u8, 0u8, 0u8, 0u8],
            opts.source.port == 9293,
            opts.source.file is None,
            opts.source.frame_size == 1400,
            opts.min_avg == 4,
    {
        Opts { source: SourceOpts::default(), min_avg: 4 }
    }
}

/// How an accumulator removes the trend of a segment before transforming it.
#[derive(Clone, Copy, Debug, PartialEq, Eq, Structural)]
pub enum Detrend {
    /// Not at all.
    Off,
    /// By subtracting the midpoint of the segment.
    Mid,
    /// By subtracting the line through its first and last sample.
    Span,
    /// By subtracting its mean.
    Mean,
}

/// What a fresh bank of accumulators is built from.
#[derive(Clone, Copy, Debug, PartialEq, Eq, Structural)]
pub struct BankConfig {
    /// Number of accumulators.
    pub channels: usize,
    /// Stage length of each.
    pub stage_length: usize,
    /// Detrending of each.
    pub detrend: Detrend,
}

/// The bank of accumulators, as far as the loop cares: absent, or present
/// with the number of frames counted since it was built or last published.
#[derive(Clone, Copy, Debug, PartialEq, Eq, Structural)]
pub enum Bank {
    /// No accumulators: before the first frame, and after a reset.
    Empty,
    /// A full set of accumulators, and the frames counted.
    Ready(usize),
}

/// Why the loop ended.
#[derive(Clone, Copy, Debug, PartialEq, Eq, Structural)]
pub enum Ending {
    /// An exit command came, or the controller hung up.
    Commanded,
    /// The source failed for good.
    SourceFailed,
}

/// The piece of work whose outcome the loop waits for.
#[derive(Clone, Copy, Debug, PartialEq, Eq, Structural)]
pub enum Phase {
    /// Polling the command channel, at the top of every round.
    Polling,
    /// Building fresh accumulators.
    Preparing,
    /// Reading the source.
    Fetching,
    /// Seeking the file to its start.
    Rewinding,
    /// Decoding a buffer of this many bytes.
    Decoding(usize),
    /// Feeding a frame to the accumulators.
    Ingesting,
    /// Offering a snapshot to the handoff channel.
    Publishing,
    /// Nothing more: the loop has ended.
    Stopped(Ending),
}

/// How a piece of work went.
#[derive(Debug, PartialEq, Eq)]
pub enum Event {
    /// The command channel was polled.
    Polled(TryRecv<Cmd>),
    /// Fresh accumulators are in place.
    Prepared,
    /// The source was read.
    Read(ReadOutcome),
    /// The file was sought to its start, or could not be.
    Rewound(bool),
    /// The buffer was decoded into a frame, or was not one.
    Decoded(bool),
    /// The frame went to the loss tracker and to every accumulator.
    Ingested,
    /// A snapshot was offered to the handoff channel.
    Published(Delivery),
}

/// The next piece of work.
#[derive(Clone, Copy, Debug, PartialEq, Eq, Structural)]
pub enum Action {
    /// Poll the command channel without waiting.
    Poll,
    /// Replace the bank by fresh accumulators.
    Instantiate(BankConfig),
    /// Read this many bytes from the source into the buffer.
    Read(usize),
    /// Seek the file to its start.
    Rewind,
    /// Decode this many bytes of the buffer.
    Decode(usize),
    /// Hand the frame to the loss tracker and each channel to its
    /// accumulator.
    Ingest,
    /// Query every accumulator with this least number of averages and offer
    /// the snapshot to the handoff channel.
    Publish(usize),
    /// Report the loss statistics and leave.
    Finish(Ending),
}

/// An event that does not answer the action the loop waits for.
#[derive(Clone, Copy, Debug, PartialEq, Eq, Structural)]
pub struct OutOfTurn;

/// The state of the loop.
pub struct LoopState {
    /// What the loop waits for.
    pub phase: Phase,
    /// The accumulators and their frame count.
    pub bank: Bank,
    /// The source that is read.
    pub source: Source,
    /// Least number of averages asked of every estimate.
    pub min_avg: usize,
}

impl BankConfig {
    /// The one configuration the loop uses.
    pub open spec fn standard() -> BankConfig {
        BankConfig { channels: CHANNELS, stage_length: STAGE_LENGTH, detrend: Detrend::Mid }
    }
}

impl LoopState {
    /// Frames counted since the bank was built or last published; none
    /// while there is no bank.
    pub open spec fn frames(self) -> nat {
        match self.bank {
            Bank::Empty => 0,
            Bank::Ready(frames) => frames as nat,
        }
    }

    /// What holds of every state the loop can be in.
    pub open spec fn inv(self) -> bool {
        &&& self.source.fits(BUFFER_LEN)
        &&& self.frames() <= PUBLISH_THRESHOLD
        &&& match self.phase {
            Phase::Polling => true,
            Phase::Preparing => self.bank is Empty,
            Phase::Fetching => self.bank is Ready,
            Phase::Rewinding => self.bank is Ready && self.source is File,
            Phase::Decoding(len) => self.bank is Ready && len <= BUFFER_LEN,
            Phase::Ingesting => self.bank is Ready,
            Phase::Publishing => self.bank == Bank::Ready(0),
            Phase::Stopped(_) => true,
        }
    }

    /// The state before the first poll.
    pub open spec fn initial(source: Source, min_avg: usize) -> LoopState {
        LoopState { phase: Phase::Polling, bank: Bank::Empty, source, min_avg }
    }

    /// The work this state waits for.
    pub open spec fn awaits(self) -> Action {
        match self.phase {
            Phase::Polling => Action::Poll,
            Phase::Preparing => Action::Instantiate(BankConfig::standard()),
            Phase::Fetching => Action::Read(self.source.request(BUFFER_LEN)),
            Phase::Rewinding => Action::Rewind,
            Phase::Decoding(len) => Action::Decode(len),
            Phase::Ingesting => Action::Ingest,
            Phase::Publishing => Action::Publish(self.min_avg),
            Phase::Stopped(ending) => Action::Finish(ending),
        }
    }

    /// The state after a poll of the command channel.
    pub open spec fn polled(self, found: TryRecv<Cmd>) -> LoopState {
        match found {
            TryRecv::Item(Cmd::Exit) => LoopState {
                phase: Phase::Stopped(Ending::Commanded),
                ..self
            },
            TryRecv::Disconnected => LoopState { phase: Phase::Stopped(Ending::Commanded), ..self },
            TryRecv::Item(Cmd::Reset) => LoopState {
                phase: Phase::Preparing,
                bank: Bank::Empty,
                ..self
            },
            TryRecv::Empty => match self.bank {
                Bank::Empty => LoopState { phase: Phase::Preparing, ..self },
                Bank::Ready(_) => LoopState { phase: Phase::Fetching, ..self },
            },
        }
    }

    /// The state after a read of the source, if the read can have happened:
    /// no read brings more bytes than were asked for.
    pub open spec fn read(self, outcome: ReadOutcome) -> Option<LoopState> {
        if outcome matches ReadOutcome::Filled(len) && len > self.source.request(BUFFER_LEN) {
            None
        } else {
            Some(
                match self.source.get(outcome) {
                    Fetch::Frame(len) => LoopState { phase: Phase::Decoding(len), ..self },
                    Fetch::Rewind => LoopState { phase: Phase::Rewinding, ..self },
                    Fetch::Idle => LoopState { phase: Phase::Polling, ..self },
                    Fetch::Fatal => LoopState {
                        phase: Phase::Stopped(Ending::SourceFailed),
                        ..self
                    },
                },
            )
        }
    }

    /// The state after a frame went to the accumulators: the count rises by
    /// one, and once it is past the threshold it falls back to zero and a
    /// snapshot is due.
    pub open spec fn ingested(self) -> LoopState {
        if self.frames() + 1 > PUBLISH_THRESHOLD {
            LoopState { phase: Phase::Publishing, bank: Bank::Ready(0), ..self }
        } else {
            LoopState {
                phase: Phase::Polling,
                bank: Bank::Ready((self.frames() + 1) as usize),
                ..self
            }
        }
    }

    /// The state that follows `self` on `event`, if `event` answers the work
    /// that `self` waits for.
    pub open spec fn next(self, event: Event) -> Option<LoopState> {
        match (self.phase, event) {
            (Phase::Polling, Event::Polled(found)) => Some(self.polled(found)),
            (Phase::Preparing, Event::Prepared) => Some(
                LoopState { phase: Phase::Fetching, bank: Bank::Ready(0), ..self },
            ),
            (Phase::Fetching, Event::Read(outcome)) => self.read(outcome),
            (Phase::Rewinding, Event::Rewound(done)) => Some(
                if done {
                    LoopState { phase: Phase::Fetching, ..self }
                } else {
                    LoopState { phase: Phase::Stopped(Ending::SourceFailed), ..self }
                },
            ),
            (Phase::Decoding(_), Event::Decoded(valid)) => Some(
                if valid {
                    LoopState { phase: Phase::Ingesting, ..self }
                } else {
                    LoopState { phase: Phase::Polling, ..self }
                },
            ),
            (Phase::Ingesting, Event::Ingested) => Some(self.ingested()),
            (Phase::Publishing, Event::Published(_)) => Some(
                LoopState { phase: Phase::Polling, ..self },
            ),
            _ => None,
        }
    }
}

/// Phase and bank, which change together.
#[derive(Clone, Copy)]
struct Stage {
    phase: Phase,
    bank: Bank,
}

/// The acquisition loop's decisions.
///
/// The loop around it performs the action that [`Acquisition::awaits`]
/// names, reports the outcome to [`Acquisition::step`], and goes on with the
/// action that comes back, until that is [`Action::Finish`].
pub struct Acquisition {
    stage: Stage,
    source: Source,
    min_avg: usize,
}

impl View for Acquisition {
    type V = LoopState;

    closed spec fn view(&self) -> LoopState {
        LoopState {
            phase: self.stage.phase,
            bank: self.stage.bank,
            source: self.source,
            min_avg: self.min_avg,
        }
    }
}

impl Acquisition {
    #[verifier::type_invariant]
    spec fn wf(&self) -> bool {
        self@.inv()
    }

    /// A loop that reads `source`, has not polled yet and has no
    /// accumulators; or nothing, where a frame of `source` does not fit the
    /// buffer.
    pub fn new(source: Source, min_avg: usize) -> (acquisition: Option<Self>)
        ensures
            match acquisition {
                Some(acquisition) => source.fits(BUFFER_LEN) && acquisition@ == LoopState::initial(
                    source,
                    min_avg,
                ),
                None => !source.fits(BUFFER_LEN),
            },
    {
        if source.fits(BUFFER_LEN) {
            Some(
                Acquisition {
                    stage: Stage { phase: Phase::Polling, bank: Bank::Empty },
                    source,
                    min_avg,
                },
            )
        } else {
            None
        }
    }

    /// The work the loop waits for.
    pub fn awaits(&self) -> (action: Action)
        ensures
            self@.inv(),
            action == self@.awaits(),
    {
        proof {
            use_type_invariant(self);
        }
        match self.stage.phase {
            Phase::Polling => Action::Poll,
            Phase::Preparing => Action::Instantiate(
                BankConfig { channels: CHANNELS, stage_length: STAGE_LENGTH, detrend: Detrend::Mid },
            ),
            Phase::Fetching => Action::Read(self.source.request(BUFFER_LEN)),
            Phase::Rewinding => Action::Rewind,
            Phase::Decoding(len) => Action::Decode(len),
            Phase::Ingesting => Action::Ingest,
            Phase::Publishing => Action::Publish(self.min_avg),
            Phase::Stopped(ending) => Action::Finish(ending),
        }
    }

    /// The phase the loop is in.
    pub fn phase(&self) -> (phase: Phase)
        ensures
            phase == self@.phase,
    {
        self.stage.phase
    }

    /// The bank as the loop sees it.
    pub fn bank(&self) -> (bank: Bank)
        ensures
            bank == self@.bank,
    {
        self.stage.bank
    }

    /// Frames counted since the bank was built or last published.
    pub fn frames(&self) -> (frames: usize)
        ensures
            frames == self@.frames(),
            frames <= PUBLISH_THRESHOLD,
    {
        proof {
            use_type_invariant(self);
        }
        match self.stage.bank {
            Bank::Empty => 0,
            Bank::Ready(frames) => frames,
        }
    }

    /// The source the loop reads.
    pub fn source(&self) -> (source: &Source)
        ensures
            *source == self@.source,
    {
        &self.source
    }

    /// Whether the loop has ended.
    pub fn is_stopped(&self) -> (stopped: bool)
        ensures
            stopped == (self@.phase is Stopped),
    {
        match self.stage.phase {
            Phase::Stopped(_) => true,
            _ => false,
        }
    }

    /// Takes the outcome of the work the loop waited for and names the next.
    ///
    /// An event that answers the awaited work moves the loop to the state
    /// that [`LoopState::next`] gives and returns the work that state waits
    /// for. Any other event is refused and changes nothing.
    pub fn step(&mut self, event: Event) -> (result: Result<Action, OutOfTurn>)
        ensures
            old(self)@.inv(),
            final(self)@.inv(),
            match old(self)@.next(event) {
                Some(state) => final(self)@ == state && result == Ok::<Action, OutOfTurn>(
                    state.awaits(),
                ),
                None => final(self)@ == old(self)@ && result == Err::<Action, OutOfTurn>(
                    OutOfTurn,
                ),
            },
    {
        proof {
            use_type_invariant(&*self);
        }
        let bank = self.stage.bank;
        let moved = match (self.stage.phase, event) {
            (Phase::Polling, Event::Polled(found)) => Some(
                match found {
                    TryRecv::Item(Cmd::Exit) => Stage {
                        phase: Phase::Stopped(Ending::Commanded),
                        bank,
                    },
                    TryRecv::Disconnected => Stage {
                        phase: Phase::Stopped(Ending::Commanded),
                        bank,
                    },
                    TryRecv::Item(Cmd::Reset) => Stage {
                        phase: Phase::Preparing,
                        bank: Bank::Empty,
                    },
                    TryRecv::Empty => match bank {
                        Bank::Empty => Stage { phase: Phase::Preparing, bank },
                        Bank::Ready(_) => Stage { phase: Phase::Fetching, bank },
                    },
                },
            ),
            (Phase::Preparing, Event::Prepared) => Some(
                Stage { phase: Phase::Fetching, bank: Bank::Ready(0) },
            ),
            (Phase::Fetching, Event::Read(outcome)) => {
                let asked = self.source.request(BUFFER_LEN);
                let plausible = match outcome {
                    ReadOutcome::Filled(len) => len <= asked,
                    _ => true,
                };
                if plausible {
                    Some(
                        match self.source.get(outcome) {
                            Fetch::Frame(len) => Stage { phase: Phase::Decoding(len), bank },
                            Fetch::Rewind => Stage { phase: Phase::Rewinding, bank },
                            Fetch::Idle => Stage { phase: Phase::Polling, bank },
                            Fetch::Fatal => Stage {
                                phase: Phase::Stopped(Ending::SourceFailed),
                                bank,
                            },
                        },
                    )
                } else {
                    None
                }
            },
            (Phase::Rewinding, Event::Rewound(done)) => Some(
                if done {
                    Stage { phase: Phase::Fetching, bank }
                } else {
                    Stage { phase: Phase::Stopped(Ending::SourceFailed), bank }
                },
            ),
            (Phase::Decoding(_), Event::Decoded(valid)) => Some(
                if valid {
                    Stage { phase: Phase::Ingesting, bank }
                } else {
                    Stage { phase: Phase::Polling, bank }
                },
            ),
            (Phase::Ingesting, Event::Ingested) => {
                let frames = match bank {
                    Bank::Empty => 0,
                    Bank::Ready(frames) => frames,
                };
                Some(
                    if frames + 1 > PUBLISH_THRESHOLD {
                        Stage { phase: Phase::Publishing, bank: Bank::Ready(0) }
                    } else {
                        Stage { phase: Phase::Polling, bank: Bank::Ready(frames + 1) }
                    },
                )
            },
            (Phase::Publishing, Event::Published(_)) => Some(
                Stage { phase: Phase::Polling, bank },
            ),
            _ => None,
        };
        match moved {
            Some(stage) => {
                self.stage = stage;
                Ok(self.awaits())
            },
            None => Err(OutOfTurn),
        }
    }
}

} // verus!
