//! The controller's side: what it keeps of the snapshots it receives, and
//! which commands it gives.

use crate::channel::{Cmd, TryRecv};
use crate::trace::Trace;
use vstd::prelude::*;

verus! {

/// Delay, in milliseconds, after which the display is drawn again once a
/// snapshot has arrived.
pub const REPAINT_AFTER_MS: u64 = 100;

/// The acquisition side is gone, and no snapshot will come any more.
#[derive(Clone, Copy, Debug, PartialEq, Eq, Structural)]
pub struct Lost;

/// The viewer's state: the snapshot on display, one trace per channel.
pub struct FLS<P> {
    current: Option<Vec<Trace<P>>>,
}

impl<P> View for FLS<P> {
    type V = Option<Vec<Trace<P>>>;

    closed spec fn view(&self) -> Option<Vec<Trace<P>>> {
        self.current
    }
}

impl<P> FLS<P> {
    /// A viewer that has nothing to show yet.
    pub fn new() -> (viewer: Self)
        ensures
            viewer@ is None,
    {
        FLS { current: None }
    }

    /// The command to give when the window closes.
    pub fn on_exit(&self) -> (cmd: Cmd)
        ensures
            cmd == Cmd::Exit,
    {
        Cmd::Exit
    }

    /// The command to give when a reset is asked for.
    pub fn on_reset(&self) -> (cmd: Cmd)
        ensures
            cmd == Cmd::Reset,
    {
        Cmd::Reset
    }

    /// Takes what a poll of the handoff channel found.
    ///
    /// A snapshot replaces the one on display and asks for a repaint after
    /// [`REPAINT_AFTER_MS`]; an empty channel changes nothing and asks for
    /// none. With the acquisition side gone there is nothing to go on with.
    pub fn update(&mut self, polled: TryRecv<Vec<Trace<P>>>) -> (repaint_after_ms: Result<
        Option<u64>,
        Lost,
    >)
        ensures
            match polled {
                TryRecv::Item(snapshot) => final(self)@ == Some(snapshot) && repaint_after_ms
                    == Ok::<Option<u64>, Lost>(Some(REPAINT_AFTER_MS)),
                TryRecv::Empty => final(self)@ == old(self)@ && repaint_after_ms == Ok::<
                    Option<u64>,
                    Lost,
                >(None),
                TryRecv::Disconnected => final(self)@ == old(self)@ && repaint_after_ms == Err::<
                    Option<u64>,
                    Lost,
                >(Lost),
            },
    {
        match polled {
            TryRecv::Item(snapshot) => {
                self.current = Some(snapshot);
                Ok(Some(REPAINT_AFTER_MS))
            },
            TryRecv::Empty => Ok(None),
            TryRecv::Disconnected => Err(Lost),
        }
    }

    /// The snapshot on display.
    pub fn current(&self) -> (current: &Option<Vec<Trace<P>>>)
        ensures
            *current == self@,
    {
        &self.current
    }

    /// Samples behind the first averaging window of the first trace on
    /// display, if there is one.
    pub open spec fn spec_samples(&self) -> Option<int> {
        match self@ {
            Some(traces) => if traces@.len() > 0 && traces@[0].breaks@.len() > 0 {
                Some(traces@[0].breaks@[0].spec_samples())
            } else {
                None
            },
            None => None,
        }
    }

    /// Samples behind the first averaging window of the first trace on
    /// display, if there is one.
    pub fn samples(&self) -> (samples: Option<u128>)
        ensures
            match samples {
                Some(samples) => self.spec_samples() == Some(samples as int),
                None => self.spec_samples() is None,
            },
    {
        match &self.current {
            Some(traces) => if traces.len() > 0 && traces[0].breaks.len() > 0 {
                Some(traces[0].breaks[0].samples())
            } else {
                None
            },
            None => None,
        }
    }
}

} // verus!
