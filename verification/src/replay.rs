//! Replay of a file in a loop, on a model of the file.
//!
//! A [`Tape`] is what a file is to its reader: bytes and a position. The
//! model says what an exact read and a seek to the start do to it. On that
//! model the decisions of [`Source::get`] turn a file of at least one frame
//! into an endless cycle of its whole frames.

use crate::source::{Fetch, ReadOutcome, Source};
use vstd::arithmetic::div_mod::{
    lemma_add_mod_noop, lemma_fundamental_div_mod, lemma_mod_add_multiples_vanish,
    lemma_mod_bound, lemma_small_mod,
};
use vstd::prelude::*;

verus! {

/// A finite input and the position of its reader.
pub struct Tape {
    /// The bytes of the input.
    pub data: Seq<u8>,
    /// How many of them the reader has passed.
    pub pos: nat,
}

impl Tape {
    /// An exact read of `len` bytes: it succeeds and advances by `len` when
    /// that many bytes are left, and else fails at the end of the input.
    /// Where a failed read leaves the reader does not matter to the replay,
    /// which seeks to the start next.
    pub open spec fn read_exact(self, len: nat) -> (ReadOutcome, Tape) {
        if self.pos + len <= self.data.len() {
            (ReadOutcome::Filled(len as usize), Tape { pos: self.pos + len, ..self })
        } else {
            (ReadOutcome::EndOfInput, Tape { pos: self.data.len(), ..self })
        }
    }

    /// A seek to the start.
    pub open spec fn rewind(self) -> Tape {
        Tape { pos: 0, ..self }
    }

    /// The bytes that a read of `len` bytes from the reader's position
    /// yields.
    pub open spec fn ahead(self, len: nat) -> Seq<u8> {
        self.data.subrange(self.pos as int, (self.pos + len) as int)
    }

    /// The whole frame number `index` of the input, counted from zero, for
    /// frames of `len` bytes.
    pub open spec fn frame(self, index: int, len: nat) -> Seq<u8> {
        self.data.subrange(index * len, index * len + len)
    }

    /// How many whole frames of `len` bytes the input holds.
    pub open spec fn frames(self, len: nat) -> int {
        self.data.len() as int / len as int
    }
}

/// The size of a frame in the file that `source` replays.
pub open spec fn frame_len(source: Source) -> nat {
    match source {
        Source::File(_, frame_size) => frame_size as nat,
        Source::Udp(_) => 0,
    }
}

/// One fetch of a file source from `tape`, into a buffer that has room:
/// a read, and where the source asks for it, a seek to the start and a
/// second read. The result is the frame and the tape after it, or nothing
/// where the source gives up or the second read ends early too.
pub open spec fn fetch(source: Source, tape: Tape) -> Option<(Seq<u8>, Tape)> {
    let asked = source.request(usize::MAX) as nat;
    let (first, moved) = tape.read_exact(asked);
    match source.get(first) {
        Fetch::Frame(len) => Some((tape.ahead(len as nat), moved)),
        Fetch::Rewind => {
            let (second, again) = moved.rewind().read_exact(asked);
            match source.get(second) {
                Fetch::Frame(len) => Some((moved.rewind().ahead(len as nat), again)),
                _ => None,
            }
        },
        _ => None,
    }
}

/// The fetch that follows `before` earlier ones from `tape`.
pub open spec fn replay(source: Source, tape: Tape, before: nat) -> Option<(Seq<u8>, Tape)>
    decreases before,
{
    if before == 0 {
        fetch(source, tape)
    } else {
        match fetch(source, tape) {
            Some((_, after)) => replay(source, after, (before - 1) as nat),
            None => None,
        }
    }
}

/// The frame that the fetch after `before` earlier ones yields.
pub open spec fn replayed(source: Source, tape: Tape, before: nat) -> Option<Seq<u8>> {
    match replay(source, tape, before) {
        Some((frame, _)) => Some(frame),
        None => None,
    }
}

/// An input that holds a frame holds a whole number of them, at least one,
/// and less than one more.
pub proof fn lemma_whole_frames(tape: Tape, len: nat)
    requires
        0 < len <= tape.data.len(),
    ensures
        1 <= tape.frames(len),
        tape.frames(len) * len <= tape.data.len() < (tape.frames(len) + 1) * len,
{
    let total = tape.data.len() as int;
    let count = tape.frames(len);
    lemma_fundamental_div_mod(total, len as int);
    lemma_mod_bound(total, len as int);
    assert(1 <= count && count * len <= total < (count + 1) * len) by (nonlinear_arith)
        requires
            total == len * count + total % (len as int),
            0 <= total % (len as int) < len,
            len <= total,
    ;
}

/// One fetch from a reader that stands at a frame boundary yields the frame
/// there, or the first frame when no whole frame is left, and leaves the
/// reader at the boundary behind it.
pub proof fn lemma_fetch_cycles(source: Source, tape: Tape, start: nat)
    requires
        source is File,
        0 < frame_len(source) <= tape.data.len(),
        start <= tape.frames(frame_len(source)),
        tape.pos == start * frame_len(source),
    ensures
        1 <= start as int % tape.frames(frame_len(source)) + 1 <= tape.frames(frame_len(source)),
        fetch(source, tape) == Some(
            (
                tape.frame(start as int % tape.frames(frame_len(source)), frame_len(source)),
                Tape {
                    pos: (start as int % tape.frames(frame_len(source)) + 1) as nat * frame_len(
                        source,
                    ),
                    ..tape
                },
            ),
        ),
{
    let len = frame_len(source);
    let total = tape.data.len() as int;
    let count = tape.frames(len);
    lemma_whole_frames(tape, len);
    if start < count {
        lemma_small_mod(start, count as nat);
        assert(start * len + len <= total && (start + 1) * len == start * len + len)
            by (nonlinear_arith)
            requires
                start + 1 <= count,
                count * len <= total,
        ;
    } else {
        assert(start as int % count == 0) by (nonlinear_arith)
            requires
                start == count,
                count >= 1,
        ;
        assert(start * len + len > total) by (nonlinear_arith)
            requires
                start == count,
                total < (count + 1) * len,
        ;
        assert(0 * len == 0 && 1 * len == len) by (nonlinear_arith);
    }
}

/// Replay wraps around: from a reader at a frame boundary, the fetch that
/// follows `before` earlier ones yields the whole frame whose number is the
/// boundary's plus `before`, taken modulo the number of whole frames. Bytes
/// behind the last whole frame are never delivered, and no fetch fails.
pub proof fn lemma_replay_wraps(source: Source, tape: Tape, start: nat, before: nat)
    requires
        source is File,
        0 < frame_len(source) <= tape.data.len(),
        start <= tape.frames(frame_len(source)),
        tape.pos == start * frame_len(source),
    ensures
        replayed(source, tape, before) == Some(
            tape.frame(
                (start + before) as int % tape.frames(frame_len(source)),
                frame_len(source),
            ),
        ),
    decreases before,
{
    let len = frame_len(source);
    let count = tape.frames(len);
    lemma_whole_frames(tape, len);
    lemma_fetch_cycles(source, tape, start);
    if before > 0 {
        let (_, after) = fetch(source, tape)->0;
        let next = (start as int % count + 1) as nat;
        lemma_replay_wraps(source, after, next, (before - 1) as nat);
        lemma_add_mod_noop(start as int, before as int, count);
        lemma_add_mod_noop(start as int % count, before as int, count);
        lemma_small_mod((start as int % count) as nat, count as nat);
    }
}

/// Read from its start, a file of `count` whole frames yields its first
/// frame again after `count` fetches, and so on for ever.
pub proof fn lemma_replay_repeats(source: Source, tape: Tape, before: nat)
    requires
        source is File,
        0 < frame_len(source) <= tape.data.len(),
        tape.pos == 0,
    ensures
        replayed(source, tape, before) == Some(
            tape.frame(
                before as int % tape.frames(frame_len(source)),
                frame_len(source),
            ),
        ),
        replayed(source, tape, before + tape.frames(frame_len(source)) as nat) == replayed(
            source,
            tape,
            before,
        ),
{
    let len = frame_len(source);
    let count = tape.frames(len);
    lemma_whole_frames(tape, len);
    lemma_replay_wraps(source, tape, 0, before);
    lemma_replay_wraps(source, tape, 0, before + count as nat);
    lemma_mod_add_multiples_vanish(before as int, count);
}

} // verus!
