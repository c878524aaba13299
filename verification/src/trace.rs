//! Snapshots: what the acquisition loop publishes and the viewer shows.

use vstd::prelude::*;

verus! {

/// Bookkeeping of one averaging window of a spectral estimate.
#[derive(Clone, Copy, Debug, PartialEq, Eq, Structural)]
pub struct Break {
    /// Number of averages taken.
    pub count: usize,
    /// Number of samples that each of them stands for.
    pub effective_fft_size: usize,
}

impl Break {
    /// Samples that went into the window, overlap included.
    pub open spec fn spec_samples(&self) -> int {
        self.count * self.effective_fft_size
    }

    /// Samples that went into the window, overlap included: the product of
    /// the count and the effective size, exactly.
    pub fn samples(&self) -> (samples: u128)
        ensures
            samples == self.spec_samples(),
    {
        let count = self.count as u128;
        let size = self.effective_fft_size as u128;
        assert(count * size <= 0xffff_ffff_ffff_ffff * 0xffff_ffff_ffff_ffff) by (nonlinear_arith)
            requires
                0 <= count <= 0xffff_ffff_ffff_ffff,
                0 <= size <= 0xffff_ffff_ffff_ffff,
        ;
        count * size
    }
}

/// The estimate of one channel: its averaging windows, and its points in
/// the order they are drawn.
#[derive(Debug, PartialEq)]
pub struct Trace<P> {
    /// The averaging windows of the estimate.
    pub breaks: Vec<Break>,
    /// The points of the estimate, lowest frequency first.
    pub psd: Vec<P>,
}

/// The points of an estimate in drawing order.
///
/// An estimate comes as frequencies and powers, index by index, highest
/// frequency first and the zero-frequency term last. The points are the
/// pairs of both, as far as both reach, without the last pair and in
/// reverse: lowest frequency first.
pub open spec fn spec_plot_points<F, P>(frequencies: Seq<F>, power: Seq<P>) -> Seq<(F, P)> {
    let pairs = if frequencies.len() <= power.len() {
        frequencies.len()
    } else {
        power.len()
    };
    Seq::new(
        if pairs > 0 {
            (pairs - 1) as nat
        } else {
            0
        },
        |i: int| (frequencies[pairs - 2 - i], power[pairs - 2 - i]),
    )
}

/// Pairs frequencies with powers, drops the zero-frequency term and puts
/// the lowest frequency first.
pub fn plot_points<F: Copy, P: Copy>(frequencies: &[F], power: &[P]) -> (points: Vec<(F, P)>)
    ensures
        points@ == spec_plot_points(frequencies@, power@),
{
    let pairs = if frequencies.len() <= power.len() {
        frequencies.len()
    } else {
        power.len()
    };
    let mut points: Vec<(F, P)> = Vec::new();
    if pairs == 0 {
        assert(points@ =~= spec_plot_points(frequencies@, power@));
        return points;
    }
    let mut left: usize = pairs - 1;
    while left > 0
        invariant
            left < pairs,
            pairs <= frequencies@.len(),
            pairs <= power@.len(),
            points@.len() == pairs - 1 - left,
            forall|i: int|
                0 <= i < points@.len() ==> points@[i] == (
                    frequencies@[pairs - 2 - i],
                    power@[pairs - 2 - i],
                ),
        decreases left,
    {
        left = left - 1;
        points.push((frequencies[left], power[left]));
    }
    assert(points@ =~= spec_plot_points(frequencies@, power@));
    points
}

} // verus!
