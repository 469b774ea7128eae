//! What the chart of a session shows: its title, its axes and its peak.
//!
//! Everything here is text and whole numbers; drawing them is left to the
//! caller.

use vstd::prelude::*;
use vstd::string::*;
use crate::decimal::{decimal, decimal_string};
use crate::estimate::{rate, Confidence, Percent};
use crate::ncpv::{SessionView, NCPV};
use crate::utils::{
    bytes2human, bytes2human_scale, bytes_text, duration_text, seconds2human, unit_index,
    unit_name,
};

verus! {

/// Rows of the drawing area for each division of the rate axis.
pub const ROWS_PER_DIVISION: u16 = 5;

/// The largest of the samples, or zero where there is none.
pub open spec fn peak(samples: Seq<u64>) -> u64
    decreases samples.len(),
{
    if samples.len() == 0 {
        0
    } else if samples.last() >= peak(samples.drop_last()) {
        samples.last()
    } else {
        peak(samples.drop_last())
    }
}

/// The peak is at least every sample, and it is one of them unless there is
/// none.
pub proof fn lemma_peak_is_maximum(samples: Seq<u64>)
    ensures
        forall|i: int| 0 <= i < samples.len() ==> samples[i] <= peak(samples),
        samples.len() > 0 ==> exists|i: int| 0 <= i < samples.len() && samples[i] == peak(samples),
        samples.len() == 0 ==> peak(samples) == 0,
    decreases samples.len(),
{
    if samples.len() > 0 {
        let head = samples.drop_last();
        lemma_peak_is_maximum(head);
        assert forall|i: int| 0 <= i < samples.len() implies samples[i] <= peak(samples) by {
            if i < head.len() {
                assert(samples[i] == head[i]);
            }
        }
        if samples.last() >= peak(head) {
            assert(samples[samples.len() - 1] == peak(samples));
        } else {
            let i = choose|i: int| 0 <= i < head.len() && head[i] == peak(head);
            assert(samples[i] == peak(samples));
        }
    }
}

/// The estimate as the title of the time axis. Without an estimate or
/// without progress it is not available; otherwise the band of the progress
/// decides: done, the plain duration, the duration marked as approximate,
/// or the duration marked as uncertain.
pub open spec fn eta_text(estimated: bool, percent: Option<Percent>, eta: u64) -> Seq<char> {
    if !estimated || percent is None {
        "ETA: N/A"@
    } else {
        match percent->0.confidence() {
            Confidence::Done => "ETA: Done"@,
            Confidence::Exact => "ETA: "@ + duration_text(eta),
            Confidence::Approximate => "ETA: ~"@ + duration_text(eta),
            Confidence::Uncertain => "ETA: "@ + duration_text(eta) + "?"@,
        }
    }
}

/// Progress as it stands in the title: the percentage rounded to a whole
/// number, zero before the first refresh, and the words for a percentage
/// without a finite value.
pub open spec fn percent_text(percent: Option<Percent>) -> Seq<char> {
    match percent {
        None => "0"@,
        Some(p) => if p.total > 0 {
            decimal(p.rounded())
        } else if p.done == 0 {
            "NaN"@
        } else {
            "inf"@
        },
    }
}

/// The title of the chart after `elapsed_secs` whole seconds.
pub open spec fn title_text(s: SessionView, elapsed_secs: u64) -> Seq<char> {
    match s.config.size {
        Some(size) => "  NCurses Pipe Viewer -- "@ + s.config.file_path + " ("@ + bytes_text(
            s.read_bytes,
        ) + " / "@ + bytes_text(size) + ", "@ + percent_text(s.percent_complete) + "%) "@
            + bytes_text(rate(s.read_bytes, elapsed_secs)) + "/s  "@,
        None => "  NCurses Pipe Viewer -- "@ + s.config.file_path + " "@ + bytes_text(
            rate(s.read_bytes, elapsed_secs),
        ) + "/s  "@,
    }
}

/// The step between two labels of the rate axis.
pub open spec fn label_step(samples: Seq<u64>, height: u16) -> int
    recommends
        height >= ROWS_PER_DIVISION,
{
    peak(samples) as int / (height as int / ROWS_PER_DIVISION as int)
}

/// The rate at the `i`-th label of the rate axis, counted from zero.
pub open spec fn label_value(samples: Seq<u64>, height: u16, i: int) -> u64
    recommends
        height >= ROWS_PER_DIVISION,
        0 <= i <= height / ROWS_PER_DIVISION,
{
    (i * label_step(samples, height)) as u64
}

/// The labels rise from zero in equal steps and do not pass the peak.
pub proof fn lemma_labels_stay_below_peak(samples: Seq<u64>, height: u16, i: int)
    requires
        height >= ROWS_PER_DIVISION,
        0 <= i <= height / ROWS_PER_DIVISION,
    ensures
        label_value(samples, height, 0) == 0,
        label_value(samples, height, i) == i * label_step(samples, height),
        label_value(samples, height, i) <= peak(samples),
{
    let divisions = height as int / ROWS_PER_DIVISION as int;
    let top = peak(samples) as int;
    let step = top / divisions;
    assert(0 <= i * step <= top) by (nonlinear_arith)
        requires
            0 <= i <= divisions,
            step == top / divisions,
            top >= 0,
            divisions > 0,
    ;
}

impl NCPV {
    /// The largest rate sampled so far, or zero.
    pub fn fastest_speed(&self) -> (r: u64)
        ensures
            r == peak(self@.samples),
    {
        let samples = self.samples();
        let mut best: u64 = 0;
        let mut i: usize = 0;
        assert(samples@.take(0) =~= Seq::<u64>::empty());
        while i < samples.len()
            invariant
                i <= samples.len(),
                best == peak(samples@.take(i as int)),
            decreases samples.len() - i,
        {
            assert(samples@.take(i + 1).drop_last() =~= samples@.take(i as int));
            if samples[i] >= best {
                best = samples[i];
            }
            i = i + 1;
        }
        assert(samples@.take(i as int) =~= samples@);
        best
    }

    /// The estimate `eta`, in seconds, as text; see [`eta_text`].
    pub fn get_eta_text(&self, eta: u64) -> (s: String)
        ensures
            s@ == eta_text(self@.eta is Some, self@.percent_complete, eta),
    {
        match self.eta() {
            Some(_) => match self.percent_complete() {
                Some(percent) => match percent.band() {
                    Confidence::Done => String::from_str("ETA: Done"),
                    Confidence::Exact => {
                        let mut s = String::from_str("ETA: ");
                        s.append(seconds2human(eta).as_str());
                        s
                    },
                    Confidence::Approximate => {
                        let mut s = String::from_str("ETA: ~");
                        s.append(seconds2human(eta).as_str());
                        s
                    },
                    Confidence::Uncertain => {
                        let mut s = String::from_str("ETA: ");
                        s.append(seconds2human(eta).as_str());
                        s.append("?");
                        s
                    },
                },
                None => String::from_str("ETA: N/A"),
            },
            None => String::from_str("ETA: N/A"),
        }
    }

    /// The title of the time axis: the estimate where there is one, the
    /// elapsed time otherwise.
    pub fn x_axis_title(&self, elapsed_secs: u64) -> (s: String)
        ensures
            s@ == match self@.eta {
                Some(eta) => eta_text(true, self@.percent_complete, eta),
                None => duration_text(elapsed_secs),
            },
    {
        match self.eta() {
            Some(eta) => self.get_eta_text(eta),
            None => seconds2human(elapsed_secs),
        }
    }

    /// The title of the rate axis: the unit of the current rate, per second.
    pub fn y_axis_title(&self, elapsed_secs: u64) -> (s: String)
        ensures
            s@ == unit_name(unit_index(rate(self@.read_bytes, elapsed_secs))) + "/s"@,
    {
        let mut s = bytes2human_scale(self.get_transfer_rate(elapsed_secs));
        s.append("/s");
        s
    }

    /// The labels of the rate axis for a drawing area of `height` rows: one
    /// division for every five rows, and a label at each multiple of the
    /// step from zero up to the last division.
    pub fn y_axis_labels(&self, height: u16) -> (labels: Vec<String>)
        requires
            height >= ROWS_PER_DIVISION,
        ensures
            labels@.len() == height / ROWS_PER_DIVISION + 1,
            forall|i: int|
                0 <= i < labels@.len() ==> (#[trigger] labels@[i])@ == bytes_text(
                    label_value(self@.samples, height, i),
                ),
    {
        let divisions: u64 = (height / ROWS_PER_DIVISION) as u64;
        let step: u64 = self.fastest_speed() / divisions;
        let mut labels: Vec<String> = Vec::new();
        let mut i: u64 = 0;
        while i <= divisions
            invariant
                height >= ROWS_PER_DIVISION,
                divisions == height / ROWS_PER_DIVISION,
                i <= divisions + 1,
                step == label_step(self@.samples, height),
                labels@.len() == i,
                forall|j: int|
                    0 <= j < i ==> (#[trigger] labels@[j])@ == bytes_text(
                        label_value(self@.samples, height, j),
                    ),
            decreases divisions + 1 - i,
        {
            proof {
                lemma_labels_stay_below_peak(self@.samples, height, i as int);
            }
            labels.push(bytes2human(i * step));
            i = i + 1;
        }
        labels
    }

    /// The title of the chart after `elapsed_secs` whole seconds; see
    /// [`title_text`].
    pub fn title(&self, elapsed_secs: u64) -> (s: String)
        ensures
            s@ == title_text(self@, elapsed_secs),
    {
        let mut s = String::from_str("  NCurses Pipe Viewer -- ");
        s.append(self.config().file_path.as_str());
        match self.config().size {
            Some(size) => {
                s.append(" (");
                s.append(bytes2human(self.read_bytes()).as_str());
                s.append(" / ");
                s.append(bytes2human(size).as_str());
                s.append(", ");
                s.append(percent_string(self.percent_complete()).as_str());
                s.append("%) ");
            },
            None => {
                s.append(" ");
            },
        }
        s.append(bytes2human(self.get_transfer_rate(elapsed_secs)).as_str());
        s.append("/s  ");
        s
    }
}

/// Computes [`percent_text`].
pub fn percent_string(percent: Option<Percent>) -> (s: String)
    ensures
        s@ == percent_text(percent),
{
    match percent {
        None => String::from_str("0"),
        Some(p) => match p.round() {
            Some(whole) => decimal_string(whole),
            None => if p.done == 0 {
                String::from_str("NaN")
            } else {
                String::from_str("inf")
            },
        },
    }
}

/// The middle label of the time axis: the elapsed time.
pub fn elapsed_label(elapsed_secs: u64) -> (s: String)
    ensures
        s@ == duration_text(elapsed_secs) + " elapsed"@,
{
    let mut s = seconds2human(elapsed_secs);
    s.append(" elapsed");
    s
}

} // verus!
