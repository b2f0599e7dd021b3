//! The metrics accumulator: a fixed shape of named numeric fields plus a
//! running sample count. Merging sums field-wise and adds the counts;
//! weighting scales the density and complexity fields by an exact fraction
//! while leaving the pure size fields alone, because size is additive across
//! sub-ranges but complexity density is not; averaging divides every field
//! by the sample count and is undefined on an empty accumulator.

use vstd::prelude::*;

use crate::rat::{
    fits_i128, rat_add, rat_add_fits, rat_div_count, rat_div_fits, rat_mul, rat_mul_fits,
    rat_wf, rat_zero, lemma_rat_add_assoc, lemma_rat_add_comm, lemma_rat_add_zero,
    lemma_rat_mul_compose, Rat, RatV,
};
use crate::raw::RawMetrics;

verus! {

/// Mathematical model of an accumulator: an unbounded sample count and one
/// unbounded fraction per metric field.
pub ghost struct MetricsV {
    pub count: int,
    pub nargs: RatV,
    pub nexits: RatV,
    pub cognitive: RatV,
    pub cyclomatic: RatV,
    pub halstead_n1: RatV,
    pub halstead_capital_n1: RatV,
    pub halstead_n2: RatV,
    pub halstead_capital_n2: RatV,
    pub halstead_length: RatV,
    pub halstead_estimated_program_length: RatV,
    pub halstead_purity_ratio: RatV,
    pub halstead_vocabulary: RatV,
    pub halstead_volume: RatV,
    pub halstead_difficulty: RatV,
    pub halstead_level: RatV,
    pub halstead_effort: RatV,
    pub halstead_time: RatV,
    pub halstead_bugs: RatV,
    pub sloc: RatV,
    pub ploc: RatV,
    pub lloc: RatV,
    pub cloc: RatV,
    pub blank: RatV,
    pub functions: RatV,
    pub closures: RatV,
    pub mi_original: RatV,
    pub mi_sei: RatV,
    pub mi_visual_studio: RatV,
}

/// A metrics accumulator.
#[derive(Clone, Copy, Debug, PartialEq, Eq, Structural)]
pub struct Metrics {
    pub count: u64,
    pub nargs: Rat,
    pub nexits: Rat,
    pub cognitive: Rat,
    pub cyclomatic: Rat,
    pub halstead_n1: Rat,
    pub halstead_capital_n1: Rat,
    pub halstead_n2: Rat,
    pub halstead_capital_n2: Rat,
    pub halstead_length: Rat,
    pub halstead_estimated_program_length: Rat,
    pub halstead_purity_ratio: Rat,
    pub halstead_vocabulary: Rat,
    pub halstead_volume: Rat,
    pub halstead_difficulty: Rat,
    pub halstead_level: Rat,
    pub halstead_effort: Rat,
    pub halstead_time: Rat,
    pub halstead_bugs: Rat,
    pub sloc: Rat,
    pub ploc: Rat,
    pub lloc: Rat,
    pub cloc: Rat,
    pub blank: Rat,
    pub functions: Rat,
    pub closures: Rat,
    pub mi_original: Rat,
    pub mi_sei: Rat,
    pub mi_visual_studio: Rat,
}

impl View for Metrics {
    type V = MetricsV;

    open spec fn view(&self) -> MetricsV {
        MetricsV {
            count: self.count as int,
            nargs: self.nargs@,
            nexits: self.nexits@,
            cognitive: self.cognitive@,
            cyclomatic: self.cyclomatic@,
            halstead_n1: self.halstead_n1@,
            halstead_capital_n1: self.halstead_capital_n1@,
            halstead_n2: self.halstead_n2@,
            halstead_capital_n2: self.halstead_capital_n2@,
            halstead_length: self.halstead_length@,
            halstead_estimated_program_length: self.halstead_estimated_program_length@,
            halstead_purity_ratio: self.halstead_purity_ratio@,
            halstead_vocabulary: self.halstead_vocabulary@,
            halstead_volume: self.halstead_volume@,
            halstead_difficulty: self.halstead_difficulty@,
            halstead_level: self.halstead_level@,
            halstead_effort: self.halstead_effort@,
            halstead_time: self.halstead_time@,
            halstead_bugs: self.halstead_bugs@,
            sloc: self.sloc@,
            ploc: self.ploc@,
            lloc: self.lloc@,
            cloc: self.cloc@,
            blank: self.blank@,
            functions: self.functions@,
            closures: self.closures@,
            mi_original: self.mi_original@,
            mi_sei: self.mi_sei@,
            mi_visual_studio: self.mi_visual_studio@,
        }
    }
}

/// Every field denotes a number and the count is a count.
pub open spec fn metrics_wf(m: MetricsV) -> bool {
    &&& m.count >= 0
    &&& rat_wf(m.nargs)
    &&& rat_wf(m.nexits)
    &&& rat_wf(m.cognitive)
    &&& rat_wf(m.cyclomatic)
    &&& rat_wf(m.halstead_n1)
    &&& rat_wf(m.halstead_capital_n1)
    &&& rat_wf(m.halstead_n2)
    &&& rat_wf(m.halstead_capital_n2)
    &&& rat_wf(m.halstead_length)
    &&& rat_wf(m.halstead_estimated_program_length)
    &&& rat_wf(m.halstead_purity_ratio)
    &&& rat_wf(m.halstead_vocabulary)
    &&& rat_wf(m.halstead_volume)
    &&& rat_wf(m.halstead_difficulty)
    &&& rat_wf(m.halstead_level)
    &&& rat_wf(m.halstead_effort)
    &&& rat_wf(m.halstead_time)
    &&& rat_wf(m.halstead_bugs)
    &&& rat_wf(m.sloc)
    &&& rat_wf(m.ploc)
    &&& rat_wf(m.lloc)
    &&& rat_wf(m.cloc)
    &&& rat_wf(m.blank)
    &&& rat_wf(m.functions)
    &&& rat_wf(m.closures)
    &&& rat_wf(m.mi_original)
    &&& rat_wf(m.mi_sei)
    &&& rat_wf(m.mi_visual_studio)
}

/// The empty accumulator: no samples, all fields zero.
pub open spec fn metrics_zero() -> MetricsV {
    MetricsV {
        count: 0,
        nargs: rat_zero(),
        nexits: rat_zero(),
        cognitive: rat_zero(),
        cyclomatic: rat_zero(),
        halstead_n1: rat_zero(),
        halstead_capital_n1: rat_zero(),
        halstead_n2: rat_zero(),
        halstead_capital_n2: rat_zero(),
        halstead_length: rat_zero(),
        halstead_estimated_program_length: rat_zero(),
        halstead_purity_ratio: rat_zero(),
        halstead_vocabulary: rat_zero(),
        halstead_volume: rat_zero(),
        halstead_difficulty: rat_zero(),
        halstead_level: rat_zero(),
        halstead_effort: rat_zero(),
        halstead_time: rat_zero(),
        halstead_bugs: rat_zero(),
        sloc: rat_zero(),
        ploc: rat_zero(),
        lloc: rat_zero(),
        cloc: rat_zero(),
        blank: rat_zero(),
        functions: rat_zero(),
        closures: rat_zero(),
        mi_original: rat_zero(),
        mi_sei: rat_zero(),
        mi_visual_studio: rat_zero(),
    }
}

/// Merge of two accumulators: counts add, every field adds exactly.
pub open spec fn metrics_merge(a: MetricsV, b: MetricsV) -> MetricsV {
    MetricsV {
        count: a.count + b.count,
        nargs: rat_add(a.nargs, b.nargs),
        nexits: rat_add(a.nexits, b.nexits),
        cognitive: rat_add(a.cognitive, b.cognitive),
        cyclomatic: rat_add(a.cyclomatic, b.cyclomatic),
        halstead_n1: rat_add(a.halstead_n1, b.halstead_n1),
        halstead_capital_n1: rat_add(a.halstead_capital_n1, b.halstead_capital_n1),
        halstead_n2: rat_add(a.halstead_n2, b.halstead_n2),
        halstead_capital_n2: rat_add(a.halstead_capital_n2, b.halstead_capital_n2),
        halstead_length: rat_add(a.halstead_length, b.halstead_length),
        halstead_estimated_program_length: rat_add(a.halstead_estimated_program_length, b.halstead_estimated_program_length),
        halstead_purity_ratio: rat_add(a.halstead_purity_ratio, b.halstead_purity_ratio),
        halstead_vocabulary: rat_add(a.halstead_vocabulary, b.halstead_vocabulary),
        halstead_volume: rat_add(a.halstead_volume, b.halstead_volume),
        halstead_difficulty: rat_add(a.halstead_difficulty, b.halstead_difficulty),
        halstead_level: rat_add(a.halstead_level, b.halstead_level),
        halstead_effort: rat_add(a.halstead_effort, b.halstead_effort),
        halstead_time: rat_add(a.halstead_time, b.halstead_time),
        halstead_bugs: rat_add(a.halstead_bugs, b.halstead_bugs),
        sloc: rat_add(a.sloc, b.sloc),
        ploc: rat_add(a.ploc, b.ploc),
        lloc: rat_add(a.lloc, b.lloc),
        cloc: rat_add(a.cloc, b.cloc),
        blank: rat_add(a.blank, b.blank),
        functions: rat_add(a.functions, b.functions),
        closures: rat_add(a.closures, b.closures),
        mi_original: rat_add(a.mi_original, b.mi_original),
        mi_sei: rat_add(a.mi_sei, b.mi_sei),
        mi_visual_studio: rat_add(a.mi_visual_studio, b.mi_visual_studio),
    }
}

/// The merge of `a` and `b` stays within machine integers.
pub open spec fn merge_fits(a: MetricsV, b: MetricsV) -> bool {
    &&& a.count + b.count <= u64::MAX
    &&& rat_add_fits(a.nargs, b.nargs)
    &&& rat_add_fits(a.nexits, b.nexits)
    &&& rat_add_fits(a.cognitive, b.cognitive)
    &&& rat_add_fits(a.cyclomatic, b.cyclomatic)
    &&& rat_add_fits(a.halstead_n1, b.halstead_n1)
    &&& rat_add_fits(a.halstead_capital_n1, b.halstead_capital_n1)
    &&& rat_add_fits(a.halstead_n2, b.halstead_n2)
    &&& rat_add_fits(a.halstead_capital_n2, b.halstead_capital_n2)
    &&& rat_add_fits(a.halstead_length, b.halstead_length)
    &&& rat_add_fits(a.halstead_estimated_program_length, b.halstead_estimated_program_length)
    &&& rat_add_fits(a.halstead_purity_ratio, b.halstead_purity_ratio)
    &&& rat_add_fits(a.halstead_vocabulary, b.halstead_vocabulary)
    &&& rat_add_fits(a.halstead_volume, b.halstead_volume)
    &&& rat_add_fits(a.halstead_difficulty, b.halstead_difficulty)
    &&& rat_add_fits(a.halstead_level, b.halstead_level)
    &&& rat_add_fits(a.halstead_effort, b.halstead_effort)
    &&& rat_add_fits(a.halstead_time, b.halstead_time)
    &&& rat_add_fits(a.halstead_bugs, b.halstead_bugs)
    &&& rat_add_fits(a.sloc, b.sloc)
    &&& rat_add_fits(a.ploc, b.ploc)
    &&& rat_add_fits(a.lloc, b.lloc)
    &&& rat_add_fits(a.cloc, b.cloc)
    &&& rat_add_fits(a.blank, b.blank)
    &&& rat_add_fits(a.functions, b.functions)
    &&& rat_add_fits(a.closures, b.closures)
    &&& rat_add_fits(a.mi_original, b.mi_original)
    &&& rat_add_fits(a.mi_sei, b.mi_sei)
    &&& rat_add_fits(a.mi_visual_studio, b.mi_visual_studio)
}

/// Weighting by `w`: density and complexity fields are scaled exactly,
/// size fields and the sample count are untouched.
pub open spec fn metrics_weigh(m: MetricsV, w: RatV) -> MetricsV {
    MetricsV {
        count: m.count,
        nargs: m.nargs,
        nexits: m.nexits,
        cognitive: rat_mul(m.cognitive, w),
        cyclomatic: rat_mul(m.cyclomatic, w),
        halstead_n1: rat_mul(m.halstead_n1, w),
        halstead_capital_n1: rat_mul(m.halstead_capital_n1, w),
        halstead_n2: rat_mul(m.halstead_n2, w),
        halstead_capital_n2: rat_mul(m.halstead_capital_n2, w),
        halstead_length: rat_mul(m.halstead_length, w),
        halstead_estimated_program_length: rat_mul(m.halstead_estimated_program_length, w),
        halstead_purity_ratio: rat_mul(m.halstead_purity_ratio, w),
        halstead_vocabulary: rat_mul(m.halstead_vocabulary, w),
        halstead_volume: rat_mul(m.halstead_volume, w),
        halstead_difficulty: rat_mul(m.halstead_difficulty, w),
        halstead_level: rat_mul(m.halstead_level, w),
        halstead_effort: rat_mul(m.halstead_effort, w),
        halstead_time: rat_mul(m.halstead_time, w),
        halstead_bugs: rat_mul(m.halstead_bugs, w),
        sloc: m.sloc,
        ploc: m.ploc,
        lloc: m.lloc,
        cloc: m.cloc,
        blank: m.blank,
        functions: m.functions,
        closures: m.closures,
        mi_original: rat_mul(m.mi_original, w),
        mi_sei: rat_mul(m.mi_sei, w),
        mi_visual_studio: rat_mul(m.mi_visual_studio, w),
    }
}

/// Weighting `m` by `w` stays within machine integers.
pub open spec fn weigh_fits(m: MetricsV, w: RatV) -> bool {
    &&& rat_mul_fits(m.cognitive, w)
    &&& rat_mul_fits(m.cyclomatic, w)
    &&& rat_mul_fits(m.halstead_n1, w)
    &&& rat_mul_fits(m.halstead_capital_n1, w)
    &&& rat_mul_fits(m.halstead_n2, w)
    &&& rat_mul_fits(m.halstead_capital_n2, w)
    &&& rat_mul_fits(m.halstead_length, w)
    &&& rat_mul_fits(m.halstead_estimated_program_length, w)
    &&& rat_mul_fits(m.halstead_purity_ratio, w)
    &&& rat_mul_fits(m.halstead_vocabulary, w)
    &&& rat_mul_fits(m.halstead_volume, w)
    &&& rat_mul_fits(m.halstead_difficulty, w)
    &&& rat_mul_fits(m.halstead_level, w)
    &&& rat_mul_fits(m.halstead_effort, w)
    &&& rat_mul_fits(m.halstead_time, w)
    &&& rat_mul_fits(m.halstead_bugs, w)
    &&& rat_mul_fits(m.mi_original, w)
    &&& rat_mul_fits(m.mi_sei, w)
    &&& rat_mul_fits(m.mi_visual_studio, w)
}

/// The average of an accumulator: every field divided by the sample count.
/// The result carries no samples of its own.
pub open spec fn metrics_avg(m: MetricsV) -> MetricsV {
    MetricsV {
        count: 0,
        nargs: rat_div_count(m.nargs, m.count),
        nexits: rat_div_count(m.nexits, m.count),
        cognitive: rat_div_count(m.cognitive, m.count),
        cyclomatic: rat_div_count(m.cyclomatic, m.count),
        halstead_n1: rat_div_count(m.halstead_n1, m.count),
        halstead_capital_n1: rat_div_count(m.halstead_capital_n1, m.count),
        halstead_n2: rat_div_count(m.halstead_n2, m.count),
        halstead_capital_n2: rat_div_count(m.halstead_capital_n2, m.count),
        halstead_length: rat_div_count(m.halstead_length, m.count),
        halstead_estimated_program_length: rat_div_count(m.halstead_estimated_program_length, m.count),
        halstead_purity_ratio: rat_div_count(m.halstead_purity_ratio, m.count),
        halstead_vocabulary: rat_div_count(m.halstead_vocabulary, m.count),
        halstead_volume: rat_div_count(m.halstead_volume, m.count),
        halstead_difficulty: rat_div_count(m.halstead_difficulty, m.count),
        halstead_level: rat_div_count(m.halstead_level, m.count),
        halstead_effort: rat_div_count(m.halstead_effort, m.count),
        halstead_time: rat_div_count(m.halstead_time, m.count),
        halstead_bugs: rat_div_count(m.halstead_bugs, m.count),
        sloc: rat_div_count(m.sloc, m.count),
        ploc: rat_div_count(m.ploc, m.count),
        lloc: rat_div_count(m.lloc, m.count),
        cloc: rat_div_count(m.cloc, m.count),
        blank: rat_div_count(m.blank, m.count),
        functions: rat_div_count(m.functions, m.count),
        closures: rat_div_count(m.closures, m.count),
        mi_original: rat_div_count(m.mi_original, m.count),
        mi_sei: rat_div_count(m.mi_sei, m.count),
        mi_visual_studio: rat_div_count(m.mi_visual_studio, m.count),
    }
}

/// The average of `m` stays within machine integers.
pub open spec fn avg_fits(m: MetricsV) -> bool {
    &&& rat_div_fits(m.nargs, m.count)
    &&& rat_div_fits(m.nexits, m.count)
    &&& rat_div_fits(m.cognitive, m.count)
    &&& rat_div_fits(m.cyclomatic, m.count)
    &&& rat_div_fits(m.halstead_n1, m.count)
    &&& rat_div_fits(m.halstead_capital_n1, m.count)
    &&& rat_div_fits(m.halstead_n2, m.count)
    &&& rat_div_fits(m.halstead_capital_n2, m.count)
    &&& rat_div_fits(m.halstead_length, m.count)
    &&& rat_div_fits(m.halstead_estimated_program_length, m.count)
    &&& rat_div_fits(m.halstead_purity_ratio, m.count)
    &&& rat_div_fits(m.halstead_vocabulary, m.count)
    &&& rat_div_fits(m.halstead_volume, m.count)
    &&& rat_div_fits(m.halstead_difficulty, m.count)
    &&& rat_div_fits(m.halstead_level, m.count)
    &&& rat_div_fits(m.halstead_effort, m.count)
    &&& rat_div_fits(m.halstead_time, m.count)
    &&& rat_div_fits(m.halstead_bugs, m.count)
    &&& rat_div_fits(m.sloc, m.count)
    &&& rat_div_fits(m.ploc, m.count)
    &&& rat_div_fits(m.lloc, m.count)
    &&& rat_div_fits(m.cloc, m.count)
    &&& rat_div_fits(m.blank, m.count)
    &&& rat_div_fits(m.functions, m.count)
    &&& rat_div_fits(m.closures, m.count)
    &&& rat_div_fits(m.mi_original, m.count)
    &&& rat_div_fits(m.mi_sei, m.count)
    &&& rat_div_fits(m.mi_visual_studio, m.count)
}

impl Metrics {
    /// A well-formed accumulator has well-formed fields.
    pub open spec fn wf(self) -> bool {
        metrics_wf(self@)
    }

    /// The empty accumulator.
    pub fn zero() -> (r: Metrics)
        ensures
            r@ == metrics_zero(),
            r.wf(),
    {
        Metrics {
            count: 0,
            nargs: Rat::zero(),
            nexits: Rat::zero(),
            cognitive: Rat::zero(),
            cyclomatic: Rat::zero(),
            halstead_n1: Rat::zero(),
            halstead_capital_n1: Rat::zero(),
            halstead_n2: Rat::zero(),
            halstead_capital_n2: Rat::zero(),
            halstead_length: Rat::zero(),
            halstead_estimated_program_length: Rat::zero(),
            halstead_purity_ratio: Rat::zero(),
            halstead_vocabulary: Rat::zero(),
            halstead_volume: Rat::zero(),
            halstead_difficulty: Rat::zero(),
            halstead_level: Rat::zero(),
            halstead_effort: Rat::zero(),
            halstead_time: Rat::zero(),
            halstead_bugs: Rat::zero(),
            sloc: Rat::zero(),
            ploc: Rat::zero(),
            lloc: Rat::zero(),
            cloc: Rat::zero(),
            blank: Rat::zero(),
            functions: Rat::zero(),
            closures: Rat::zero(),
            mi_original: Rat::zero(),
            mi_sei: Rat::zero(),
            mi_visual_studio: Rat::zero(),
        }
    }

    /// Merges two accumulators exactly; `None` when any field of the sum
    /// leaves the machine-integer range.
    pub fn merge(&self, other: &Metrics) -> (r: Option<Metrics>)
        requires
            self.wf(),
            other.wf(),
        ensures
            match r {
                Some(s) => merge_fits(self@, other@) && s@ == metrics_merge(self@, other@)
                    && s.wf(),
                None => !merge_fits(self@, other@),
            },
    {
        let count = match self.count.checked_add(other.count) {
            Some(c) => c,
            None => {
                return None;
            },
        };
        let nargs = match self.nargs.checked_add(other.nargs) {
            Some(v) => v,
            None => {
                return None;
            },
        };
        let nexits = match self.nexits.checked_add(other.nexits) {
            Some(v) => v,
            None => {
                return None;
            },
        };
        let cognitive = match self.cognitive.checked_add(other.cognitive) {
            Some(v) => v,
            None => {
                return None;
            },
        };
        let cyclomatic = match self.cyclomatic.checked_add(other.cyclomatic) {
            Some(v) => v,
            None => {
                return None;
            },
        };
        let halstead_n1 = match self.halstead_n1.checked_add(other.halstead_n1) {
            Some(v) => v,
            None => {
                return None;
            },
        };
        let halstead_capital_n1 = match self.halstead_capital_n1.checked_add(other.halstead_capital_n1) {
            Some(v) => v,
            None => {
                return None;
            },
        };
        let halstead_n2 = match self.halstead_n2.checked_add(other.halstead_n2) {
            Some(v) => v,
            None => {
                return None;
            },
        };
        let halstead_capital_n2 = match self.halstead_capital_n2.checked_add(other.halstead_capital_n2) {
            Some(v) => v,
            None => {
                return None;
            },
        };
        let halstead_length = match self.halstead_length.checked_add(other.halstead_length) {
            Some(v) => v,
            None => {
                return None;
            },
        };
        let halstead_estimated_program_length = match self.halstead_estimated_program_length.checked_add(other.halstead_estimated_program_length) {
            Some(v) => v,
            None => {
                return None;
            },
        };
        let halstead_purity_ratio = match self.halstead_purity_ratio.checked_add(other.halstead_purity_ratio) {
            Some(v) => v,
            None => {
                return None;
            },
        };
        let halstead_vocabulary = match self.halstead_vocabulary.checked_add(other.halstead_vocabulary) {
            Some(v) => v,
            None => {
                return None;
            },
        };
        let halstead_volume = match self.halstead_volume.checked_add(other.halstead_volume) {
            Some(v) => v,
            None => {
                return None;
            },
        };
        let halstead_difficulty = match self.halstead_difficulty.checked_add(other.halstead_difficulty) {
            Some(v) => v,
            None => {
                return None;
            },
        };
        let halstead_level = match self.halstead_level.checked_add(other.halstead_level) {
            Some(v) => v,
            None => {
                return None;
            },
        };
        let halstead_effort = match self.halstead_effort.checked_add(other.halstead_effort) {
            Some(v) => v,
            None => {
                return None;
            },
        };
        let halstead_time = match self.halstead_time.checked_add(other.halstead_time) {
            Some(v) => v,
            None => {
                return None;
            },
        };
        let halstead_bugs = match self.halstead_bugs.checked_add(other.halstead_bugs) {
            Some(v) => v,
            None => {
                return None;
            },
        };
        let sloc = match self.sloc.checked_add(other.sloc) {
            Some(v) => v,
            None => {
                return None;
            },
        };
        let ploc = match self.ploc.checked_add(other.ploc) {
            Some(v) => v,
            None => {
                return None;
            },
        };
        let lloc = match self.lloc.checked_add(other.lloc) {
            Some(v) => v,
            None => {
                return None;
            },
        };
        let cloc = match self.cloc.checked_add(other.cloc) {
            Some(v) => v,
            None => {
                return None;
            },
        };
        let blank = match self.blank.checked_add(other.blank) {
            Some(v) => v,
            None => {
                return None;
            },
        };
        let functions = match self.functions.checked_add(other.functions) {
            Some(v) => v,
            None => {
                return None;
            },
        };
        let closures = match self.closures.checked_add(other.closures) {
            Some(v) => v,
            None => {
                return None;
            },
        };
        let mi_original = match self.mi_original.checked_add(other.mi_original) {
            Some(v) => v,
            None => {
                return None;
            },
        };
        let mi_sei = match self.mi_sei.checked_add(other.mi_sei) {
            Some(v) => v,
            None => {
                return None;
            },
        };
        let mi_visual_studio = match self.mi_visual_studio.checked_add(other.mi_visual_studio) {
            Some(v) => v,
            None => {
                return None;
            },
        };
        Some(
            Metrics {
                count,
                nargs,
                nexits,
                cognitive,
                cyclomatic,
                halstead_n1,
                halstead_capital_n1,
                halstead_n2,
                halstead_capital_n2,
                halstead_length,
                halstead_estimated_program_length,
                halstead_purity_ratio,
                halstead_vocabulary,
                halstead_volume,
                halstead_difficulty,
                halstead_level,
                halstead_effort,
                halstead_time,
                halstead_bugs,
                sloc,
                ploc,
                lloc,
                cloc,
                blank,
                functions,
                closures,
                mi_original,
                mi_sei,
                mi_visual_studio,
            },
        )
    }

    /// Weighs the accumulator by the exact fraction `w`: density and
    /// complexity fields are scaled, size fields and the count kept; `None`
    /// when a scaled field leaves the machine-integer range.
    pub fn weigh(&self, w: Rat) -> (r: Option<Metrics>)
        requires
            self.wf(),
            w.wf(),
        ensures
            match r {
                Some(s) => weigh_fits(self@, w@) && s@ == metrics_weigh(self@, w@) && s.wf(),
                None => !weigh_fits(self@, w@),
            },
    {
        let cognitive = match self.cognitive.checked_mul(w) {
            Some(v) => v,
            None => {
                return None;
            },
        };
        let cyclomatic = match self.cyclomatic.checked_mul(w) {
            Some(v) => v,
            None => {
                return None;
            },
        };
        let halstead_n1 = match self.halstead_n1.checked_mul(w) {
            Some(v) => v,
            None => {
                return None;
            },
        };
        let halstead_capital_n1 = match self.halstead_capital_n1.checked_mul(w) {
            Some(v) => v,
            None => {
                return None;
            },
        };
        let halstead_n2 = match self.halstead_n2.checked_mul(w) {
            Some(v) => v,
            None => {
                return None;
            },
        };
        let halstead_capital_n2 = match self.halstead_capital_n2.checked_mul(w) {
            Some(v) => v,
            None => {
                return None;
            },
        };
        let halstead_length = match self.halstead_length.checked_mul(w) {
            Some(v) => v,
            None => {
                return None;
            },
        };
        let halstead_estimated_program_length = match self.halstead_estimated_program_length.checked_mul(w) {
            Some(v) => v,
            None => {
                return None;
            },
        };
        let halstead_purity_ratio = match self.halstead_purity_ratio.checked_mul(w) {
            Some(v) => v,
            None => {
                return None;
            },
        };
        let halstead_vocabulary = match self.halstead_vocabulary.checked_mul(w) {
            Some(v) => v,
            None => {
                return None;
            },
        };
        let halstead_volume = match self.halstead_volume.checked_mul(w) {
            Some(v) => v,
            None => {
                return None;
            },
        };
        let halstead_difficulty = match self.halstead_difficulty.checked_mul(w) {
            Some(v) => v,
            None => {
                return None;
            },
        };
        let halstead_level = match self.halstead_level.checked_mul(w) {
            Some(v) => v,
            None => {
                return None;
            },
        };
        let halstead_effort = match self.halstead_effort.checked_mul(w) {
            Some(v) => v,
            None => {
                return None;
            },
        };
        let halstead_time = match self.halstead_time.checked_mul(w) {
            Some(v) => v,
            None => {
                return None;
            },
        };
        let halstead_bugs = match self.halstead_bugs.checked_mul(w) {
            Some(v) => v,
            None => {
                return None;
            },
        };
        let mi_original = match self.mi_original.checked_mul(w) {
            Some(v) => v,
            None => {
                return None;
            },
        };
        let mi_sei = match self.mi_sei.checked_mul(w) {
            Some(v) => v,
            None => {
                return None;
            },
        };
        let mi_visual_studio = match self.mi_visual_studio.checked_mul(w) {
            Some(v) => v,
            None => {
                return None;
            },
        };
        Some(
            Metrics {
                count: self.count,
                nargs: self.nargs,
                nexits: self.nexits,
                cognitive,
                cyclomatic,
                halstead_n1,
                halstead_capital_n1,
                halstead_n2,
                halstead_capital_n2,
                halstead_length,
                halstead_estimated_program_length,
                halstead_purity_ratio,
                halstead_vocabulary,
                halstead_volume,
                halstead_difficulty,
                halstead_level,
                halstead_effort,
                halstead_time,
                halstead_bugs,
                sloc: self.sloc,
                ploc: self.ploc,
                lloc: self.lloc,
                cloc: self.cloc,
                blank: self.blank,
                functions: self.functions,
                closures: self.closures,
                mi_original,
                mi_sei,
                mi_visual_studio,
            },
        )
    }

    /// The average of the accumulated samples. `None` when no samples were
    /// accumulated - the average is undefined then, not zero - or when an
    /// enlarged denominator leaves the machine-integer range.
    pub fn avg(&self) -> (r: Option<Metrics>)
        requires
            self.wf(),
        ensures
            r is Some <==> self.count > 0 && avg_fits(self@),
            r matches Some(s) ==> s@ == metrics_avg(self@) && s.wf(),
    {
        if self.count == 0 {
            return None;
        }
        let nargs = match self.nargs.checked_div_count(self.count) {
            Some(v) => v,
            None => {
                return None;
            },
        };
        let nexits = match self.nexits.checked_div_count(self.count) {
            Some(v) => v,
            None => {
                return None;
            },
        };
        let cognitive = match self.cognitive.checked_div_count(self.count) {
            Some(v) => v,
            None => {
                return None;
            },
        };
        let cyclomatic = match self.cyclomatic.checked_div_count(self.count) {
            Some(v) => v,
            None => {
                return None;
            },
        };
        let halstead_n1 = match self.halstead_n1.checked_div_count(self.count) {
            Some(v) => v,
            None => {
                return None;
            },
        };
        let halstead_capital_n1 = match self.halstead_capital_n1.checked_div_count(self.count) {
            Some(v) => v,
            None => {
                return None;
            },
        };
        let halstead_n2 = match self.halstead_n2.checked_div_count(self.count) {
            Some(v) => v,
            None => {
                return None;
            },
        };
        let halstead_capital_n2 = match self.halstead_capital_n2.checked_div_count(self.count) {
            Some(v) => v,
            None => {
                return None;
            },
        };
        let halstead_length = match self.halstead_length.checked_div_count(self.count) {
            Some(v) => v,
            None => {
                return None;
            },
        };
        let halstead_estimated_program_length = match self.halstead_estimated_program_length.checked_div_count(self.count) {
            Some(v) => v,
            None => {
                return None;
            },
        };
        let halstead_purity_ratio = match self.halstead_purity_ratio.checked_div_count(self.count) {
            Some(v) => v,
            None => {
                return None;
            },
        };
        let halstead_vocabulary = match self.halstead_vocabulary.checked_div_count(self.count) {
            Some(v) => v,
            None => {
                return None;
            },
        };
        let halstead_volume = match self.halstead_volume.checked_div_count(self.count) {
            Some(v) => v,
            None => {
                return None;
            },
        };
        let halstead_difficulty = match self.halstead_difficulty.checked_div_count(self.count) {
            Some(v) => v,
            None => {
                return None;
            },
        };
        let halstead_level = match self.halstead_level.checked_div_count(self.count) {
            Some(v) => v,
            None => {
                return None;
            },
        };
        let halstead_effort = match self.halstead_effort.checked_div_count(self.count) {
            Some(v) => v,
            None => {
                return None;
            },
        };
        let halstead_time = match self.halstead_time.checked_div_count(self.count) {
            Some(v) => v,
            None => {
                return None;
            },
        };
        let halstead_bugs = match self.halstead_bugs.checked_div_count(self.count) {
            Some(v) => v,
            None => {
                return None;
            },
        };
        let sloc = match self.sloc.checked_div_count(self.count) {
            Some(v) => v,
            None => {
                return None;
            },
        };
        let ploc = match self.ploc.checked_div_count(self.count) {
            Some(v) => v,
            None => {
                return None;
            },
        };
        let lloc = match self.lloc.checked_div_count(self.count) {
            Some(v) => v,
            None => {
                return None;
            },
        };
        let cloc = match self.cloc.checked_div_count(self.count) {
            Some(v) => v,
            None => {
                return None;
            },
        };
        let blank = match self.blank.checked_div_count(self.count) {
            Some(v) => v,
            None => {
                return None;
            },
        };
        let functions = match self.functions.checked_div_count(self.count) {
            Some(v) => v,
            None => {
                return None;
            },
        };
        let closures = match self.closures.checked_div_count(self.count) {
            Some(v) => v,
            None => {
                return None;
            },
        };
        let mi_original = match self.mi_original.checked_div_count(self.count) {
            Some(v) => v,
            None => {
                return None;
            },
        };
        let mi_sei = match self.mi_sei.checked_div_count(self.count) {
            Some(v) => v,
            None => {
                return None;
            },
        };
        let mi_visual_studio = match self.mi_visual_studio.checked_div_count(self.count) {
            Some(v) => v,
            None => {
                return None;
            },
        };
        Some(
            Metrics {
                count: 0,
                nargs,
                nexits,
                cognitive,
                cyclomatic,
                halstead_n1,
                halstead_capital_n1,
                halstead_n2,
                halstead_capital_n2,
                halstead_length,
                halstead_estimated_program_length,
                halstead_purity_ratio,
                halstead_vocabulary,
                halstead_volume,
                halstead_difficulty,
                halstead_level,
                halstead_effort,
                halstead_time,
                halstead_bugs,
                sloc,
                ploc,
                lloc,
                cloc,
                blank,
                functions,
                closures,
                mi_original,
                mi_sei,
                mi_visual_studio,
            },
        )
    }
}

/// Merging accumulators is commutative, exactly.
pub proof fn lemma_merge_comm(a: MetricsV, b: MetricsV)
    ensures
        metrics_merge(a, b) == metrics_merge(b, a),
{
    lemma_rat_add_comm(a.nargs, b.nargs);
    lemma_rat_add_comm(a.nexits, b.nexits);
    lemma_rat_add_comm(a.cognitive, b.cognitive);
    lemma_rat_add_comm(a.cyclomatic, b.cyclomatic);
    lemma_rat_add_comm(a.halstead_n1, b.halstead_n1);
    lemma_rat_add_comm(a.halstead_capital_n1, b.halstead_capital_n1);
    lemma_rat_add_comm(a.halstead_n2, b.halstead_n2);
    lemma_rat_add_comm(a.halstead_capital_n2, b.halstead_capital_n2);
    lemma_rat_add_comm(a.halstead_length, b.halstead_length);
    lemma_rat_add_comm(a.halstead_estimated_program_length, b.halstead_estimated_program_length);
    lemma_rat_add_comm(a.halstead_purity_ratio, b.halstead_purity_ratio);
    lemma_rat_add_comm(a.halstead_vocabulary, b.halstead_vocabulary);
    lemma_rat_add_comm(a.halstead_volume, b.halstead_volume);
    lemma_rat_add_comm(a.halstead_difficulty, b.halstead_difficulty);
    lemma_rat_add_comm(a.halstead_level, b.halstead_level);
    lemma_rat_add_comm(a.halstead_effort, b.halstead_effort);
    lemma_rat_add_comm(a.halstead_time, b.halstead_time);
    lemma_rat_add_comm(a.halstead_bugs, b.halstead_bugs);
    lemma_rat_add_comm(a.sloc, b.sloc);
    lemma_rat_add_comm(a.ploc, b.ploc);
    lemma_rat_add_comm(a.lloc, b.lloc);
    lemma_rat_add_comm(a.cloc, b.cloc);
    lemma_rat_add_comm(a.blank, b.blank);
    lemma_rat_add_comm(a.functions, b.functions);
    lemma_rat_add_comm(a.closures, b.closures);
    lemma_rat_add_comm(a.mi_original, b.mi_original);
    lemma_rat_add_comm(a.mi_sei, b.mi_sei);
    lemma_rat_add_comm(a.mi_visual_studio, b.mi_visual_studio);
}

/// Merging accumulators is associative, exactly: any partition of a set of
/// samples into sub-accumulators merges to the same total.
pub proof fn lemma_merge_assoc(a: MetricsV, b: MetricsV, c: MetricsV)
    ensures
        metrics_merge(metrics_merge(a, b), c) == metrics_merge(a, metrics_merge(b, c)),
{
    lemma_rat_add_assoc(a.nargs, b.nargs, c.nargs);
    lemma_rat_add_assoc(a.nexits, b.nexits, c.nexits);
    lemma_rat_add_assoc(a.cognitive, b.cognitive, c.cognitive);
    lemma_rat_add_assoc(a.cyclomatic, b.cyclomatic, c.cyclomatic);
    lemma_rat_add_assoc(a.halstead_n1, b.halstead_n1, c.halstead_n1);
    lemma_rat_add_assoc(a.halstead_capital_n1, b.halstead_capital_n1, c.halstead_capital_n1);
    lemma_rat_add_assoc(a.halstead_n2, b.halstead_n2, c.halstead_n2);
    lemma_rat_add_assoc(a.halstead_capital_n2, b.halstead_capital_n2, c.halstead_capital_n2);
    lemma_rat_add_assoc(a.halstead_length, b.halstead_length, c.halstead_length);
    lemma_rat_add_assoc(a.halstead_estimated_program_length, b.halstead_estimated_program_length, c.halstead_estimated_program_length);
    lemma_rat_add_assoc(a.halstead_purity_ratio, b.halstead_purity_ratio, c.halstead_purity_ratio);
    lemma_rat_add_assoc(a.halstead_vocabulary, b.halstead_vocabulary, c.halstead_vocabulary);
    lemma_rat_add_assoc(a.halstead_volume, b.halstead_volume, c.halstead_volume);
    lemma_rat_add_assoc(a.halstead_difficulty, b.halstead_difficulty, c.halstead_difficulty);
    lemma_rat_add_assoc(a.halstead_level, b.halstead_level, c.halstead_level);
    lemma_rat_add_assoc(a.halstead_effort, b.halstead_effort, c.halstead_effort);
    lemma_rat_add_assoc(a.halstead_time, b.halstead_time, c.halstead_time);
    lemma_rat_add_assoc(a.halstead_bugs, b.halstead_bugs, c.halstead_bugs);
    lemma_rat_add_assoc(a.sloc, b.sloc, c.sloc);
    lemma_rat_add_assoc(a.ploc, b.ploc, c.ploc);
    lemma_rat_add_assoc(a.lloc, b.lloc, c.lloc);
    lemma_rat_add_assoc(a.cloc, b.cloc, c.cloc);
    lemma_rat_add_assoc(a.blank, b.blank, c.blank);
    lemma_rat_add_assoc(a.functions, b.functions, c.functions);
    lemma_rat_add_assoc(a.closures, b.closures, c.closures);
    lemma_rat_add_assoc(a.mi_original, b.mi_original, c.mi_original);
    lemma_rat_add_assoc(a.mi_sei, b.mi_sei, c.mi_sei);
    lemma_rat_add_assoc(a.mi_visual_studio, b.mi_visual_studio, c.mi_visual_studio);
}

/// The empty accumulator is an identity for merging.
pub proof fn lemma_merge_zero(a: MetricsV)
    ensures
        metrics_merge(metrics_zero(), a) == a,
        metrics_merge(a, metrics_zero()) == a,
{
    lemma_rat_add_zero(a.nargs);
    lemma_rat_add_zero(a.nexits);
    lemma_rat_add_zero(a.cognitive);
    lemma_rat_add_zero(a.cyclomatic);
    lemma_rat_add_zero(a.halstead_n1);
    lemma_rat_add_zero(a.halstead_capital_n1);
    lemma_rat_add_zero(a.halstead_n2);
    lemma_rat_add_zero(a.halstead_capital_n2);
    lemma_rat_add_zero(a.halstead_length);
    lemma_rat_add_zero(a.halstead_estimated_program_length);
    lemma_rat_add_zero(a.halstead_purity_ratio);
    lemma_rat_add_zero(a.halstead_vocabulary);
    lemma_rat_add_zero(a.halstead_volume);
    lemma_rat_add_zero(a.halstead_difficulty);
    lemma_rat_add_zero(a.halstead_level);
    lemma_rat_add_zero(a.halstead_effort);
    lemma_rat_add_zero(a.halstead_time);
    lemma_rat_add_zero(a.halstead_bugs);
    lemma_rat_add_zero(a.sloc);
    lemma_rat_add_zero(a.ploc);
    lemma_rat_add_zero(a.lloc);
    lemma_rat_add_zero(a.cloc);
    lemma_rat_add_zero(a.blank);
    lemma_rat_add_zero(a.functions);
    lemma_rat_add_zero(a.closures);
    lemma_rat_add_zero(a.mi_original);
    lemma_rat_add_zero(a.mi_sei);
    lemma_rat_add_zero(a.mi_visual_studio);
}

/// Weighing twice composes into weighing once by the product of the
/// weights.
pub proof fn lemma_weigh_compose(m: MetricsV, w1: RatV, w2: RatV)
    ensures
        metrics_weigh(metrics_weigh(m, w1), w2) == metrics_weigh(m, rat_mul(w1, w2)),
{
    lemma_rat_mul_compose(m.cognitive, w1, w2);
    lemma_rat_mul_compose(m.cyclomatic, w1, w2);
    lemma_rat_mul_compose(m.halstead_n1, w1, w2);
    lemma_rat_mul_compose(m.halstead_capital_n1, w1, w2);
    lemma_rat_mul_compose(m.halstead_n2, w1, w2);
    lemma_rat_mul_compose(m.halstead_capital_n2, w1, w2);
    lemma_rat_mul_compose(m.halstead_length, w1, w2);
    lemma_rat_mul_compose(m.halstead_estimated_program_length, w1, w2);
    lemma_rat_mul_compose(m.halstead_purity_ratio, w1, w2);
    lemma_rat_mul_compose(m.halstead_vocabulary, w1, w2);
    lemma_rat_mul_compose(m.halstead_volume, w1, w2);
    lemma_rat_mul_compose(m.halstead_difficulty, w1, w2);
    lemma_rat_mul_compose(m.halstead_level, w1, w2);
    lemma_rat_mul_compose(m.halstead_effort, w1, w2);
    lemma_rat_mul_compose(m.halstead_time, w1, w2);
    lemma_rat_mul_compose(m.halstead_bugs, w1, w2);
    lemma_rat_mul_compose(m.mi_original, w1, w2);
    lemma_rat_mul_compose(m.mi_sei, w1, w2);
    lemma_rat_mul_compose(m.mi_visual_studio, w1, w2);
}

/// Weighing never changes the pure size fields nor the sample count,
/// whatever the weight.
pub proof fn lemma_weigh_preserves_size(m: MetricsV, w: RatV)
    ensures
        metrics_weigh(m, w).count == m.count,
        metrics_weigh(m, w).nargs == m.nargs,
        metrics_weigh(m, w).nexits == m.nexits,
        metrics_weigh(m, w).sloc == m.sloc,
        metrics_weigh(m, w).ploc == m.ploc,
        metrics_weigh(m, w).lloc == m.lloc,
        metrics_weigh(m, w).cloc == m.cloc,
        metrics_weigh(m, w).blank == m.blank,
        metrics_weigh(m, w).functions == m.functions,
        metrics_weigh(m, w).closures == m.closures,
{
}

/// Why a metrics payload could not be read into an accumulator.
#[derive(Clone, Copy, Debug, PartialEq, Eq, Structural)]
pub enum MetricsError {
    /// A value is present but does not denote a number.
    InvalidNumber,
}

/// An optional value inside a group is acceptable when it is absent (it
/// reads as zero) or denotes a number.
pub open spec fn leaf_ok(o: Option<Rat>) -> bool {
    o matches Some(v) ==> rat_wf(v@)
}

/// The number an optional value reads as.
pub open spec fn leaf_val(o: Option<Rat>) -> RatV {
    match o {
        Some(v) => v@,
        None => rat_zero(),
    }
}

/// Every value present on the payload denotes a number. A group that is
/// absent altogether reads as zeros and is acceptable.
pub open spec fn raw_ok(r: RawMetrics) -> bool {
    &&& (r.nargs is Some ==> leaf_ok(r.nargs->0.sum))
    &&& (r.nexits is Some ==> leaf_ok(r.nexits->0.sum))
    &&& (r.cognitive is Some ==> leaf_ok(r.cognitive->0.sum))
    &&& (r.cyclomatic is Some ==> leaf_ok(r.cyclomatic->0.sum))
    &&& (r.halstead is Some ==> leaf_ok(r.halstead->0.n1))
    &&& (r.halstead is Some ==> leaf_ok(r.halstead->0.capital_n1))
    &&& (r.halstead is Some ==> leaf_ok(r.halstead->0.n2))
    &&& (r.halstead is Some ==> leaf_ok(r.halstead->0.capital_n2))
    &&& (r.halstead is Some ==> leaf_ok(r.halstead->0.length))
    &&& (r.halstead is Some ==> leaf_ok(r.halstead->0.estimated_program_length))
    &&& (r.halstead is Some ==> leaf_ok(r.halstead->0.purity_ratio))
    &&& (r.halstead is Some ==> leaf_ok(r.halstead->0.vocabulary))
    &&& (r.halstead is Some ==> leaf_ok(r.halstead->0.volume))
    &&& (r.halstead is Some ==> leaf_ok(r.halstead->0.difficulty))
    &&& (r.halstead is Some ==> leaf_ok(r.halstead->0.level))
    &&& (r.halstead is Some ==> leaf_ok(r.halstead->0.effort))
    &&& (r.halstead is Some ==> leaf_ok(r.halstead->0.time))
    &&& (r.halstead is Some ==> leaf_ok(r.halstead->0.bugs))
    &&& (r.loc is Some ==> leaf_ok(r.loc->0.sloc))
    &&& (r.loc is Some ==> leaf_ok(r.loc->0.ploc))
    &&& (r.loc is Some ==> leaf_ok(r.loc->0.lloc))
    &&& (r.loc is Some ==> leaf_ok(r.loc->0.cloc))
    &&& (r.loc is Some ==> leaf_ok(r.loc->0.blank))
    &&& (r.nom is Some ==> leaf_ok(r.nom->0.functions))
    &&& (r.nom is Some ==> leaf_ok(r.nom->0.closures))
    &&& (r.mi is Some ==> leaf_ok(r.mi->0.mi_original))
    &&& (r.mi is Some ==> leaf_ok(r.mi->0.mi_sei))
    &&& (r.mi is Some ==> leaf_ok(r.mi->0.mi_visual_studio))
}

/// The single-sample accumulator a payload reads into: every value read
/// from its group, absent values and absent groups reading as zero.
pub open spec fn raw_to_metrics(r: RawMetrics) -> MetricsV {
    MetricsV {
        count: 1,
        nargs: if r.nargs is Some {
            leaf_val(r.nargs->0.sum)
        } else {
            rat_zero()
        },
        nexits: if r.nexits is Some {
            leaf_val(r.nexits->0.sum)
        } else {
            rat_zero()
        },
        cognitive: if r.cognitive is Some {
            leaf_val(r.cognitive->0.sum)
        } else {
            rat_zero()
        },
        cyclomatic: if r.cyclomatic is Some {
            leaf_val(r.cyclomatic->0.sum)
        } else {
            rat_zero()
        },
        halstead_n1: if r.halstead is Some {
            leaf_val(r.halstead->0.n1)
        } else {
            rat_zero()
        },
        halstead_capital_n1: if r.halstead is Some {
            leaf_val(r.halstead->0.capital_n1)
        } else {
            rat_zero()
        },
        halstead_n2: if r.halstead is Some {
            leaf_val(r.halstead->0.n2)
        } else {
            rat_zero()
        },
        halstead_capital_n2: if r.halstead is Some {
            leaf_val(r.halstead->0.capital_n2)
        } else {
            rat_zero()
        },
        halstead_length: if r.halstead is Some {
            leaf_val(r.halstead->0.length)
        } else {
            rat_zero()
        },
        halstead_estimated_program_length: if r.halstead is Some {
            leaf_val(r.halstead->0.estimated_program_length)
        } else {
            rat_zero()
        },
        halstead_purity_ratio: if r.halstead is Some {
            leaf_val(r.halstead->0.purity_ratio)
        } else {
            rat_zero()
        },
        halstead_vocabulary: if r.halstead is Some {
            leaf_val(r.halstead->0.vocabulary)
        } else {
            rat_zero()
        },
        halstead_volume: if r.halstead is Some {
            leaf_val(r.halstead->0.volume)
        } else {
            rat_zero()
        },
        halstead_difficulty: if r.halstead is Some {
            leaf_val(r.halstead->0.difficulty)
        } else {
            rat_zero()
        },
        halstead_level: if r.halstead is Some {
            leaf_val(r.halstead->0.level)
        } else {
            rat_zero()
        },
        halstead_effort: if r.halstead is Some {
            leaf_val(r.halstead->0.effort)
        } else {
            rat_zero()
        },
        halstead_time: if r.halstead is Some {
            leaf_val(r.halstead->0.time)
        } else {
            rat_zero()
        },
        halstead_bugs: if r.halstead is Some {
            leaf_val(r.halstead->0.bugs)
        } else {
            rat_zero()
        },
        sloc: if r.loc is Some {
            leaf_val(r.loc->0.sloc)
        } else {
            rat_zero()
        },
        ploc: if r.loc is Some {
            leaf_val(r.loc->0.ploc)
        } else {
            rat_zero()
        },
        lloc: if r.loc is Some {
            leaf_val(r.loc->0.lloc)
        } else {
            rat_zero()
        },
        cloc: if r.loc is Some {
            leaf_val(r.loc->0.cloc)
        } else {
            rat_zero()
        },
        blank: if r.loc is Some {
            leaf_val(r.loc->0.blank)
        } else {
            rat_zero()
        },
        functions: if r.nom is Some {
            leaf_val(r.nom->0.functions)
        } else {
            rat_zero()
        },
        closures: if r.nom is Some {
            leaf_val(r.nom->0.closures)
        } else {
            rat_zero()
        },
        mi_original: if r.mi is Some {
            leaf_val(r.mi->0.mi_original)
        } else {
            rat_zero()
        },
        mi_sei: if r.mi is Some {
            leaf_val(r.mi->0.mi_sei)
        } else {
            rat_zero()
        },
        mi_visual_studio: if r.mi is Some {
            leaf_val(r.mi->0.mi_visual_studio)
        } else {
            rat_zero()
        },
    }
}

/// Reads one optional value of a metrics group.
fn read_leaf(o: &Option<Rat>) -> (r: Result<Rat, MetricsError>)
    ensures
        r is Ok <==> leaf_ok(*o),
        r matches Ok(v) ==> v@ == leaf_val(*o) && v.wf(),
        r is Err ==> r == Err::<Rat, MetricsError>(MetricsError::InvalidNumber),
{
    match o {
        Some(v) => {
            if v.den >= 1 {
                Ok(*v)
            } else {
                Err(MetricsError::InvalidNumber)
            }
        },
        None => Ok(Rat::zero()),
    }
}

impl Metrics {
    /// Reads the metrics payload of one space into a single-sample
    /// accumulator. A value that is absent, or a group that is absent
    /// altogether, reads as zero; a value that is present but does not
    /// denote a number is a hard error for the node that carries the
    /// payload.
    pub fn from_value(raw: &RawMetrics) -> (r: Result<Metrics, MetricsError>)
        ensures
            r is Ok <==> raw_ok(*raw),
            r matches Ok(m) ==> m@ == raw_to_metrics(*raw) && m.wf(),
            r is Err ==> r == Err::<Metrics, MetricsError>(MetricsError::InvalidNumber),
    {
        let nargs = match &raw.nargs {
            Some(g) => match read_leaf(&g.sum) {
                Ok(v) => v,
                Err(e) => {
                    return Err(e);
                },
            },
            None => Rat::zero(),
        };
        let nexits = match &raw.nexits {
            Some(g) => match read_leaf(&g.sum) {
                Ok(v) => v,
                Err(e) => {
                    return Err(e);
                },
            },
            None => Rat::zero(),
        };
        let cognitive = match &raw.cognitive {
            Some(g) => match read_leaf(&g.sum) {
                Ok(v) => v,
                Err(e) => {
                    return Err(e);
                },
            },
            None => Rat::zero(),
        };
        let cyclomatic = match &raw.cyclomatic {
            Some(g) => match read_leaf(&g.sum) {
                Ok(v) => v,
                Err(e) => {
                    return Err(e);
                },
            },
            None => Rat::zero(),
        };
        let halstead_n1 = match &raw.halstead {
            Some(g) => match read_leaf(&g.n1) {
                Ok(v) => v,
                Err(e) => {
                    return Err(e);
                },
            },
            None => Rat::zero(),
        };
        let halstead_capital_n1 = match &raw.halstead {
            Some(g) => match read_leaf(&g.capital_n1) {
                Ok(v) => v,
                Err(e) => {
                    return Err(e);
                },
            },
            None => Rat::zero(),
        };
        let halstead_n2 = match &raw.halstead {
            Some(g) => match read_leaf(&g.n2) {
                Ok(v) => v,
                Err(e) => {
                    return Err(e);
                },
            },
            None => Rat::zero(),
        };
        let halstead_capital_n2 = match &raw.halstead {
            Some(g) => match read_leaf(&g.capital_n2) {
                Ok(v) => v,
                Err(e) => {
                    return Err(e);
                },
            },
            None => Rat::zero(),
        };
        let halstead_length = match &raw.halstead {
            Some(g) => match read_leaf(&g.length) {
                Ok(v) => v,
                Err(e) => {
                    return Err(e);
                },
            },
            None => Rat::zero(),
        };
        let halstead_estimated_program_length = match &raw.halstead {
            Some(g) => match read_leaf(&g.estimated_program_length) {
                Ok(v) => v,
                Err(e) => {
                    return Err(e);
                },
            },
            None => Rat::zero(),
        };
        let halstead_purity_ratio = match &raw.halstead {
            Some(g) => match read_leaf(&g.purity_ratio) {
                Ok(v) => v,
                Err(e) => {
                    return Err(e);
                },
            },
            None => Rat::zero(),
        };
        let halstead_vocabulary = match &raw.halstead {
            Some(g) => match read_leaf(&g.vocabulary) {
                Ok(v) => v,
                Err(e) => {
                    return Err(e);
                },
            },
            None => Rat::zero(),
        };
        let halstead_volume = match &raw.halstead {
            Some(g) => match read_leaf(&g.volume) {
                Ok(v) => v,
                Err(e) => {
                    return Err(e);
                },
            },
            None => Rat::zero(),
        };
        let halstead_difficulty = match &raw.halstead {
            Some(g) => match read_leaf(&g.difficulty) {
                Ok(v) => v,
                Err(e) => {
                    return Err(e);
                },
            },
            None => Rat::zero(),
        };
        let halstead_level = match &raw.halstead {
            Some(g) => match read_leaf(&g.level) {
                Ok(v) => v,
                Err(e) => {
                    return Err(e);
                },
            },
            None => Rat::zero(),
        };
        let halstead_effort = match &raw.halstead {
            Some(g) => match read_leaf(&g.effort) {
                Ok(v) => v,
                Err(e) => {
                    return Err(e);
                },
            },
            None => Rat::zero(),
        };
        let halstead_time = match &raw.halstead {
            Some(g) => match read_leaf(&g.time) {
                Ok(v) => v,
                Err(e) => {
                    return Err(e);
                },
            },
            None => Rat::zero(),
        };
        let halstead_bugs = match &raw.halstead {
            Some(g) => match read_leaf(&g.bugs) {
                Ok(v) => v,
                Err(e) => {
                    return Err(e);
                },
            },
            None => Rat::zero(),
        };
        let sloc = match &raw.loc {
            Some(g) => match read_leaf(&g.sloc) {
                Ok(v) => v,
                Err(e) => {
                    return Err(e);
                },
            },
            None => Rat::zero(),
        };
        let ploc = match &raw.loc {
            Some(g) => match read_leaf(&g.ploc) {
                Ok(v) => v,
                Err(e) => {
                    return Err(e);
                },
            },
            None => Rat::zero(),
        };
        let lloc = match &raw.loc {
            Some(g) => match read_leaf(&g.lloc) {
                Ok(v) => v,
                Err(e) => {
                    return Err(e);
                },
            },
            None => Rat::zero(),
        };
        let cloc = match &raw.loc {
            Some(g) => match read_leaf(&g.cloc) {
                Ok(v) => v,
                Err(e) => {
                    return Err(e);
                },
            },
            None => Rat::zero(),
        };
        let blank = match &raw.loc {
            Some(g) => match read_leaf(&g.blank) {
                Ok(v) => v,
                Err(e) => {
                    return Err(e);
                },
            },
            None => Rat::zero(),
        };
        let functions = match &raw.nom {
            Some(g) => match read_leaf(&g.functions) {
                Ok(v) => v,
                Err(e) => {
                    return Err(e);
                },
            },
            None => Rat::zero(),
        };
        let closures = match &raw.nom {
            Some(g) => match read_leaf(&g.closures) {
                Ok(v) => v,
                Err(e) => {
                    return Err(e);
                },
            },
            None => Rat::zero(),
        };
        let mi_original = match &raw.mi {
            Some(g) => match read_leaf(&g.mi_original) {
                Ok(v) => v,
                Err(e) => {
                    return Err(e);
                },
            },
            None => Rat::zero(),
        };
        let mi_sei = match &raw.mi {
            Some(g) => match read_leaf(&g.mi_sei) {
                Ok(v) => v,
                Err(e) => {
                    return Err(e);
                },
            },
            None => Rat::zero(),
        };
        let mi_visual_studio = match &raw.mi {
            Some(g) => match read_leaf(&g.mi_visual_studio) {
                Ok(v) => v,
                Err(e) => {
                    return Err(e);
                },
            },
            None => Rat::zero(),
        };
        Ok(
            Metrics {
                count: 1,
                nargs,
                nexits,
                cognitive,
                cyclomatic,
                halstead_n1,
                halstead_capital_n1,
                halstead_n2,
                halstead_capital_n2,
                halstead_length,
                halstead_estimated_program_length,
                halstead_purity_ratio,
                halstead_vocabulary,
                halstead_volume,
                halstead_difficulty,
                halstead_level,
                halstead_effort,
                halstead_time,
                halstead_bugs,
                sloc,
                ploc,
                lloc,
                cloc,
                blank,
                functions,
                closures,
                mi_original,
                mi_sei,
                mi_visual_studio,
            },
        )
    }
}

} // verus!
