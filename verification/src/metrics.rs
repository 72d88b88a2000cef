//! Derived display metrics of a fetched post: the word count of its content
//! and the estimated reading time computed from reading-speed bounds.

use vstd::prelude::*;
use vstd::arithmetic::div_mod::{lemma_div_decreases, lemma_mod_division_less_than_divisor, lemma_small_mod};
use crate::numerals::decimal_digits;

verus! {

/// Characters-per-minute of a typical reader, the midpoint of the modeled
/// fast/slow range.
pub const CPM_BASE: usize = 987;

/// Half-width of the modeled characters-per-minute range.
pub const CPM_VARIANCE: usize = 118;

/// The number of words that counting `content` with locale-aware word
/// boundaries yields. A function of the characters alone; its exact value is
/// fixed by the counting collaborator, not restated here.
pub uninterp spec fn word_count_of(content: Seq<char>) -> nat;

/// Relies on words_count::count: the word total is computed from the
/// argument's characters alone, and empty content holds no words.
#[verifier::external_body]
pub fn word_count(content: &str) -> (n: usize)
    ensures
        n as nat == word_count_of(content@),
        content@.len() == 0 ==> n == 0,
{
    words_count::count(content).words
}

/// Law: the word count is a function of the content alone, so repeated
/// counts of identical content agree, and no count is negative.
pub proof fn lemma_word_count_stable(a: Seq<char>, b: Seq<char>)
    requires
        a == b,
    ensures
        word_count_of(a) == word_count_of(b),
        word_count_of(a) >= 0,
{
}

/// The reading-speed bounds the estimate is computed from: immutable
/// configuration, passed in rather than hidden, so tests can vary it.
#[derive(Clone, Copy, Debug, PartialEq, Eq, Structural)]
pub struct ReadingSpeed {
    /// Characters per minute of a typical reader.
    pub cpm_base: usize,
    /// Half-width of the fast/slow range around the base.
    pub cpm_variance: usize,
}

impl ReadingSpeed {
    /// Bounds the estimate can be computed from: the slow rate stays
    /// positive and the fast rate fits the machine.
    pub open spec fn wf(self) -> bool {
        &&& self.cpm_variance < self.cpm_base
        &&& self.cpm_base + self.cpm_variance <= usize::MAX
    }

    /// The default bounds, modeling English reading speeds.
    pub fn default_bounds() -> (s: ReadingSpeed)
        ensures
            s == (ReadingSpeed { cpm_base: CPM_BASE, cpm_variance: CPM_VARIANCE }),
            s.wf(),
    {
        ReadingSpeed { cpm_base: CPM_BASE, cpm_variance: CPM_VARIANCE }
    }
}

/// The ceiling of `a / b` over non-negative integers.
pub open spec fn ceil_div(a: nat, b: nat) -> nat
    recommends
        b > 0,
{
    if a % b == 0 {
        a / b
    } else {
        a / b + 1
    }
}

/// Integer division rounding up.
fn div_round_up(a: usize, b: usize) -> (r: usize)
    requires
        b >= 1,
    ensures
        r as nat == ceil_div(a as nat, b as nat),
{
    let q = a / b;
    let rem = a % b;
    if rem == 0 {
        q
    } else {
        proof {
            lemma_mod_division_less_than_divisor(a as int, b as int);
            if a == 0 {
                lemma_small_mod(0nat, b as nat);
            }
            lemma_div_decreases(a as int, b as int);
        }
        q + 1
    }
}

/// The word every label ends in, singular exactly when the slow estimate
/// is one minute.
pub open spec fn minutes_word(slow_minutes: nat) -> Seq<char> {
    if slow_minutes == 1 {
        " minute"@
    } else {
        " minutes"@
    }
}

/// The reading-time label for content of `length` characters: the slow and
/// fast minute estimates are the ceilings of the length over the slow and
/// fast rates; equal estimates yield a single figure, distinct ones a
/// `fast-slow` range. Pluralization is keyed off the slow estimate alone,
/// also in the range case: a deliberate, slightly lopsided rule that is
/// kept as it is.
pub open spec fn reading_time_label(length: nat, speed: ReadingSpeed) -> Seq<char>
    recommends
        speed.wf(),
{
    let slow = ceil_div(length, (speed.cpm_base - speed.cpm_variance) as nat);
    let fast = ceil_div(length, (speed.cpm_base + speed.cpm_variance) as nat);
    if slow == fast {
        decimal_digits(slow) + minutes_word(slow)
    } else {
        decimal_digits(fast) + "-"@ + decimal_digits(slow) + minutes_word(slow)
    }
}

/// Computes the estimated-reading-time label for content of `length`
/// characters. Zero-length content yields zero minutes for both bounds and
/// so the label `0 minutes`, with no division by zero: the slow rate is
/// positive whenever the bounds are well-formed.
pub fn reading_time(length: usize, speed: ReadingSpeed) -> (label: String)
    requires
        speed.wf(),
    ensures
        label@ == reading_time_label(length as nat, speed),
{
    proof {
        reveal_strlit(" minute");
        reveal_strlit(" minutes");
        reveal_strlit("-");
    }
    let cpm_low = speed.cpm_base - speed.cpm_variance;
    let cpm_high = speed.cpm_base + speed.cpm_variance;
    let slow_minutes = div_round_up(length, cpm_low);
    let fast_minutes = div_round_up(length, cpm_high);
    let mut label = if slow_minutes == fast_minutes {
        crate::numerals::to_decimal(slow_minutes)
    } else {
        let mut range = crate::numerals::to_decimal(fast_minutes);
        range.append("-");
        let slow_digits = crate::numerals::to_decimal(slow_minutes);
        range.append(slow_digits.as_str());
        range
    };
    if slow_minutes != 1 {
        label.append(" minutes");
    } else {
        label.append(" minute");
    }
    proof {
        assert(label@ =~= reading_time_label(length as nat, speed));
    }
    label
}

/// The metrics derived once per successfully fetched post; never mutated,
/// recomputed only when the post is refetched for a new identifier.
#[derive(Clone, Debug)]
pub struct DerivedMetrics {
    /// The number of words in the post's content.
    pub word_count: usize,
    /// The human-readable estimated reading time.
    pub reading_time_label: String,
}

impl DerivedMetrics {
    /// What the metrics of `content` under `speed` must be.
    pub open spec fn derived_from(self, content: Seq<char>, speed: ReadingSpeed) -> bool {
        &&& self.word_count as nat == word_count_of(content)
        &&& self.reading_time_label@ == reading_time_label(content.len(), speed)
    }
}

/// Computes both display metrics of a post's content: the word count with
/// locale-aware boundaries and the reading-time label over the content's
/// character length.
pub fn compute_metrics(content: &str, speed: ReadingSpeed) -> (m: DerivedMetrics)
    requires
        speed.wf(),
    ensures
        m.derived_from(content@, speed),
{
    let words = word_count(content);
    let length = content.unicode_len();
    let label = reading_time(length, speed);
    DerivedMetrics { word_count: words, reading_time_label: label }
}

} // verus!
