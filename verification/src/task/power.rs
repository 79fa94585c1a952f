//! # Power
//! The noise filtering of the power readings: the debouncing of the USB power pin, and the
//! median of the ADC samples of the system voltage, taken with `moving_median`.
use vstd::prelude::*;
use vstd::relations::{sorted_by, total_ordering};

use moving_median::{MovingMedian, NanError};

verus! {

/// Number of consecutive readings required to confirm a USB state change
pub const VBUS_DEBOUNCE_COUNT: u8 = 5;

/// Delay between debounce samples (milliseconds)
pub const VBUS_DEBOUNCE_DELAY_MS: u64 = 10;

/// Number of ADC samples to median for voltage reading
pub const VSYS_SAMPLE_COUNT: usize = 9;

/// Delay between ADC samples (milliseconds)
pub const VSYS_SAMPLE_DELAY_MS: u64 = 5;

/// Seconds between two readings of the system voltage, unless woken earlier
pub const VSYS_DOWNTIME_SECS: u64 = 600;

/// The largest value of the 12-bit ADC.
pub const ADC_MAX: u16 = 4095;

#[verifier::external_type_specification]
#[verifier::external_body]
#[verifier::reject_recursive_types(T)]
pub struct ExMovingMedian<T, const N: usize>(MovingMedian<T, N>);

#[verifier::external_type_specification]
#[verifier::external_body]
pub struct ExNanError(NanError);

/// The values a nine-sample median filter holds, oldest first.
pub uninterp spec fn median_window(filter: MovingMedian<u16, 9>) -> Seq<u16>;

/// The window after a value is added: the value is appended, and once the window holds nine
/// values the oldest leaves.
pub open spec fn window_after(w: Seq<u16>, v: u16) -> Seq<u16> {
    if w.len() < 9 { w.push(v) } else { w.drop_first().push(v) }
}

/// The ascending order on samples.
pub open spec fn sample_leq() -> spec_fn(u16, u16) -> bool {
    |a: u16, b: u16| a <= b
}

/// The samples in ascending order.
pub open spec fn sorted_samples(s: Seq<u16>) -> Seq<u16> {
    s.sort_by(sample_leq())
}

/// The median of a non-empty sequence of samples: the middle of the sorted samples, or for an
/// even count the integer mean of the two middle ones.
pub open spec fn median_of(s: Seq<u16>) -> int {
    let t = sorted_samples(s);
    let n = s.len() as int;
    if n % 2 == 0 { (t[n / 2 - 1] + t[n / 2]) / 2 } else { t[n / 2] as int }
}

/// Whether the even-count mean of the median can be formed in a `u16`.
pub open spec fn median_fits(s: Seq<u16>) -> bool {
    let t = sorted_samples(s);
    let n = s.len() as int;
    n % 2 == 0 && n > 0 ==> t[n / 2 - 1] + t[n / 2] <= u16::MAX
}

/// Creates an empty nine-sample filter with `MovingMedian::new`.
#[verifier::external_body]
fn median_filter_new() -> (filter: MovingMedian<u16, 9>)
    ensures
        median_window(filter) == Seq::<u16>::empty(),
{
    MovingMedian::new()
}

/// Adds a sample with `MovingMedian::add_value`, which writes it over the oldest slot of its
/// ring buffer once the buffer is full; a `u16` is never NaN, so the call never fails.
#[verifier::external_body]
fn median_filter_add(filter: &mut MovingMedian<u16, 9>, value: u16) -> (r: Result<(), NanError>)
    ensures
        r.is_ok(),
        median_window(*final(filter)) == window_after(median_window(*old(filter)), value),
{
    filter.add_value(value)
}

/// The median with `MovingMedian::median`: `None` for an empty filter, else the middle of the
/// sorted values, or the mean of the two middle ones for an even count (whose sum must fit).
#[verifier::external_body]
fn median_filter_median(filter: &MovingMedian<u16, 9>) -> (m: Option<u16>)
    requires
        median_fits(median_window(*filter)),
    ensures
        median_window(*filter).len() == 0 ==> m.is_none(),
        median_window(*filter).len() > 0 ==> m == Some(median_of(median_window(*filter)) as u16),
{
    filter.median()
}

/// The samples that were read, in order.
pub open spec fn read_samples(reads: Seq<Option<u16>>) -> Seq<u16>
    decreases reads.len(),
{
    if reads.len() == 0 {
        Seq::empty()
    } else if reads.last().is_some() {
        read_samples(reads.drop_last()).push(reads.last().unwrap())
    } else {
        read_samples(reads.drop_last())
    }
}

/// The last (at most) nine values of a sequence.
pub open spec fn last_nine(s: Seq<u16>) -> Seq<u16> {
    if s.len() <= 9 { s } else { s.subrange(s.len() - 9, s.len() as int) }
}

/// Adding values to a filter one by one leaves it holding the last nine of them.
proof fn lemma_window_after_last_nine(s: Seq<u16>, v: u16)
    ensures
        window_after(last_nine(s), v) == last_nine(s.push(v)),
{
    assert(window_after(last_nine(s), v) =~= last_nine(s.push(v)));
}

/// Every sample that was read is one of the reads.
proof fn lemma_read_samples_bounded(reads: Seq<Option<u16>>)
    requires
        forall|i: int| 0 <= i < reads.len() && (#[trigger] reads[i]).is_some() ==> reads[i].unwrap() <= ADC_MAX,
    ensures
        forall|i: int| 0 <= i < read_samples(reads).len() ==> #[trigger] read_samples(reads)[i] <= ADC_MAX,
    decreases reads.len(),
{
    if reads.len() > 0 {
        let init = reads.drop_last();
        assert forall|i: int| 0 <= i < init.len() && (#[trigger] init[i]).is_some() implies init[i].unwrap() <= ADC_MAX by {
            assert(init[i] == reads[i]);
        }
        lemma_read_samples_bounded(init);
        assert(reads.last() == reads[reads.len() - 1]);
        let rs = read_samples(reads);
        assert forall|i: int| 0 <= i < rs.len() implies #[trigger] rs[i] <= ADC_MAX by {
            if i < read_samples(init).len() {
                assert(rs[i] == read_samples(init)[i]);
            }
        }
    }
}

/// The median of 12-bit samples can always be formed.
proof fn lemma_median_fits(s: Seq<u16>)
    requires
        forall|i: int| 0 <= i < s.len() ==> #[trigger] s[i] <= ADC_MAX,
    ensures
        median_fits(s),
        s.len() > 0 ==> median_of(s) <= ADC_MAX,
{
    let leq = sample_leq();
    assert(total_ordering(leq));
    s.lemma_sort_by_ensures(leq);
    let t = sorted_samples(s);
    assert(t.len() == s.len()) by {
        s.to_multiset_ensures();
        t.to_multiset_ensures();
    }
    assert forall|i: int| 0 <= i < t.len() implies #[trigger] t[i] <= ADC_MAX by {
        assert(t.contains(t[i]));
        if !s.contains(t[i]) {
            assert(!t.contains(t[i]));
        }
    }
}

/// Takes the median of the system voltage samples that could be read: `None` if no sample
/// could be read, else the median of the last nine samples read.
pub fn median_adc_reading(reads: &Vec<Option<u16>>) -> (m: Option<u16>)
    requires
        forall|i: int| 0 <= i < reads.len() && (#[trigger] reads@[i]).is_some() ==> reads@[i].unwrap() <= ADC_MAX,
    ensures
        read_samples(reads@).len() == 0 ==> m.is_none(),
        read_samples(reads@).len() > 0 ==> m == Some(median_of(last_nine(read_samples(reads@))) as u16),
{
    let mut filter = median_filter_new();
    let mut valid_samples: usize = 0;
    let mut i: usize = 0;
    assert(read_samples(reads@.subrange(0, 0)) =~= Seq::<u16>::empty());
    while i < reads.len()
        invariant
            0 <= i <= reads.len(),
            median_window(filter) == last_nine(read_samples(reads@.subrange(0, i as int))),
            valid_samples == read_samples(reads@.subrange(0, i as int)).len(),
            valid_samples <= i,
        decreases reads.len() - i,
    {
        let ghost before = reads@.subrange(0, i as int);
        assert(reads@.subrange(0, i + 1).drop_last() =~= before);
        if let Some(adc_value) = reads[i] {
            let _ = median_filter_add(&mut filter, adc_value);
            proof { lemma_window_after_last_nine(read_samples(before), adc_value); }
            valid_samples = valid_samples + 1;
        }
        i = i + 1;
    }
    assert(reads@.subrange(0, reads.len() as int) =~= reads@);
    if valid_samples > 0 {
        proof {
            lemma_read_samples_bounded(reads@);
            let s = read_samples(reads@);
            let w = last_nine(s);
            assert forall|k: int| 0 <= k < w.len() implies #[trigger] w[k] <= ADC_MAX by {
                if s.len() > 9 {
                    assert(w[k] == s[s.len() - 9 + k]);
                }
            }
            lemma_median_fits(w);
        }
        median_filter_median(&filter)
    } else {
        None
    }
}

/// The next step of debouncing the USB power pin.
#[derive(Debug, Clone, Copy, PartialEq, Eq, Structural)]
pub enum Debounce {
    /// This many readings agreed so far: wait and read again.
    Sample(u8),
    /// Enough consecutive readings agreed: the new state is confirmed.
    Confirmed,
    /// A reading disagreed: the change is rejected as noise, after this many agreeing ones.
    Rejected(u8),
}

/// Whether an edge on the USB power pin is worth debouncing: the pin reads other than the last
/// confirmed state.
pub fn vbus_change_candidate(reading: bool, last_confirmed: bool) -> (candidate: bool)
    ensures
        candidate == (reading != last_confirmed),
{
    reading != last_confirmed
}

/// One debouncing step: a reading that agrees with the candidate state counts, and the fifth
/// agreeing reading in a row confirms it; the first disagreeing reading rejects the change.
pub fn vbus_debounce_step(agreed: u8, reading: bool, candidate: bool) -> (next: Debounce)
    requires
        agreed < VBUS_DEBOUNCE_COUNT,
    ensures
        reading != candidate ==> next == Debounce::Rejected(agreed),
        reading == candidate && agreed + 1 == VBUS_DEBOUNCE_COUNT ==> next == Debounce::Confirmed,
        reading == candidate && agreed + 1 < VBUS_DEBOUNCE_COUNT ==> next == Debounce::Sample((agreed + 1) as u8),
{
    if reading == candidate {
        let count = agreed + 1;
        if count == VBUS_DEBOUNCE_COUNT {
            Debounce::Confirmed
        } else {
            Debounce::Sample(count)
        }
    } else {
        Debounce::Rejected(agreed)
    }
}

/// The outcome of debouncing a run of readings, starting with `agreed` agreeing ones.
pub open spec fn debounce_run(agreed: int, readings: Seq<bool>, candidate: bool) -> Debounce
    decreases readings.len(),
{
    if readings.len() == 0 {
        Debounce::Sample(agreed as u8)
    } else if readings[0] != candidate {
        Debounce::Rejected(agreed as u8)
    } else if agreed + 1 == VBUS_DEBOUNCE_COUNT {
        Debounce::Confirmed
    } else {
        debounce_run(agreed + 1, readings.drop_first(), candidate)
    }
}

/// A change of the USB power state is confirmed by a run of readings exactly when its first
/// five readings all agree with the new state.
pub proof fn law_debounce_needs_five_agreeing(readings: Seq<bool>, candidate: bool)
    requires
        readings.len() >= 5,
    ensures
        (debounce_run(0, readings, candidate) == Debounce::Confirmed)
            <==> (forall|i: int| 0 <= i < 5 ==> readings[i] == candidate),
{
    reveal_with_fuel(debounce_run, 6);
    let r1 = readings.drop_first();
    let r2 = r1.drop_first();
    let r3 = r2.drop_first();
    let r4 = r3.drop_first();
    assert(r1[0] == readings[1] && r2[0] == readings[2] && r3[0] == readings[3] && r4[0] == readings[4]);
}

/// For an odd number of samples the median is one of the samples themselves, so that a reading
/// never invents a value the ADC did not deliver.
pub proof fn law_median_is_a_sample(s: Seq<u16>)
    requires
        s.len() % 2 == 1,
    ensures
        exists|i: int| 0 <= i < s.len() && s[i] as int == median_of(s),
{
    let leq = sample_leq();
    assert(total_ordering(leq));
    s.lemma_sort_by_ensures(leq);
    let t = sorted_samples(s);
    assert(t.len() == s.len()) by {
        s.to_multiset_ensures();
        t.to_multiset_ensures();
    }
    let m = t[s.len() as int / 2];
    assert(t.contains(m));
    assert(s.contains(m));
}

} // verus!
