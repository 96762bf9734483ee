//! Sound level from a window of microphone samples.

use vstd::prelude::*;

verus! {

/// Samples taken per measurement window.
pub const SAMPLES_PER_WINDOW: usize = 100;

/// The largest value the 12-bit ADC reports.
pub const ADC_FULL_SCALE: u16 = 4095;

/// The value of one ADC reading; a failed reading counts as 0.
pub open spec fn reading(o: Option<u16>) -> u16 {
    match o {
        Some(v) => v,
        None => 0,
    }
}

/// The smallest reading of a window, starting from full scale.
pub open spec fn window_min(s: Seq<Option<u16>>) -> u16
    decreases s.len(),
{
    if s.len() == 0 {
        ADC_FULL_SCALE
    } else {
        let m = window_min(s.drop_last());
        let v = reading(s.last());
        if v < m {
            v
        } else {
            m
        }
    }
}

/// The largest reading of a window, starting from 0.
pub open spec fn window_max(s: Seq<Option<u16>>) -> u16
    decreases s.len(),
{
    if s.len() == 0 {
        0
    } else {
        let m = window_max(s.drop_last());
        let v = reading(s.last());
        if v > m {
            v
        } else {
            m
        }
    }
}

/// The peak-to-peak amplitude of a window (0 when the maximum does not
/// exceed the minimum).
pub open spec fn amplitude(s: Seq<Option<u16>>) -> u16 {
    if window_max(s) > window_min(s) {
        (window_max(s) - window_min(s)) as u16
    } else {
        0
    }
}

/// With every reading within the ADC's range, so is the amplitude; it
/// never exceeds the largest reading.
pub proof fn amplitude_within_range(s: Seq<Option<u16>>)
    requires
        forall|i: int| 0 <= i < s.len() ==> reading(#[trigger] s[i]) <= ADC_FULL_SCALE,
    ensures
        amplitude(s) <= window_max(s) <= ADC_FULL_SCALE,
    decreases s.len(),
{
    if s.len() > 0 {
        let p = s.drop_last();
        assert forall|i: int| 0 <= i < p.len() implies reading(#[trigger] p[i]) <= ADC_FULL_SCALE by {
            assert(p[i] == s[i]);
        }
        amplitude_within_range(p);
        assert(reading(s[s.len() - 1]) <= ADC_FULL_SCALE);
    }
}

proof fn lemma_window_bounds(s: Seq<Option<u16>>)
    requires
        s.len() > 0,
        forall|i: int| 0 <= i < s.len() ==> reading(#[trigger] s[i]) <= ADC_FULL_SCALE,
    ensures
        forall|i: int| 0 <= i < s.len() ==> window_min(s) <= #[trigger] reading(s[i]) <= window_max(s),
        exists|i: int| 0 <= i < s.len() && #[trigger] reading(s[i]) == window_min(s),
        exists|i: int| 0 <= i < s.len() && #[trigger] reading(s[i]) == window_max(s),
    decreases s.len(),
{
    let n = s.len() - 1;
    if s.len() == 1 {
        assert(s.drop_last() =~= Seq::<Option<u16>>::empty());
        assert(window_min(s.drop_last()) == ADC_FULL_SCALE);
        assert(window_max(s.drop_last()) == 0);
        assert(s.last() == s[0]);
        assert(reading(s[0]) <= ADC_FULL_SCALE);
        assert(reading(s[0]) == window_min(s));
        assert(reading(s[0]) == window_max(s));
    } else {
        let p = s.drop_last();
        assert forall|i: int| 0 <= i < p.len() implies reading(#[trigger] p[i]) <= ADC_FULL_SCALE by {
            assert(p[i] == s[i]);
        }
        lemma_window_bounds(p);
        assert forall|i: int| 0 <= i < s.len() implies window_min(s) <= #[trigger] reading(s[i])
            <= window_max(s) by {
            if i < n {
                assert(p[i] == s[i]);
                assert(window_min(p) <= reading(p[i]) <= window_max(p));
            }
        }
        let a = choose|i: int| 0 <= i < p.len() && #[trigger] reading(p[i]) == window_min(p);
        let b = choose|i: int| 0 <= i < p.len() && #[trigger] reading(p[i]) == window_max(p);
        assert(p[a] == s[a]);
        assert(p[b] == s[b]);
        if reading(s[n]) < window_min(p) {
            assert(reading(s[n]) == window_min(s));
        } else {
            assert(reading(s[a]) == window_min(s));
        }
        if reading(s[n]) > window_max(p) {
            assert(reading(s[n]) == window_max(s));
        } else {
            assert(reading(s[b]) == window_max(s));
        }
    }
}

/// For a non-empty window of in-range readings, the amplitude is the
/// largest reading minus the smallest: every reading lies between the two,
/// and both are readings of the window.
pub proof fn amplitude_is_spread(s: Seq<Option<u16>>)
    requires
        s.len() > 0,
        forall|i: int| 0 <= i < s.len() ==> reading(#[trigger] s[i]) <= ADC_FULL_SCALE,
    ensures
        forall|i: int| 0 <= i < s.len() ==> window_min(s) <= #[trigger] reading(s[i]) <= window_max(s),
        exists|i: int| 0 <= i < s.len() && #[trigger] reading(s[i]) == window_min(s),
        exists|i: int| 0 <= i < s.len() && #[trigger] reading(s[i]) == window_max(s),
        amplitude(s) == window_max(s) - window_min(s),
{
    lemma_window_bounds(s);
    assert(window_min(s) <= reading(s[0]) <= window_max(s));
}

/// Measures the sound level of a window of readings (see `amplitude`).
pub fn audio_amplitude(samples: &Vec<Option<u16>>) -> (r: u16)
    ensures
        r == amplitude(samples@),
{
    let mut min_val: u16 = ADC_FULL_SCALE;
    let mut max_val: u16 = 0;
    let n = samples.len();
    let mut i: usize = 0;
    while i < n
        invariant
            n == samples@.len(),
            i <= n,
            min_val == window_min(samples@.take(i as int)),
            max_val == window_max(samples@.take(i as int)),
        decreases n - i,
    {
        let val: u16 = match samples[i] {
            Some(v) => v,
            None => 0,
        };
        assert(samples@.take(i + 1).drop_last() =~= samples@.take(i as int));
        if val < min_val {
            min_val = val;
        }
        if val > max_val {
            max_val = val;
        }
        i = i + 1;
    }
    assert(samples@.take(n as int) =~= samples@);
    max_val.saturating_sub(min_val)
}

} // verus!
