//! Samples of the microphones: their words, their order, their loudness.
use crate::arith;
use crate::sensors::math;
use crate::sensors::math::isqrt;
use vstd::prelude::*;

verus! {

/// The sample that a word of the filter holds in its upper 24 bits.
pub open spec fn sample_of(word: u32) -> int {
    let top = word as int / 256;
    if top >= 0x80_0000 {
        top - 0x100_0000
    } else {
        top
    }
}

/// The sample that a word of the filter holds in its upper 24 bits.
pub fn sample_from_word(word: u32) -> (sample: i32)
    ensures
        sample == sample_of(word),
        -8_388_608 <= sample <= 8_388_607,
{
    let top: u32 = word / 256;
    if top >= 0x80_0000 {
        top as i32 - 0x100_0000
    } else {
        top as i32
    }
}

/// The samples of one channel.
pub fn mono_samples(words: &[u32]) -> (samples: Vec<i32>)
    ensures
        samples@.len() == words@.len(),
        forall|i: int| 0 <= i < words@.len() ==> #[trigger] samples@[i] == sample_of(words@[i]),
{
    let mut samples: Vec<i32> = Vec::new();
    let mut i: usize = 0;
    while i < words.len()
        invariant
            i <= words@.len(),
            samples@.len() == i,
            forall|j: int| 0 <= j < i ==> #[trigger] samples@[j] == sample_of(words@[j]),
        decreases words@.len() - i,
    {
        samples.push(sample_from_word(words[i]));
        i = i + 1;
    }
    samples
}

/// The samples of several channels, one of each in turn.
pub fn interleaved_samples(channels: &[&[u32]]) -> (samples: Vec<i32>)
    requires
        channels@.len() > 0,
        forall|c: int|
            0 <= c < channels@.len() ==> (#[trigger] channels@[c])@.len() == channels@[0]@.len(),
        channels@.len() * channels@[0]@.len() <= usize::MAX,
    ensures
        samples@.len() == channels@.len() * channels@[0]@.len(),
        forall|i: int|
            0 <= i < samples@.len() ==> #[trigger] samples@[i] == sample_of(
                channels@[i % channels@.len() as int]@[i / channels@.len() as int],
            ),
{
    let count: usize = channels.len();
    let length: usize = channels[0].len();
    let total: usize = count * length;
    let mut samples: Vec<i32> = Vec::new();
    let mut i: usize = 0;
    while i < total
        invariant
            i <= total,
            count == channels@.len(),
            count > 0,
            length == channels@[0]@.len(),
            total == count * length,
            samples@.len() == i,
            forall|c: int|
                0 <= c < channels@.len() ==> (#[trigger] channels@[c])@.len()
                    == channels@[0]@.len(),
            forall|j: int|
                0 <= j < i ==> #[trigger] samples@[j] == sample_of(
                    channels@[j % count as int]@[j / count as int],
                ),
        decreases total - i,
    {
        let channel: usize = i % count;
        let sample: usize = i / count;
        proof {
            assert(sample < length) by (nonlinear_arith)
                requires
                    i < count * length,
                    sample == i / count,
                    count > 0,
            ;
        }
        samples.push(sample_from_word(channels[channel][sample]));
        i = i + 1;
    }
    samples
}

/// The loudest of some samples.
pub open spec fn is_peak(peak: int, samples: Seq<i32>) -> bool {
    &&& forall|i: int| 0 <= i < samples.len() ==> arith::abs(#[trigger] samples[i] as int) <= peak
    &&& samples.len() == 0 ==> peak == 0
    &&& samples.len() > 0 ==> exists|i: int|
        0 <= i < samples.len() && arith::abs(#[trigger] samples[i] as int) == peak
}

/// The magnitude of a sample.
fn magnitude(sample: i32) -> (value: u32)
    ensures
        value == arith::abs(sample as int),
{
    if sample >= 0 {
        sample as u32
    } else {
        (-(sample as i64)) as u32
    }
}

/// The loudest sample of two runs, or nothing where there is none.
pub fn peak(first: &[i32], second: &[i32]) -> (loudest: u32)
    ensures
        is_peak(loudest as int, first@ + second@),
{
    let mut loudest: u32 = 0;
    let mut i: usize = 0;
    let ghost all = first@ + second@;
    while i < first.len()
        invariant
            i <= first@.len(),
            all == first@ + second@,
            is_peak(loudest as int, all.take(i as int)),
        decreases first@.len() - i,
    {
        let value: u32 = magnitude(first[i]);
        proof {
            lemma_peak_step(all, i as int, loudest as int);
        }
        if value > loudest {
            loudest = value;
        }
        i = i + 1;
    }
    let mut j: usize = 0;
    while j < second.len()
        invariant
            i == first@.len(),
            j <= second@.len(),
            all == first@ + second@,
            is_peak(loudest as int, all.take(i + j)),
        decreases second@.len() - j,
    {
        let value: u32 = magnitude(second[j]);
        proof {
            lemma_peak_step(all, i + j, loudest as int);
        }
        if value > loudest {
            loudest = value;
        }
        j = j + 1;
    }
    assert(all.take(i + j) =~= all);
    loudest
}

/// One more sample raises the peak to its magnitude, or leaves it.
proof fn lemma_peak_step(samples: Seq<i32>, i: int, peak: int)
    requires
        0 <= i < samples.len(),
        is_peak(peak, samples.take(i)),
    ensures
        is_peak(arith::max(arith::abs(samples[i] as int), peak), samples.take(i + 1)),
{
    let before = samples.take(i);
    let after = samples.take(i + 1);
    let value = arith::abs(samples[i] as int);
    let next = arith::max(value, peak);
    assert forall|k: int| 0 <= k < after.len() implies arith::abs(#[trigger] after[k] as int)
        <= next by {
        if k < i {
            assert(after[k] == before[k]);
        }
    }
    if value >= peak {
        assert(after[i] == samples[i]);
    } else {
        assert(before.len() > 0);
        let k = choose|k: int|
            0 <= k < before.len() && arith::abs(#[trigger] before[k] as int) == peak;
        assert(after[k] == before[k]);
    }
}

/// Loudness of a run of samples.
#[derive(Clone, Copy, Debug, PartialEq, Eq, Structural)]
pub struct Statistics {
    pub min: i32,
    pub max: i32,
    /// Root of the mean square, rounded down.
    pub rms: u32,
    /// Decibels below full scale, in steps of an octave.
    pub dbfs: i16,
}

/// Sum of the squares of some words' samples.
pub open spec fn sum_of_squares(words: Seq<u32>) -> int
    decreases words.len(),
{
    if words.len() == 0 {
        0
    } else {
        sum_of_squares(words.drop_last()) + sample_of(words.last()) * sample_of(words.last())
    }
}

/// Logarithm to the base of two, rounded down.
pub open spec fn octave(value: int) -> int
    decreases value,
{
    if value <= 1 {
        0
    } else {
        1 + octave(value / 2)
    }
}

/// Decibels below full scale of a level: six for every octave.
pub open spec fn level_dbfs(rms: int) -> int {
    if rms == 0 {
        -144
    } else {
        (octave(rms) - 23) * 6
    }
}

/// Mean of the squares. The sum is held inside 64 bits.
pub open spec fn mean_square(words: Seq<u32>) -> int {
    arith::min(sum_of_squares(words), u64::MAX as int) / words.len() as int
}

/// Logarithm to the base of two, rounded down.
fn floor_log2(value: u32) -> (log: u32)
    requires
        value > 0,
    ensures
        log == octave(value as int),
        log <= 31,
{
    let mut rest: u32 = value;
    let mut log: u32 = 0;
    proof {
        vstd::arithmetic::power2::lemma2_to64();
        lemma_octave_bound(value as int, 31);
    }
    while rest > 1
        invariant
            rest >= 1,
            log + octave(rest as int) == octave(value as int),
            octave(value as int) <= 31,
            octave(rest as int) >= 0,
        decreases rest,
    {
        proof {
            vstd::arithmetic::power2::lemma2_to64();
            lemma_octave_bound((rest / 2) as int, 31);
        }
        rest = rest / 2;
        log = log + 1;
    }
    log
}

/// A logarithm is not negative and is bounded by the number of bits.
proof fn lemma_octave_bound(value: int, bits: nat)
    requires
        1 <= value < vstd::arithmetic::power2::pow2(bits + 1),
    ensures
        0 <= octave(value) <= bits,
    decreases bits,
{
    vstd::arithmetic::power2::lemma_pow2_unfold(bits + 1);
    if value > 1 {
        if bits == 0 {
            vstd::arithmetic::power2::lemma2_to64();
        } else {
            lemma_octave_bound(value / 2, (bits - 1) as nat);
        }
    }
}

/// Loudness of some words' samples.
pub fn statistics(words: &[u32]) -> (stats: Statistics)
    requires
        words@.len() > 0,
    ensures
        forall|i: int|
            0 <= i < words@.len() ==> stats.min <= sample_of(#[trigger] words@[i]) <= stats.max,
        exists|i: int| 0 <= i < words@.len() && sample_of(#[trigger] words@[i]) == stats.min,
        exists|i: int| 0 <= i < words@.len() && sample_of(#[trigger] words@[i]) == stats.max,
        math::is_root(stats.rms as int, mean_square(words@)),
        stats.dbfs == level_dbfs(stats.rms as int),
{
    let mut min: i32 = sample_from_word(words[0]);
    let mut max: i32 = min;
    let mut squares: u64 = 0;
    let mut i: usize = 0;
    let ghost mut low = 0int;
    let ghost mut high = 0int;
    while i < words.len()
        invariant
            i <= words@.len(),
            words@.len() > 0,
            0 <= low < words@.len(),
            0 <= high < words@.len(),
            min == sample_of(words@[low]),
            max == sample_of(words@[high]),
            -8_388_608 <= min <= max <= 8_388_607,
            forall|j: int| 0 <= j < i ==> min <= sample_of(#[trigger] words@[j]) <= max,
            squares == arith::min(sum_of_squares(words@.take(i as int)), u64::MAX as int),
            sum_of_squares(words@.take(i as int)) >= 0,
            sum_of_squares(words@.take(i as int)) <= i * 0x4000_0000_0000,
        decreases words@.len() - i,
    {
        let value: i32 = sample_from_word(words[i]);
        if value < min {
            min = value;
            proof {
                low = i as int;
            }
        }
        if value > max {
            max = value;
            proof {
                high = i as int;
            }
        }
        let size: u64 = magnitude(value) as u64;
        proof {
            assert(words@.take(i + 1).drop_last() =~= words@.take(i as int));
            assert(words@.take(i + 1).last() == words@[i as int]);
            assert(size * size == value * value && 0 <= size * size <= 0x4000_0000_0000)
                by (nonlinear_arith)
                requires
                    size == value || size == -value,
                    0 <= size <= 8_388_608,
            ;
            assert((i + 1) * 0x4000_0000_0000 == i * 0x4000_0000_0000 + 0x4000_0000_0000);
        }
        squares = squares.saturating_add(size * size);
        i = i + 1;
    }
    proof {
        assert(words@.take(i as int) =~= words@);
        assert(words@[low] == words@[low] && words@[high] == words@[high]);
    }
    let mean: u64 = squares / words.len() as u64;
    let rms: u32 = isqrt(mean);
    let dbfs: i16 = if rms == 0 {
        -144
    } else {
        (floor_log2(rms) as i16 - 23) * 6
    };
    Statistics { min, max, rms, dbfs }
}

/// The level never exceeds full scale, and falls by six decibels where it is
/// halved.
pub proof fn law_level_falls_by_the_octave(rms: int)
    requires
        2 <= rms < 0x100_0000,
    ensures
        level_dbfs(rms / 2) == level_dbfs(rms) - 6,
        level_dbfs(rms) <= 0,
{
    assert(vstd::arithmetic::power2::pow2(24) == 0x100_0000) by {
        vstd::arithmetic::power2::lemma2_to64();
    }
    lemma_octave_bound(rms, 23);
}

/// Silence has the lowest level.
pub proof fn law_silence_is_the_lowest_level(rms: int)
    requires
        0 <= rms <= u32::MAX,
    ensures
        level_dbfs(rms) >= level_dbfs(0),
{
    if rms > 0 {
        assert(vstd::arithmetic::power2::pow2(32) == 0x1_0000_0000) by {
            vstd::arithmetic::power2::lemma2_to64();
        }
        lemma_octave_bound(rms, 31);
    }
}

/// A word is its sample times 256, and up to 255 more; a negative sample stands two
/// to the thirty-second higher.
pub proof fn law_words_hold_24_bit_samples(word: u32)
    ensures
        -8_388_608 <= sample_of(word) <= 8_388_607,
        word < 0x8000_0000 ==> 256 * sample_of(word) <= word < 256 * sample_of(word) + 256,
        word >= 0x8000_0000 ==> 256 * sample_of(word) + 0x1_0000_0000 <= word < 256 * sample_of(
            word,
        ) + 256 + 0x1_0000_0000,
{
}

/// The mean square is the sum of the squares shared among the samples, rounded down,
/// and one more sample adds its square to the sum.
pub proof fn law_mean_square_shares_the_squares(words: Seq<u32>, word: u32)
    requires
        words.len() > 0,
    ensures
        sum_of_squares(Seq::empty()) == 0,
        sum_of_squares(words.push(word)) == sum_of_squares(words) + sample_of(word) * sample_of(
            word,
        ),
        sum_of_squares(words) <= u64::MAX ==> mean_square(words) * words.len() <= sum_of_squares(
            words,
        ) < (mean_square(words) + 1) * words.len(),
{
    assert(words.push(word).drop_last() =~= words);
    lemma_squares_not_negative(words);
    let sum = sum_of_squares(words);
    let count = words.len() as int;
    vstd::arithmetic::div_mod::lemma_fundamental_div_mod(sum, count);
    vstd::arithmetic::div_mod::lemma_mod_bound(sum, count);
    assert(sum / count * count <= sum && sum < (sum / count + 1) * count) by (nonlinear_arith)
        requires
            sum == count * (sum / count) + sum % count,
            0 <= sum % count < count,
    ;
}

/// Squares are not negative.
proof fn lemma_squares_not_negative(words: Seq<u32>)
    ensures
        sum_of_squares(words) >= 0,
    decreases words.len(),
{
    if words.len() > 0 {
        lemma_squares_not_negative(words.drop_last());
        let sample = sample_of(words.last());
        assert(sample * sample >= 0) by (nonlinear_arith);
    }
}

/// A level between two to the `octaves` and twice that lies six decibels below full
/// scale for each octave that is missing to the twenty-third; silence lies at -144.
pub proof fn law_level_counts_octaves(rms: int, octaves: nat)
    requires
        vstd::arithmetic::power2::pow2(octaves) <= rms,
        rms < vstd::arithmetic::power2::pow2(octaves + 1),
    ensures
        level_dbfs(rms) == 6 * octaves - 138,
        level_dbfs(0) == -144,
{
    vstd::arithmetic::power2::lemma_pow2_pos(octaves);
    lemma_octave_is(rms, octaves);
}

/// The logarithm of a number between two powers of two.
proof fn lemma_octave_is(value: int, octaves: nat)
    requires
        vstd::arithmetic::power2::pow2(octaves) <= value,
        value < vstd::arithmetic::power2::pow2(octaves + 1),
    ensures
        octave(value) == octaves,
    decreases octaves,
{
    vstd::arithmetic::power2::lemma_pow2_unfold(octaves + 1);
    vstd::arithmetic::power2::lemma2_to64();
    if octaves > 0 {
        vstd::arithmetic::power2::lemma_pow2_unfold(octaves);
        vstd::arithmetic::power2::lemma_pow2_pos((octaves - 1) as nat);
        lemma_octave_is(value / 2, (octaves - 1) as nat);
    }
}

} // verus!
