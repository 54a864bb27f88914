//! The camera and its bloom settings, and the bloom pulse that raises the
//! intensity and the low-frequency boost a little every frame.
use crate::ONE;
use vstd::prelude::*;

verus! {

/// How the bloomed image is combined with the original.
#[derive(Clone, Copy, Debug, PartialEq, Eq, Structural)]
pub enum CompositeMode {
    EnergyConserving,
    Additive,
}

/// The tone-mapping curve of the camera.
#[derive(Clone, Copy, Debug, PartialEq, Eq, Structural)]
pub enum ToneMapping {
    TonyMcMapface,
}

/// Bloom parameters, in fixed-point units.
#[derive(Clone, Copy, Debug, PartialEq, Eq, Structural)]
pub struct BloomSettings {
    pub intensity: i64,
    pub low_frequency_boost: i64,
    pub low_frequency_boost_curvature: i64,
    pub high_pass_frequency: i64,
    pub threshold: i64,
    pub threshold_softness: i64,
    pub composite_mode: CompositeMode,
}

/// The camera: high dynamic range, a tone-mapping curve and bloom.
#[derive(Clone, Copy, Debug, PartialEq, Eq, Structural)]
pub struct CameraConfig {
    pub hdr: bool,
    pub tonemapping: ToneMapping,
    pub bloom: BloomSettings,
}

/// Errors of the bloom pulse.
#[derive(Clone, Copy, Debug, PartialEq, Eq, Structural)]
pub enum BloomError {
    /// There is no camera with bloom settings.
    NoCamera,
}

/// The camera as the scene starts.
pub open spec fn initial_camera() -> CameraConfig {
    CameraConfig {
        hdr: true,
        tonemapping: ToneMapping::TonyMcMapface,
        bloom: BloomSettings {
            intensity: (ONE / 5) as i64,
            low_frequency_boost: (ONE / 5) as i64,
            low_frequency_boost_curvature: ONE as i64,
            high_pass_frequency: (ONE / 2) as i64,
            threshold: (2 * ONE / 5) as i64,
            threshold_softness: (ONE / 2) as i64,
            composite_mode: CompositeMode::Additive,
        },
    }
}

/// The camera as the scene starts: HDR on, bloom intensity and
/// low-frequency boost at 0.2, curvature 1, high-pass frequency 0.5,
/// threshold 0.4 with softness 0.5, additive composition.
pub fn camera_setup() -> (c: CameraConfig)
    ensures
        c == initial_camera(),
{
    CameraConfig {
        hdr: true,
        tonemapping: ToneMapping::TonyMcMapface,
        bloom: BloomSettings {
            intensity: ONE / 5,
            low_frequency_boost: ONE / 5,
            low_frequency_boost_curvature: ONE,
            high_pass_frequency: ONE / 2,
            threshold: 2 * ONE / 5,
            threshold_softness: ONE / 2,
            composite_mode: CompositeMode::Additive,
        },
    }
}

/// The bloom level of a phase: its absolute value.
pub open spec fn spec_bloom_level(phase: int) -> int {
    if phase < 0 {
        -phase
    } else {
        phase
    }
}

/// The bloom level for `phase`, the sine of the time, in `-ONE ..= ONE`:
/// its absolute value, which lies in `0 ..= ONE`.
pub fn bloom_level(phase: i64) -> (level: i64)
    requires
        -ONE <= phase <= ONE,
    ensures
        level == spec_bloom_level(phase as int),
        0 <= level <= ONE,
{
    if phase < 0 {
        -phase
    } else {
        phase
    }
}

/// What one frame at bloom level `level` adds to the intensity and to the
/// low-frequency boost: a five-hundredth of it, rounded down to a unit.
pub open spec fn bloom_increment(level: int) -> int {
    level / 500
}

/// A parameter at `start` after frames at the bloom levels `levels`, in order.
pub open spec fn boosted(start: int, levels: Seq<int>) -> int
    decreases levels.len(),
{
    if levels.len() == 0 {
        start
    } else {
        boosted(start, levels.drop_last()) + bloom_increment(levels.last())
    }
}

/// A parameter that one more frame cannot push out of `i64`.
pub open spec fn boost_room(v: int) -> bool {
    v <= i64::MAX - ONE / 500
}

impl BloomSettings {
    /// Raises the intensity and the low-frequency boost by the increment of
    /// `level`; the other settings stay.
    pub fn advance(&mut self, level: i64)
        requires
            0 <= level <= ONE,
            boost_room(old(self).intensity as int),
            boost_room(old(self).low_frequency_boost as int),
        ensures
            final(self).intensity == old(self).intensity + bloom_increment(level as int),
            final(self).low_frequency_boost == old(self).low_frequency_boost + bloom_increment(
                level as int,
            ),
            final(self).low_frequency_boost_curvature == old(self).low_frequency_boost_curvature,
            final(self).high_pass_frequency == old(self).high_pass_frequency,
            final(self).threshold == old(self).threshold,
            final(self).threshold_softness == old(self).threshold_softness,
            final(self).composite_mode == old(self).composite_mode,
    {
        self.intensity = self.intensity + level / 500;
        self.low_frequency_boost = self.low_frequency_boost + level / 500;
    }
}

/// One frame of the bloom pulse at `phase`, the sine of the time in
/// `-ONE ..= ONE`. With no camera, fails with `NoCamera`; else advances its
/// bloom by the level of `phase`, leaves the rest of the camera as it was,
/// and returns that level.
pub fn bloom(camera: &mut Option<CameraConfig>, phase: i64) -> (r: Result<i64, BloomError>)
    requires
        -ONE <= phase <= ONE,
        *old(camera) matches Some(c) ==> boost_room(c.bloom.intensity as int) && boost_room(
            c.bloom.low_frequency_boost as int,
        ),
    ensures
        *old(camera) is None <==> r == Err::<i64, BloomError>(BloomError::NoCamera),
        *old(camera) is None ==> *final(camera) is None,
        *old(camera) matches Some(before) ==> {
            let level = spec_bloom_level(phase as int);
            &&& r == Ok::<i64, BloomError>(level as i64)
            &&& *final(camera) matches Some(after) && {
                &&& after.hdr == before.hdr
                &&& after.tonemapping == before.tonemapping
                &&& after.bloom.intensity == before.bloom.intensity + bloom_increment(level)
                &&& after.bloom.low_frequency_boost == before.bloom.low_frequency_boost
                    + bloom_increment(level)
                &&& after.bloom.low_frequency_boost_curvature
                    == before.bloom.low_frequency_boost_curvature
                &&& after.bloom.high_pass_frequency == before.bloom.high_pass_frequency
                &&& after.bloom.threshold == before.bloom.threshold
                &&& after.bloom.threshold_softness == before.bloom.threshold_softness
                &&& after.bloom.composite_mode == before.bloom.composite_mode
            }
        },
{
    match camera {
        Some(c) => {
            let level = bloom_level(phase);
            c.bloom.advance(level);
            Ok(level)
        },
        None => Err(BloomError::NoCamera),
    }
}

/// Over any run of frames whose levels lie in `0 ..= ONE`, the intensity and
/// the low-frequency boost never decrease: after the first `j` frames each is
/// at least what it was after the first `i`, for `i <= j`.
pub proof fn lemma_boost_non_decreasing(start: int, levels: Seq<int>, i: int, j: int)
    requires
        forall|k: int| 0 <= k < levels.len() ==> 0 <= #[trigger] levels[k] <= ONE,
        0 <= i <= j <= levels.len(),
    ensures
        boosted(start, levels.take(i)) <= boosted(start, levels.take(j)),
    decreases j - i,
{
    if i < j {
        lemma_boost_non_decreasing(start, levels, i, j - 1);
        assert(levels.take(j).drop_last() =~= levels.take(j - 1));
        assert(0 <= levels[j - 1] <= ONE);
    }
}

} // verus!
