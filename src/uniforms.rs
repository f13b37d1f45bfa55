//! The tunable parameters, the uniform buffers that carry them to the
//! shaders, and their byte encoding.
//!
//! Every value is an IEEE-754 single-precision number held as its bit pattern.
use vstd::prelude::*;

verus! {

/// 0.0
pub const ZERO_BITS: u32 = 0x0000_0000;

/// 1.0
pub const ONE_BITS: u32 = 0x3f80_0000;

/// 0.7: the vertical blur step, deliberately shorter than the horizontal one.
pub const SEVEN_TENTHS_BITS: u32 = 0x3f33_3333;

/// 0.55: default luminance knee of the brightness pass.
pub const DEFAULT_THRESHOLD_BITS: u32 = 0x3f0c_cccd;

/// 3.0: default multiplier on the bloom contribution.
pub const DEFAULT_INTENSITY_BITS: u32 = 0x4040_0000;

/// 5.0: default scale from local brightness to blur radius.
pub const DEFAULT_ADAPTIVE_SCALING_BITS: u32 = 0x40a0_0000;

/// 40.0: default upper clamp on the blur radius, in texels.
pub const DEFAULT_MAX_RADIUS_BITS: u32 = 0x4220_0000;

/// 5.0: default exponent of the bloom response curve.
pub const DEFAULT_INTENSITY_CURVE_BITS: u32 = 0x40a0_0000;

/// The uniform buffers, one per shader parameter.
#[derive(Clone, Copy, Debug, PartialEq, Eq, Structural)]
pub enum UniformId {
    Threshold,
    BlurHDir,
    BlurVDir,
    Intensity,
    AdaptiveScaling,
    MaxRadius,
    IntensityCurve,
}

/// The parameters that can be changed after construction.
#[derive(Clone, Copy, Debug, PartialEq, Eq, Structural)]
pub enum Param {
    BrightnessThreshold,
    BloomIntensity,
    AdaptiveBlurScaling,
    MaxBlurRadius,
    IntensityCurve,
}

/// Current value of each parameter, as single-precision bit patterns.
#[derive(Clone, Copy, Debug, PartialEq, Eq, Structural)]
pub struct Params {
    pub brightness_threshold: u32,
    pub bloom_intensity: u32,
    pub adaptive_blur_scaling: u32,
    pub max_blur_radius: u32,
    pub intensity_curve: u32,
}

/// The buffer that carries a parameter.
pub open spec fn uniform_of(p: Param) -> UniformId {
    match p {
        Param::BrightnessThreshold => UniformId::Threshold,
        Param::BloomIntensity => UniformId::Intensity,
        Param::AdaptiveBlurScaling => UniformId::AdaptiveScaling,
        Param::MaxBlurRadius => UniformId::MaxRadius,
        Param::IntensityCurve => UniformId::IntensityCurve,
    }
}

pub fn uniform_for(p: Param) -> (u: UniformId)
    ensures
        u == uniform_of(p),
{
    match p {
        Param::BrightnessThreshold => UniformId::Threshold,
        Param::BloomIntensity => UniformId::Intensity,
        Param::AdaptiveBlurScaling => UniformId::AdaptiveScaling,
        Param::MaxBlurRadius => UniformId::MaxRadius,
        Param::IntensityCurve => UniformId::IntensityCurve,
    }
}

impl Params {
    pub open spec fn get(self, p: Param) -> u32 {
        match p {
            Param::BrightnessThreshold => self.brightness_threshold,
            Param::BloomIntensity => self.bloom_intensity,
            Param::AdaptiveBlurScaling => self.adaptive_blur_scaling,
            Param::MaxBlurRadius => self.max_blur_radius,
            Param::IntensityCurve => self.intensity_curve,
        }
    }

    /// These parameters with `p` set to `v` and the others kept.
    pub open spec fn with(self, p: Param, v: u32) -> Params {
        match p {
            Param::BrightnessThreshold => Params { brightness_threshold: v, ..self },
            Param::BloomIntensity => Params { bloom_intensity: v, ..self },
            Param::AdaptiveBlurScaling => Params { adaptive_blur_scaling: v, ..self },
            Param::MaxBlurRadius => Params { max_blur_radius: v, ..self },
            Param::IntensityCurve => Params { intensity_curve: v, ..self },
        }
    }

    pub open spec fn spec_defaults() -> Params {
        Params {
            brightness_threshold: DEFAULT_THRESHOLD_BITS,
            bloom_intensity: DEFAULT_INTENSITY_BITS,
            adaptive_blur_scaling: DEFAULT_ADAPTIVE_SCALING_BITS,
            max_blur_radius: DEFAULT_MAX_RADIUS_BITS,
            intensity_curve: DEFAULT_INTENSITY_CURVE_BITS,
        }
    }

    /// The values a pipeline starts with.
    pub fn defaults() -> (r: Params)
        ensures
            r == Params::spec_defaults(),
    {
        Params {
            brightness_threshold: DEFAULT_THRESHOLD_BITS,
            bloom_intensity: DEFAULT_INTENSITY_BITS,
            adaptive_blur_scaling: DEFAULT_ADAPTIVE_SCALING_BITS,
            max_blur_radius: DEFAULT_MAX_RADIUS_BITS,
            intensity_curve: DEFAULT_INTENSITY_CURVE_BITS,
        }
    }

    pub fn value(&self, p: Param) -> (v: u32)
        ensures
            v == self.get(p),
    {
        match p {
            Param::BrightnessThreshold => self.brightness_threshold,
            Param::BloomIntensity => self.bloom_intensity,
            Param::AdaptiveBlurScaling => self.adaptive_blur_scaling,
            Param::MaxBlurRadius => self.max_blur_radius,
            Param::IntensityCurve => self.intensity_curve,
        }
    }

    pub fn set(&mut self, p: Param, v: u32)
        ensures
            *final(self) == old(self).with(p, v),
    {
        match p {
            Param::BrightnessThreshold => self.brightness_threshold = v,
            Param::BloomIntensity => self.bloom_intensity = v,
            Param::AdaptiveBlurScaling => self.adaptive_blur_scaling = v,
            Param::MaxBlurRadius => self.max_blur_radius = v,
            Param::IntensityCurve => self.intensity_curve = v,
        }
    }
}

/// The words a uniform buffer holds: one scalar, or a two-component
/// direction for the blur buffers.
pub open spec fn uniform_words(params: Params, id: UniformId) -> Seq<u32> {
    match id {
        UniformId::Threshold => seq![params.brightness_threshold],
        UniformId::BlurHDir => seq![ONE_BITS, ZERO_BITS],
        UniformId::BlurVDir => seq![ZERO_BITS, SEVEN_TENTHS_BITS],
        UniformId::Intensity => seq![params.bloom_intensity],
        UniformId::AdaptiveScaling => seq![params.adaptive_blur_scaling],
        UniformId::MaxRadius => seq![params.max_blur_radius],
        UniformId::IntensityCurve => seq![params.intensity_curve],
    }
}

/// Byte `k` (0 = least significant) of a word.
pub open spec fn byte_of(w: u32, k: int) -> u8 {
    ((w >> ((8 * k) as u32)) & 0xff) as u8
}

/// Words laid out least significant byte first.
pub open spec fn le_bytes(words: Seq<u32>) -> Seq<u8> {
    Seq::new(4 * words.len(), |i: int| byte_of(words[i / 4], i % 4))
}

/// Words laid out most significant byte first.
pub open spec fn be_bytes(words: Seq<u32>) -> Seq<u8> {
    Seq::new(4 * words.len(), |i: int| byte_of(words[i / 4], 3 - i % 4))
}

/// `bytes` is the memory image of `words` in one of the two byte orders
/// that a host may have; which one depends on the machine, not the words.
pub open spec fn encodes(bytes: Seq<u8>, words: Seq<u32>) -> bool {
    bytes == le_bytes(words) || bytes == be_bytes(words)
}

/// Relies on bytemuck::cast_slice: views a `u32` slice as its bytes, four
/// per word in the host's byte order.
#[verifier::external_body]
fn words_as_bytes(words: &[u32]) -> (r: Vec<u8>)
    ensures
        encodes(r@, words@),
{
    bytemuck::cast_slice::<u32, u8>(words).to_vec()
}

/// The bytes that fill uniform buffer `id` for the given parameters.
pub fn uniform_bytes(params: &Params, id: UniformId) -> (r: Vec<u8>)
    ensures
        encodes(r@, uniform_words(*params, id)),
{
    let words: Vec<u32> = match id {
        UniformId::Threshold => vec![params.brightness_threshold],
        UniformId::BlurHDir => vec![ONE_BITS, ZERO_BITS],
        UniformId::BlurVDir => vec![ZERO_BITS, SEVEN_TENTHS_BITS],
        UniformId::Intensity => vec![params.bloom_intensity],
        UniformId::AdaptiveScaling => vec![params.adaptive_blur_scaling],
        UniformId::MaxRadius => vec![params.max_blur_radius],
        UniformId::IntensityCurve => vec![params.intensity_curve],
    };
    assert(words@ =~= uniform_words(*params, id));
    words_as_bytes(words.as_slice())
}

/// A write of `bytes` into uniform buffer `buffer` at byte `offset`.
#[derive(Clone, Debug)]
pub struct UniformWrite {
    pub buffer: UniformId,
    pub offset: u64,
    pub bytes: Vec<u8>,
}

/// Buffer contents after `bytes` are written at `offset`; the rest is kept.
pub open spec fn overwrite(contents: Seq<u8>, offset: int, bytes: Seq<u8>) -> Seq<u8>
    recommends
        0 <= offset,
        offset + bytes.len() <= contents.len(),
{
    Seq::new(
        contents.len(),
        |i: int|
            if offset <= i < offset + bytes.len() {
                bytes[i - offset]
            } else {
                contents[i]
            },
    )
}

/// Writing the same bytes at the same place a second time changes nothing.
pub proof fn lemma_overwrite_idempotent(contents: Seq<u8>, offset: int, bytes: Seq<u8>)
    ensures
        overwrite(overwrite(contents, offset, bytes), offset, bytes) == overwrite(
            contents,
            offset,
            bytes,
        ),
{
    assert(overwrite(overwrite(contents, offset, bytes), offset, bytes) =~= overwrite(
        contents,
        offset,
        bytes,
    ));
}

} // verus!
