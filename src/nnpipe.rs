//! The bloom pipeline: what it owns, how its bind groups are wired, the
//! passes of one frame, and the live parameter setters.
use vstd::prelude::*;

use crate::layout::{
    fits_kinds, layout_spec, BindEntry, BindGroupDesc, BindGroupId, LayoutId, Resource, TextureId,
};
use crate::resources::{render_texture_desc, ColorFormat, PipelineId, TextureDesc};
use crate::uniforms::{
    encodes, lemma_overwrite_idempotent, overwrite, uniform_bytes, uniform_for, uniform_of,
    uniform_words, Param, Params, UniformId, UniformWrite,
};

verus! {

/// Everything that decides the pipeline's resources and passes.
#[derive(Clone, Copy, Debug, PartialEq, Eq, Structural)]
pub struct PipeState {
    pub width: u32,
    pub height: u32,
    /// Sample count of the scene texture.
    pub samples: u32,
    pub params: Params,
}

impl PipeState {
    /// A pipeline's state: a non-empty image and at least one scene sample.
    pub open spec fn wf(self) -> bool {
        self.width >= 1 && self.height >= 1 && self.samples >= 1
    }

    pub open spec fn with_param(self, p: Param, v: u32) -> PipeState {
        PipeState { params: self.params.with(p, v), ..self }
    }

    /// Whether the pipeline owns texture `t`: the resolve texture exists
    /// only for a multisampled scene.
    pub open spec fn owns(self, t: TextureId) -> bool {
        t != TextureId::SceneResolve || self.samples > 1
    }

    /// The description of owned texture `t`: all share the output size and
    /// all but the scene are single sampled.
    pub open spec fn texture_spec(self, t: TextureId) -> TextureDesc {
        TextureDesc {
            id: t,
            width: self.width,
            height: self.height,
            sample_count: if t == TextureId::Scene {
                self.samples
            } else {
                1
            },
            format: ColorFormat::Rgba16Float,
        }
    }

    /// The single-sampled image of the scene that later passes sample.
    pub open spec fn scene_source(self) -> TextureId {
        if self.samples > 1 {
            TextureId::SceneResolve
        } else {
            TextureId::Scene
        }
    }

    /// What each bind group binds, slot by slot.
    pub open spec fn bind_group_entries(self, id: BindGroupId) -> Seq<BindEntry> {
        match id {
            BindGroupId::Brightness => seq![
                BindEntry { binding: 0, resource: Resource::View(self.scene_source()) },
                BindEntry { binding: 1, resource: Resource::Sampler },
                BindEntry { binding: 2, resource: Resource::Buffer(UniformId::Threshold) },
            ],
            BindGroupId::BlurH => seq![
                BindEntry { binding: 0, resource: Resource::View(TextureId::Brightness) },
                BindEntry { binding: 1, resource: Resource::Sampler },
                BindEntry { binding: 2, resource: Resource::Buffer(UniformId::BlurHDir) },
                BindEntry { binding: 3, resource: Resource::Buffer(UniformId::AdaptiveScaling) },
                BindEntry { binding: 4, resource: Resource::Buffer(UniformId::MaxRadius) },
            ],
            BindGroupId::BlurV => seq![
                BindEntry { binding: 0, resource: Resource::View(TextureId::BlurH) },
                BindEntry { binding: 1, resource: Resource::Sampler },
                BindEntry { binding: 2, resource: Resource::Buffer(UniformId::BlurVDir) },
                BindEntry { binding: 3, resource: Resource::Buffer(UniformId::AdaptiveScaling) },
                BindEntry { binding: 4, resource: Resource::Buffer(UniformId::MaxRadius) },
            ],
            BindGroupId::Composite => seq![
                BindEntry { binding: 0, resource: Resource::View(self.scene_source()) },
                BindEntry { binding: 1, resource: Resource::View(TextureId::BlurV) },
                BindEntry { binding: 2, resource: Resource::Sampler },
                BindEntry { binding: 3, resource: Resource::Buffer(UniformId::Intensity) },
                BindEntry { binding: 4, resource: Resource::Buffer(UniformId::IntensityCurve) },
            ],
        }
    }

    /// What the scene pass of a frame looks like.
    pub open spec fn scene_pass_spec(self) -> ScenePass {
        ScenePass {
            target: TextureId::Scene,
            resolve_target: if self.samples > 1 {
                Some(TextureId::SceneResolve)
            } else {
                None
            },
            width: self.width,
            height: self.height,
            sample_count: self.samples,
        }
    }

    /// Whether the scene pass leaves an image in texture `t`.
    pub open spec fn scene_writes(self, t: TextureId) -> bool {
        t == TextureId::Scene || (self.samples > 1 && t == TextureId::SceneResolve)
    }
}

pub open spec fn bind_group_layout(id: BindGroupId) -> LayoutId {
    match id {
        BindGroupId::Brightness => LayoutId::Brightness,
        BindGroupId::BlurH => LayoutId::Blur,
        BindGroupId::BlurV => LayoutId::Blur,
        BindGroupId::Composite => LayoutId::Composite,
    }
}

/// Where a post-processing pass renders.
#[derive(Clone, Copy, Debug, PartialEq, Eq, Structural)]
pub enum Target {
    Texture(TextureId),
    /// The caller's output view.
    Output,
}

/// The first step of a frame: the caller's scene drawing records a colour
/// pass into `target`, resolving into `resolve_target` when there is one.
#[derive(Clone, Copy, Debug, PartialEq, Eq, Structural)]
pub struct ScenePass {
    pub target: TextureId,
    pub resolve_target: Option<TextureId>,
    pub width: u32,
    pub height: u32,
    pub sample_count: u32,
}

/// A post-processing pass: clear `target` to opaque black, then draw
/// `vertex_count` vertices and `instance_count` instances with `pipeline`
/// and `bind_group`. Each pass is submitted on its own, in order.
#[derive(Clone, Copy, Debug, PartialEq, Eq, Structural)]
pub struct PostPass {
    pub pipeline: PipelineId,
    pub bind_group: BindGroupId,
    pub target: Target,
    pub vertex_count: u32,
    pub instance_count: u32,
}

/// One frame: the scene pass, then the post-processing passes in order;
/// after the last the device is polled until all work has completed.
#[derive(Clone, Debug)]
pub struct FramePlan {
    pub scene: ScenePass,
    pub passes: Vec<PostPass>,
}

#[derive(Clone, Copy, Debug, PartialEq, Eq, Structural)]
pub enum ProcessError {
    /// The output view is not four-channel half-float.
    OutputFormatMismatch,
}

/// Brightness extraction, horizontal blur, vertical blur, composite.
pub open spec fn post_passes_spec() -> Seq<PostPass> {
    seq![
        PostPass {
            pipeline: PipelineId::Brightness,
            bind_group: BindGroupId::Brightness,
            target: Target::Texture(TextureId::Brightness),
            vertex_count: 3,
            instance_count: 1,
        },
        PostPass {
            pipeline: PipelineId::Blur,
            bind_group: BindGroupId::BlurH,
            target: Target::Texture(TextureId::BlurH),
            vertex_count: 3,
            instance_count: 1,
        },
        PostPass {
            pipeline: PipelineId::Blur,
            bind_group: BindGroupId::BlurV,
            target: Target::Texture(TextureId::BlurV),
            vertex_count: 3,
            instance_count: 1,
        },
        PostPass {
            pipeline: PipelineId::Composite,
            bind_group: BindGroupId::Composite,
            target: Target::Output,
            vertex_count: 3,
            instance_count: 1,
        },
    ]
}

/// The bloom pipeline. Its size and sample count are fixed at construction;
/// only the parameters change afterwards.
pub struct Nnpipe {
    state: PipeState,
}

impl View for Nnpipe {
    type V = PipeState;

    closed spec fn view(&self) -> PipeState {
        self.state
    }
}

impl Nnpipe {
    /// A pipeline for `width` × `height` output whose scene texture has
    /// `samples` samples, with every parameter at its default.
    pub fn new(width: u32, height: u32, samples: u32) -> (r: Nnpipe)
        requires
            width >= 1,
            height >= 1,
            samples >= 1,
        ensures
            r@ == (PipeState { width, height, samples, params: Params::spec_defaults() }),
            r@.wf(),
    {
        Nnpipe { state: PipeState { width, height, samples, params: Params::defaults() } }
    }

    /// The textures to create, each once: scene, resolved scene (only when
    /// multisampled), brightness, horizontal blur, vertical blur.
    pub fn textures(&self) -> (r: Vec<TextureDesc>)
        ensures
            forall|k: int| 0 <= k < r@.len() ==> self@.owns(r@[k].id) && r@[k] == self@.texture_spec(
                r@[k].id,
            ),
            forall|t: TextureId| self@.owns(t) ==> exists|k: int| 0 <= k < r@.len() && r@[k].id == t,
            forall|k: int, l: int| 0 <= k < l < r@.len() ==> r@[k].id != r@[l].id,
    {
        let s = self.state;
        let mut r: Vec<TextureDesc> = Vec::new();
        r.push(render_texture_desc(TextureId::Scene, s.width, s.height, s.samples));
        if s.samples > 1 {
            r.push(render_texture_desc(TextureId::SceneResolve, s.width, s.height, 1));
        }
        r.push(render_texture_desc(TextureId::Brightness, s.width, s.height, 1));
        r.push(render_texture_desc(TextureId::BlurH, s.width, s.height, 1));
        r.push(render_texture_desc(TextureId::BlurV, s.width, s.height, 1));
        proof {
            assert forall|t: TextureId| self@.owns(t) implies exists|k: int|
                0 <= k < r@.len() && r@[k].id == t by {
                if s.samples > 1 {
                    match t {
                        TextureId::Scene => assert(r@[0].id == t),
                        TextureId::SceneResolve => assert(r@[1].id == t),
                        TextureId::Brightness => assert(r@[2].id == t),
                        TextureId::BlurH => assert(r@[3].id == t),
                        TextureId::BlurV => assert(r@[4].id == t),
                    }
                } else {
                    match t {
                        TextureId::Scene => assert(r@[0].id == t),
                        TextureId::SceneResolve => {},
                        TextureId::Brightness => assert(r@[1].id == t),
                        TextureId::BlurH => assert(r@[2].id == t),
                        TextureId::BlurV => assert(r@[3].id == t),
                    }
                }
            }
        }
        r
    }

    /// The texture that the brightness and composite passes sample as the
    /// scene.
    pub fn scene_source(&self) -> (t: TextureId)
        ensures
            t == self@.scene_source(),
    {
        if self.state.samples > 1 {
            TextureId::SceneResolve
        } else {
            TextureId::Scene
        }
    }

    /// The description of bind group `id`.
    pub fn bind_group(&self, id: BindGroupId) -> (r: BindGroupDesc)
        ensures
            r.layout == bind_group_layout(id),
            r.entries@ == self@.bind_group_entries(id),
    {
        let scene = self.scene_source();
        let r = match id {
            BindGroupId::Brightness => BindGroupDesc {
                layout: LayoutId::Brightness,
                entries: vec![
                    BindEntry { binding: 0, resource: Resource::View(scene) },
                    BindEntry { binding: 1, resource: Resource::Sampler },
                    BindEntry { binding: 2, resource: Resource::Buffer(UniformId::Threshold) },
                ],
            },
            BindGroupId::BlurH => BindGroupDesc {
                layout: LayoutId::Blur,
                entries: vec![
                    BindEntry { binding: 0, resource: Resource::View(TextureId::Brightness) },
                    BindEntry { binding: 1, resource: Resource::Sampler },
                    BindEntry { binding: 2, resource: Resource::Buffer(UniformId::BlurHDir) },
                    BindEntry {
                        binding: 3,
                        resource: Resource::Buffer(UniformId::AdaptiveScaling),
                    },
                    BindEntry { binding: 4, resource: Resource::Buffer(UniformId::MaxRadius) },
                ],
            },
            BindGroupId::BlurV => BindGroupDesc {
                layout: LayoutId::Blur,
                entries: vec![
                    BindEntry { binding: 0, resource: Resource::View(TextureId::BlurH) },
                    BindEntry { binding: 1, resource: Resource::Sampler },
                    BindEntry { binding: 2, resource: Resource::Buffer(UniformId::BlurVDir) },
                    BindEntry {
                        binding: 3,
                        resource: Resource::Buffer(UniformId::AdaptiveScaling),
                    },
                    BindEntry { binding: 4, resource: Resource::Buffer(UniformId::MaxRadius) },
                ],
            },
            BindGroupId::Composite => BindGroupDesc {
                layout: LayoutId::Composite,
                entries: vec![
                    BindEntry { binding: 0, resource: Resource::View(scene) },
                    BindEntry { binding: 1, resource: Resource::View(TextureId::BlurV) },
                    BindEntry { binding: 2, resource: Resource::Sampler },
                    BindEntry { binding: 3, resource: Resource::Buffer(UniformId::Intensity) },
                    BindEntry {
                        binding: 4,
                        resource: Resource::Buffer(UniformId::IntensityCurve),
                    },
                ],
            },
        };
        assert(r.entries@ =~= self@.bind_group_entries(id));
        r
    }

    /// The bytes that uniform buffer `id` holds for the current parameters:
    /// its initial contents at construction.
    pub fn uniform_contents(&self, id: UniformId) -> (r: Vec<u8>)
        ensures
            encodes(r@, uniform_words(self@.params, id)),
    {
        uniform_bytes(&self.state.params, id)
    }

    /// The work of one frame rendered into an output view of format
    /// `output_format`, which must be four-channel half-float.
    pub fn process(&self, output_format: ColorFormat) -> (r: Result<FramePlan, ProcessError>)
        ensures
            match r {
                Ok(plan) => output_format == ColorFormat::Rgba16Float && plan.scene
                    == self@.scene_pass_spec() && plan.passes@ == post_passes_spec(),
                Err(e) => output_format != ColorFormat::Rgba16Float && e
                    == ProcessError::OutputFormatMismatch,
            },
    {
        if output_format != ColorFormat::Rgba16Float {
            return Err(ProcessError::OutputFormatMismatch);
        }
        let s = self.state;
        let resolve_target = if s.samples > 1 {
            Some(TextureId::SceneResolve)
        } else {
            None
        };
        let scene = ScenePass {
            target: TextureId::Scene,
            resolve_target,
            width: s.width,
            height: s.height,
            sample_count: s.samples,
        };
        let passes = vec![
            PostPass {
                pipeline: PipelineId::Brightness,
                bind_group: BindGroupId::Brightness,
                target: Target::Texture(TextureId::Brightness),
                vertex_count: 3,
                instance_count: 1,
            },
            PostPass {
                pipeline: PipelineId::Blur,
                bind_group: BindGroupId::BlurH,
                target: Target::Texture(TextureId::BlurH),
                vertex_count: 3,
                instance_count: 1,
            },
            PostPass {
                pipeline: PipelineId::Blur,
                bind_group: BindGroupId::BlurV,
                target: Target::Texture(TextureId::BlurV),
                vertex_count: 3,
                instance_count: 1,
            },
            PostPass {
                pipeline: PipelineId::Composite,
                bind_group: BindGroupId::Composite,
                target: Target::Output,
                vertex_count: 3,
                instance_count: 1,
            },
        ];
        assert(passes@ =~= post_passes_spec());
        Ok(FramePlan { scene, passes })
    }

    pub fn width(&self) -> (r: u32)
        ensures
            r == self@.width,
    {
        self.state.width
    }

    pub fn height(&self) -> (r: u32)
        ensures
            r == self@.height,
    {
        self.state.height
    }

    /// Sample count of the scene texture.
    pub fn sample_count(&self) -> (r: u32)
        ensures
            r == self@.samples,
    {
        self.state.samples
    }

    pub fn params(&self) -> (r: Params)
        ensures
            r == self@.params,
    {
        self.state.params
    }

    pub fn brightness_threshold(&self) -> (r: u32)
        ensures
            r == self@.params.brightness_threshold,
    {
        self.state.params.brightness_threshold
    }

    pub fn bloom_intensity(&self) -> (r: u32)
        ensures
            r == self@.params.bloom_intensity,
    {
        self.state.params.bloom_intensity
    }

    pub fn adaptive_blur_scaling(&self) -> (r: u32)
        ensures
            r == self@.params.adaptive_blur_scaling,
    {
        self.state.params.adaptive_blur_scaling
    }

    pub fn max_blur_radius(&self) -> (r: u32)
        ensures
            r == self@.params.max_blur_radius,
    {
        self.state.params.max_blur_radius
    }

    pub fn intensity_curve(&self) -> (r: u32)
        ensures
            r == self@.params.intensity_curve,
    {
        self.state.params.intensity_curve
    }

    /// Sets parameter `p` to `v`; the returned write puts the new value at
    /// the start of the parameter's uniform buffer.
    fn set_param(&mut self, p: Param, v: u32) -> (w: UniformWrite)
        ensures
            final(self)@ == old(self)@.with_param(p, v),
            w.buffer == uniform_of(p),
            w.offset == 0,
            encodes(w.bytes@, seq![v]),
    {
        self.state.params.set(p, v);
        let id = uniform_for(p);
        let bytes = uniform_bytes(&self.state.params, id);
        proof {
            assert(uniform_words(self.state.params, id) =~= seq![v]);
        }
        UniformWrite { buffer: id, offset: 0, bytes }
    }

    pub fn set_brightness_threshold(&mut self, threshold: u32) -> (w: UniformWrite)
        ensures
            final(self)@ == old(self)@.with_param(Param::BrightnessThreshold, threshold),
            w.buffer == UniformId::Threshold,
            w.offset == 0,
            encodes(w.bytes@, seq![threshold]),
    {
        self.set_param(Param::BrightnessThreshold, threshold)
    }

    pub fn set_bloom_intensity(&mut self, intensity: u32) -> (w: UniformWrite)
        ensures
            final(self)@ == old(self)@.with_param(Param::BloomIntensity, intensity),
            w.buffer == UniformId::Intensity,
            w.offset == 0,
            encodes(w.bytes@, seq![intensity]),
    {
        self.set_param(Param::BloomIntensity, intensity)
    }

    pub fn set_adaptive_blur_scaling(&mut self, scaling: u32) -> (w: UniformWrite)
        ensures
            final(self)@ == old(self)@.with_param(Param::AdaptiveBlurScaling, scaling),
            w.buffer == UniformId::AdaptiveScaling,
            w.offset == 0,
            encodes(w.bytes@, seq![scaling]),
    {
        self.set_param(Param::AdaptiveBlurScaling, scaling)
    }

    pub fn set_max_blur_radius(&mut self, radius: u32) -> (w: UniformWrite)
        ensures
            final(self)@ == old(self)@.with_param(Param::MaxBlurRadius, radius),
            w.buffer == UniformId::MaxRadius,
            w.offset == 0,
            encodes(w.bytes@, seq![radius]),
    {
        self.set_param(Param::MaxBlurRadius, radius)
    }

    pub fn set_intensity_curve(&mut self, curve: u32) -> (w: UniformWrite)
        ensures
            final(self)@ == old(self)@.with_param(Param::IntensityCurve, curve),
            w.buffer == UniformId::IntensityCurve,
            w.offset == 0,
            encodes(w.bytes@, seq![curve]),
    {
        self.set_param(Param::IntensityCurve, curve)
    }
}

/// The state after the parameter updates `updates`, applied in order.
pub open spec fn apply_updates(s: PipeState, updates: Seq<(Param, u32)>) -> PipeState
    decreases updates.len(),
{
    if updates.len() == 0 {
        s
    } else {
        apply_updates(s.with_param(updates[0].0, updates[0].1), updates.drop_first())
    }
}

/// Whether post pass `i` of a frame renders into texture `t`.
pub open spec fn post_pass_writes(i: int, t: TextureId) -> bool {
    post_passes_spec()[i].target == Target::Texture(t)
}

/// Every image a frame touches has the pipeline's size: the scene pass draws
/// `width` × `height`, and every texture a post pass samples or renders into
/// is owned by the pipeline, single sampled, and `width` × `height`.
pub proof fn lemma_frame_extent(s: PipeState)
    requires
        s.wf(),
    ensures
        s.scene_pass_spec().width == s.width,
        s.scene_pass_spec().height == s.height,
        forall|i: int, k: int, t: TextureId|
            0 <= i < post_passes_spec().len() && 0 <= k < s.bind_group_entries(
                post_passes_spec()[i].bind_group,
            ).len() && s.bind_group_entries(post_passes_spec()[i].bind_group)[k].resource
                == Resource::View(t) ==> s.owns(t) && s.texture_spec(t).sample_count == 1
                && s.texture_spec(t).width == s.width && s.texture_spec(t).height == s.height,
        forall|i: int, t: TextureId|
            0 <= i < post_passes_spec().len() && post_pass_writes(i, t) ==> s.owns(t)
                && s.texture_spec(t).sample_count == 1 && s.texture_spec(t).width == s.width
                && s.texture_spec(t).height == s.height,
{
}

/// Within a frame, every texture a post pass samples was written earlier in
/// the same frame, by the scene pass or an earlier post pass, and no pass
/// samples the texture it renders into.
pub proof fn lemma_frame_reads_follow_writes(s: PipeState)
    ensures
        forall|i: int, k: int, t: TextureId|
            0 <= i < post_passes_spec().len() && 0 <= k < s.bind_group_entries(
                post_passes_spec()[i].bind_group,
            ).len() && s.bind_group_entries(post_passes_spec()[i].bind_group)[k].resource
                == Resource::View(t) ==> (s.scene_writes(t) || exists|j: int|
                0 <= j < i && #[trigger] post_pass_writes(j, t)) && !post_pass_writes(i, t),
{
    assert forall|i: int, k: int, t: TextureId|
        0 <= i < post_passes_spec().len() && 0 <= k < s.bind_group_entries(
            post_passes_spec()[i].bind_group,
        ).len() && s.bind_group_entries(post_passes_spec()[i].bind_group)[k].resource
            == Resource::View(t) implies (s.scene_writes(t) || exists|j: int|
        0 <= j < i && #[trigger] post_pass_writes(j, t)) && !post_pass_writes(i, t) by {
        if i == 1 {
            assert(post_pass_writes(0, t));
        } else if i == 2 {
            assert(post_pass_writes(1, t));
        } else if i == 3 && t == TextureId::BlurV {
            assert(post_pass_writes(2, t));
        }
    }
}

/// Setting a parameter twice to the same value leaves the pipeline, and the
/// words of the parameter's uniform buffer, as setting it once does; the
/// buffer then holds exactly the value. Writing the same bytes twice at the
/// same place leaves a buffer as one write does.
pub proof fn lemma_setter_idempotent(
    s: PipeState,
    p: Param,
    v: u32,
    contents: Seq<u8>,
    bytes: Seq<u8>,
)
    ensures
        s.with_param(p, v).with_param(p, v) == s.with_param(p, v),
        uniform_words(s.with_param(p, v).params, uniform_of(p)) == seq![v],
        overwrite(overwrite(contents, 0, bytes), 0, bytes) == overwrite(contents, 0, bytes),
{
    assert(uniform_words(s.with_param(p, v).params, uniform_of(p)) =~= seq![v]);
    lemma_overwrite_idempotent(contents, 0, bytes);
}

/// After any sequence of parameter updates every bind group binds exactly
/// what it bound before and still fits its layout, every texture keeps its
/// description, and the scene pass is unchanged: updates only change the
/// contents of uniform buffers, never which resources exist or are bound.
pub proof fn lemma_resources_survive_updates(s: PipeState, updates: Seq<(Param, u32)>)
    ensures
        forall|id: BindGroupId|
            apply_updates(s, updates).bind_group_entries(id) == s.bind_group_entries(id),
        forall|id: BindGroupId|
            fits_kinds(
                layout_spec(bind_group_layout(id)),
                #[trigger] apply_updates(s, updates).bind_group_entries(id),
            ),
        forall|t: TextureId|
            apply_updates(s, updates).owns(t) == s.owns(t) && apply_updates(s, updates).texture_spec(t)
                == s.texture_spec(t),
        apply_updates(s, updates).scene_pass_spec() == s.scene_pass_spec(),
    decreases updates.len(),
{
    let t = apply_updates(s, updates);
    if updates.len() > 0 {
        let next = s.with_param(updates[0].0, updates[0].1);
        lemma_resources_survive_updates(next, updates.drop_first());
        assert(t == apply_updates(next, updates.drop_first()));
        assert forall|id: BindGroupId|
            #[trigger] t.bind_group_entries(id) == s.bind_group_entries(id) by {
            assert(next.scene_source() == s.scene_source());
            assert(t.bind_group_entries(id) == next.bind_group_entries(id));
        }
    } else {
        assert(t == s);
    }
    assert forall|id: BindGroupId|
        fits_kinds(
            layout_spec(bind_group_layout(id)),
            #[trigger] apply_updates(s, updates).bind_group_entries(id),
        ) by {
        lemma_bind_group_fits(apply_updates(s, updates), id);
    }
}

/// A setter changes the words of its own uniform buffer only.
pub proof fn lemma_setter_touches_one_buffer(s: PipeState, p: Param, v: u32, u: UniformId)
    requires
        u != uniform_of(p),
    ensures
        uniform_words(s.with_param(p, v).params, u) == uniform_words(s.params, u),
{
}

/// Each bind group fits the layout its pipeline is built with.
pub proof fn lemma_bind_group_fits(s: PipeState, id: BindGroupId)
    ensures
        fits_kinds(layout_spec(bind_group_layout(id)), s.bind_group_entries(id)),
{
}

} // verus!
