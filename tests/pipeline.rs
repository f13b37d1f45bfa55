use nnpipe::layout::{
    bind_group_fits, layout_entries, BindEntry, BindGroupDesc, BindGroupId, BindingKind, LayoutEntry,
    LayoutId, Resource, TextureId,
};
use nnpipe::nnpipe::{Nnpipe, ProcessError, Target};
use nnpipe::resources::{pipeline_desc, render_texture_desc, ColorFormat, PipelineId};
use nnpipe::uniforms::{uniform_bytes, Param, Params, UniformId};

const ALL_GROUPS: [BindGroupId; 4] = [
    BindGroupId::Brightness,
    BindGroupId::BlurH,
    BindGroupId::BlurV,
    BindGroupId::Composite,
];

fn layout_of(id: BindGroupId) -> LayoutId {
    match id {
        BindGroupId::Brightness => LayoutId::Brightness,
        BindGroupId::BlurH | BindGroupId::BlurV => LayoutId::Blur,
        BindGroupId::Composite => LayoutId::Composite,
    }
}

fn all_groups_fit(p: &Nnpipe) -> bool {
    ALL_GROUPS.iter().all(|&id| {
        let group = p.bind_group(id);
        group.layout == layout_of(id) && bind_group_fits(&layout_entries(group.layout), &group)
    })
}

fn word_bytes(values: &[f32]) -> Vec<u8> {
    values.iter().flat_map(|v| v.to_bits().to_ne_bytes()).collect()
}

#[test]
fn defaults_match_documented_values() {
    let p = Nnpipe::new(800, 600, 1);
    assert_eq!(p.width(), 800);
    assert_eq!(p.height(), 600);
    assert_eq!(p.sample_count(), 1);
    assert_eq!(p.brightness_threshold(), 0.55f32.to_bits());
    assert_eq!(p.bloom_intensity(), 3.0f32.to_bits());
    assert_eq!(p.adaptive_blur_scaling(), 5.0f32.to_bits());
    assert_eq!(p.max_blur_radius(), 40.0f32.to_bits());
    assert_eq!(p.intensity_curve(), 5.0f32.to_bits());
    assert_eq!(p.params(), Params::defaults());
}

#[test]
fn initial_uniform_contents() {
    let p = Nnpipe::new(64, 32, 1);
    assert_eq!(p.uniform_contents(UniformId::Threshold), word_bytes(&[0.55]));
    assert_eq!(p.uniform_contents(UniformId::BlurHDir), word_bytes(&[1.0, 0.0]));
    assert_eq!(p.uniform_contents(UniformId::BlurVDir), word_bytes(&[0.0, 0.7]));
    assert_eq!(p.uniform_contents(UniformId::Intensity), word_bytes(&[3.0]));
    assert_eq!(p.uniform_contents(UniformId::AdaptiveScaling), word_bytes(&[5.0]));
    assert_eq!(p.uniform_contents(UniformId::MaxRadius), word_bytes(&[40.0]));
    assert_eq!(p.uniform_contents(UniformId::IntensityCurve), word_bytes(&[5.0]));
}

#[test]
fn uniform_bytes_are_not_the_words_themselves() {
    let params = Params::defaults();
    let bytes = uniform_bytes(&params, UniformId::MaxRadius);
    assert_eq!(bytes.len(), 4);
    assert_eq!(bytes, 0x4220_0000u32.to_ne_bytes().to_vec());
}

#[test]
fn single_sampled_textures_share_the_output_size() {
    let p = Nnpipe::new(320, 200, 1);
    let textures = p.textures();
    let ids: Vec<TextureId> = textures.iter().map(|t| t.id).collect();
    assert_eq!(
        ids,
        vec![TextureId::Scene, TextureId::Brightness, TextureId::BlurH, TextureId::BlurV]
    );
    for t in &textures {
        assert_eq!((t.width, t.height, t.sample_count), (320, 200, 1));
        assert_eq!(t.format, ColorFormat::Rgba16Float);
    }
    assert_eq!(p.scene_source(), TextureId::Scene);
}

#[test]
fn multisampled_scene_is_resolved_before_sampling() {
    let p = Nnpipe::new(640, 480, 4);
    let textures = p.textures();
    assert_eq!(textures.len(), 5);
    assert_eq!(textures[0], render_texture_desc(TextureId::Scene, 640, 480, 4));
    assert_eq!(textures[1], render_texture_desc(TextureId::SceneResolve, 640, 480, 1));
    for t in &textures[1..] {
        assert_eq!((t.width, t.height, t.sample_count), (640, 480, 1));
    }
    assert_eq!(p.scene_source(), TextureId::SceneResolve);
    let plan = p.process(ColorFormat::Rgba16Float).unwrap();
    assert_eq!(plan.scene.target, TextureId::Scene);
    assert_eq!(plan.scene.resolve_target, Some(TextureId::SceneResolve));
    assert_eq!(plan.scene.sample_count, 4);
    let brightness = p.bind_group(BindGroupId::Brightness);
    assert_eq!(brightness.entries[0].resource, Resource::View(TextureId::SceneResolve));
    let composite = p.bind_group(BindGroupId::Composite);
    assert_eq!(composite.entries[0].resource, Resource::View(TextureId::SceneResolve));
}

#[test]
fn frame_runs_four_passes_in_order() {
    let p = Nnpipe::new(100, 50, 1);
    let plan = p.process(ColorFormat::Rgba16Float).unwrap();
    assert_eq!(plan.scene.target, TextureId::Scene);
    assert_eq!(plan.scene.resolve_target, None);
    assert_eq!((plan.scene.width, plan.scene.height), (100, 50));
    let summary: Vec<(PipelineId, BindGroupId, Target)> =
        plan.passes.iter().map(|s| (s.pipeline, s.bind_group, s.target)).collect();
    assert_eq!(
        summary,
        vec![
            (PipelineId::Brightness, BindGroupId::Brightness, Target::Texture(TextureId::Brightness)),
            (PipelineId::Blur, BindGroupId::BlurH, Target::Texture(TextureId::BlurH)),
            (PipelineId::Blur, BindGroupId::BlurV, Target::Texture(TextureId::BlurV)),
            (PipelineId::Composite, BindGroupId::Composite, Target::Output),
        ]
    );
    for s in &plan.passes {
        assert_eq!((s.vertex_count, s.instance_count), (3, 1));
    }
}

#[test]
fn output_of_another_format_is_refused() {
    let p = Nnpipe::new(100, 50, 1);
    assert_eq!(p.process(ColorFormat::Other).unwrap_err(), ProcessError::OutputFormatMismatch);
}

#[test]
fn layouts_have_the_expected_slots() {
    let kinds = |id| -> Vec<BindingKind> { layout_entries(id).iter().map(|e| e.kind).collect() };
    let (t, s, u) = (BindingKind::Texture2d, BindingKind::FilteringSampler, BindingKind::Uniform);
    assert_eq!(kinds(LayoutId::Brightness), vec![t, s, u]);
    assert_eq!(kinds(LayoutId::Blur), vec![t, s, u, u, u]);
    assert_eq!(kinds(LayoutId::Composite), vec![t, t, s, u, u]);
    let bindings: Vec<u32> = layout_entries(LayoutId::Composite).iter().map(|e| e.binding).collect();
    assert_eq!(bindings, vec![0, 1, 2, 3, 4]);
}

#[test]
fn blur_groups_differ_in_source_and_direction_only() {
    let p = Nnpipe::new(16, 16, 1);
    let h = p.bind_group(BindGroupId::BlurH);
    let v = p.bind_group(BindGroupId::BlurV);
    assert_eq!(h.entries[0].resource, Resource::View(TextureId::Brightness));
    assert_eq!(v.entries[0].resource, Resource::View(TextureId::BlurH));
    assert_eq!(h.entries[2].resource, Resource::Buffer(UniformId::BlurHDir));
    assert_eq!(v.entries[2].resource, Resource::Buffer(UniformId::BlurVDir));
    assert_eq!(h.entries[3..], v.entries[3..]);
}

#[test]
fn every_bind_group_fits_its_layout() {
    assert!(all_groups_fit(&Nnpipe::new(16, 16, 1)));
    assert!(all_groups_fit(&Nnpipe::new(16, 16, 4)));
}

#[test]
fn bind_groups_stay_valid_after_setters() {
    let mut p = Nnpipe::new(16, 16, 4);
    let before: Vec<BindGroupDesc> = ALL_GROUPS.iter().map(|&id| p.bind_group(id)).collect();
    p.set_brightness_threshold(0.9f32.to_bits());
    p.set_bloom_intensity(0.0f32.to_bits());
    p.set_adaptive_blur_scaling(2.5f32.to_bits());
    p.set_max_blur_radius(f32::NAN.to_bits());
    p.set_intensity_curve((-1.0f32).to_bits());
    p.set_max_blur_radius(10.0f32.to_bits());
    for (id, old) in ALL_GROUPS.iter().zip(before.iter()) {
        let now = p.bind_group(*id);
        assert_eq!(now.layout, old.layout);
        assert_eq!(now.entries, old.entries);
    }
    assert!(all_groups_fit(&p));
}

#[test]
fn mismatched_bind_group_is_detected() {
    let slots = layout_entries(LayoutId::Brightness);
    let swapped = BindGroupDesc {
        layout: LayoutId::Brightness,
        entries: vec![
            BindEntry { binding: 0, resource: Resource::Sampler },
            BindEntry { binding: 1, resource: Resource::View(TextureId::Scene) },
            BindEntry { binding: 2, resource: Resource::Buffer(UniformId::Threshold) },
        ],
    };
    assert!(!bind_group_fits(&slots, &swapped));
    let short = BindGroupDesc {
        layout: LayoutId::Brightness,
        entries: vec![BindEntry { binding: 0, resource: Resource::View(TextureId::Scene) }],
    };
    assert!(!bind_group_fits(&slots, &short));
    let renumbered = BindGroupDesc {
        layout: LayoutId::Brightness,
        entries: vec![
            BindEntry { binding: 0, resource: Resource::View(TextureId::Scene) },
            BindEntry { binding: 2, resource: Resource::Sampler },
            BindEntry { binding: 1, resource: Resource::Buffer(UniformId::Threshold) },
        ],
    };
    assert!(!bind_group_fits(&slots, &renumbered));
    let slot = LayoutEntry { binding: 0, kind: BindingKind::Uniform };
    let one = BindGroupDesc {
        layout: LayoutId::Brightness,
        entries: vec![BindEntry { binding: 0, resource: Resource::Buffer(UniformId::Intensity) }],
    };
    assert!(bind_group_fits(&vec![slot], &one));
}

#[test]
fn setters_write_the_new_value_at_offset_zero() {
    let mut p = Nnpipe::new(16, 16, 1);
    let cases: Vec<(Param, UniformId, f32)> = vec![
        (Param::BrightnessThreshold, UniformId::Threshold, 0.8),
        (Param::BloomIntensity, UniformId::Intensity, 1.5),
        (Param::AdaptiveBlurScaling, UniformId::AdaptiveScaling, 7.0),
        (Param::MaxBlurRadius, UniformId::MaxRadius, 12.0),
        (Param::IntensityCurve, UniformId::IntensityCurve, 2.0),
    ];
    for (param, buffer, v) in cases {
        let bits = v.to_bits();
        let w = match param {
            Param::BrightnessThreshold => p.set_brightness_threshold(bits),
            Param::BloomIntensity => p.set_bloom_intensity(bits),
            Param::AdaptiveBlurScaling => p.set_adaptive_blur_scaling(bits),
            Param::MaxBlurRadius => p.set_max_blur_radius(bits),
            Param::IntensityCurve => p.set_intensity_curve(bits),
        };
        assert_eq!(w.buffer, buffer);
        assert_eq!(w.offset, 0);
        assert_eq!(w.bytes, word_bytes(&[v]));
        assert_eq!(p.params().value(param), bits);
        assert_eq!(p.uniform_contents(buffer), word_bytes(&[v]));
    }
    assert_eq!(p.brightness_threshold(), 0.8f32.to_bits());
    assert_eq!(p.bloom_intensity(), 1.5f32.to_bits());
    assert_eq!(p.adaptive_blur_scaling(), 7.0f32.to_bits());
    assert_eq!(p.max_blur_radius(), 12.0f32.to_bits());
    assert_eq!(p.intensity_curve(), 2.0f32.to_bits());
    assert_eq!((p.width(), p.height(), p.sample_count()), (16, 16, 1));
}

#[test]
fn setting_twice_equals_setting_once() {
    let mut once = Nnpipe::new(16, 16, 1);
    let mut twice = Nnpipe::new(16, 16, 1);
    let w1 = once.set_intensity_curve(3.5f32.to_bits());
    let _ = twice.set_intensity_curve(3.5f32.to_bits());
    let w2 = twice.set_intensity_curve(3.5f32.to_bits());
    assert_eq!(once.params(), twice.params());
    assert_eq!(w1.bytes, w2.bytes);
    assert_eq!(
        once.uniform_contents(UniformId::IntensityCurve),
        twice.uniform_contents(UniformId::IntensityCurve)
    );
}

#[test]
fn zero_intensity_reaches_the_composite_uniform() {
    let mut p = Nnpipe::new(16, 16, 1);
    let w = p.set_bloom_intensity(0.0f32.to_bits());
    assert_eq!(w.buffer, UniformId::Intensity);
    assert_eq!(w.bytes, vec![0, 0, 0, 0]);
    let plan = p.process(ColorFormat::Rgba16Float).unwrap();
    let last = plan.passes[3];
    assert_eq!(last.target, Target::Output);
    let group = p.bind_group(last.bind_group);
    assert!(group.entries.iter().any(|e| e.resource == Resource::Buffer(UniformId::Intensity)));
}

#[test]
fn params_set_one_field_only() {
    let mut params = Params::defaults();
    params.set(Param::MaxBlurRadius, 7);
    assert_eq!(params.max_blur_radius, 7);
    assert_eq!(params.brightness_threshold, 0.55f32.to_bits());
    assert_eq!(params.intensity_curve, 5.0f32.to_bits());
}

#[test]
fn pipelines_render_single_sampled_half_float() {
    for (id, layout) in [
        (PipelineId::Brightness, LayoutId::Brightness),
        (PipelineId::Blur, LayoutId::Blur),
        (PipelineId::Composite, LayoutId::Composite),
    ] {
        let d = pipeline_desc(id);
        assert_eq!(d.layout, layout);
        assert_eq!(d.target_format, ColorFormat::Rgba16Float);
        assert!(d.alpha_blending);
        assert_eq!(d.sample_count, 1);
    }
}
