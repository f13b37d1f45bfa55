//! Descriptions of the GPU objects the pipeline creates: render textures and
//! render pipelines.
use vstd::prelude::*;

use crate::layout::{LayoutId, TextureId};

verus! {

/// Colour formats, as far as the pipeline tells them apart.
#[derive(Clone, Copy, Debug, PartialEq, Eq, Structural)]
pub enum ColorFormat {
    /// Four half-precision float channels: the format of every texture the
    /// pipeline owns and of every colour target it renders to.
    Rgba16Float,
    Other,
}

/// A render texture: usable both as a colour attachment and as a sampled
/// texture.
#[derive(Clone, Copy, Debug, PartialEq, Eq, Structural)]
pub struct TextureDesc {
    pub id: TextureId,
    pub width: u32,
    pub height: u32,
    pub sample_count: u32,
    pub format: ColorFormat,
}

/// The description of a render texture of the given size and sample count.
pub fn render_texture_desc(id: TextureId, width: u32, height: u32, samples: u32) -> (r:
    TextureDesc)
    ensures
        r == (TextureDesc {
            id,
            width,
            height,
            sample_count: samples,
            format: ColorFormat::Rgba16Float,
        }),
{
    TextureDesc { id, width, height, sample_count: samples, format: ColorFormat::Rgba16Float }
}

#[derive(Clone, Copy, Debug, PartialEq, Eq, Structural)]
pub enum PipelineId {
    Brightness,
    Blur,
    Composite,
}

/// A render pipeline. Each draws a three-vertex fullscreen triangle generated
/// in the vertex shader (no vertex buffers), as a triangle list with
/// counter-clockwise front faces, no culling, filled polygons, and no depth
/// or stencil.
#[derive(Clone, Copy, Debug, PartialEq, Eq, Structural)]
pub struct RenderPipelineDesc {
    pub layout: LayoutId,
    pub target_format: ColorFormat,
    /// Standard source-over alpha blending, all channels written.
    pub alpha_blending: bool,
    pub sample_count: u32,
}

pub open spec fn pipeline_layout(id: PipelineId) -> LayoutId {
    match id {
        PipelineId::Brightness => LayoutId::Brightness,
        PipelineId::Blur => LayoutId::Blur,
        PipelineId::Composite => LayoutId::Composite,
    }
}

/// The description of one of the three render pipelines. All render single
/// sampled, whatever the scene's sample count.
pub fn pipeline_desc(id: PipelineId) -> (r: RenderPipelineDesc)
    ensures
        r == (RenderPipelineDesc {
            layout: pipeline_layout(id),
            target_format: ColorFormat::Rgba16Float,
            alpha_blending: true,
            sample_count: 1,
        }),
{
    let layout = match id {
        PipelineId::Brightness => LayoutId::Brightness,
        PipelineId::Blur => LayoutId::Blur,
        PipelineId::Composite => LayoutId::Composite,
    };
    RenderPipelineDesc {
        layout,
        target_format: ColorFormat::Rgba16Float,
        alpha_blending: true,
        sample_count: 1,
    }
}

} // verus!
