//! Bind-group layouts of the three shader programs, the bind groups that
//! satisfy them, and the check that a bind group fits its layout.
use vstd::prelude::*;

use crate::uniforms::UniformId;

verus! {

/// The textures owned by the pipeline. `SceneResolve` exists only when the
/// scene is multisampled: it receives the resolved scene.
#[derive(Clone, Copy, Debug, PartialEq, Eq, Structural)]
pub enum TextureId {
    Scene,
    SceneResolve,
    Brightness,
    BlurH,
    BlurV,
}

/// What a layout slot accepts. Textures are 2D, filterable float, single
/// sampled; samplers are filtering; buffers are non-dynamic uniforms. Every
/// slot is visible to the fragment stage.
#[derive(Clone, Copy, Debug, PartialEq, Eq, Structural)]
pub enum BindingKind {
    Texture2d,
    FilteringSampler,
    Uniform,
}

#[derive(Clone, Copy, Debug, PartialEq, Eq, Structural)]
pub enum LayoutId {
    Brightness,
    Blur,
    Composite,
}

#[derive(Clone, Copy, Debug, PartialEq, Eq, Structural)]
pub struct LayoutEntry {
    pub binding: u32,
    pub kind: BindingKind,
}

/// A resource bound into a bind group.
#[derive(Clone, Copy, Debug, PartialEq, Eq, Structural)]
pub enum Resource {
    View(TextureId),
    Sampler,
    Buffer(UniformId),
}

#[derive(Clone, Copy, Debug, PartialEq, Eq, Structural)]
pub struct BindEntry {
    pub binding: u32,
    pub resource: Resource,
}

#[derive(Clone, Copy, Debug, PartialEq, Eq, Structural)]
pub enum BindGroupId {
    Brightness,
    BlurH,
    BlurV,
    Composite,
}

#[derive(Clone, Debug)]
pub struct BindGroupDesc {
    pub layout: LayoutId,
    pub entries: Vec<BindEntry>,
}

/// The kinds of a layout's slots; slot `i` has binding index `i`.
pub open spec fn layout_spec(id: LayoutId) -> Seq<BindingKind> {
    match id {
        LayoutId::Brightness => seq![
            BindingKind::Texture2d,
            BindingKind::FilteringSampler,
            BindingKind::Uniform,
        ],
        LayoutId::Blur => seq![
            BindingKind::Texture2d,
            BindingKind::FilteringSampler,
            BindingKind::Uniform,
            BindingKind::Uniform,
            BindingKind::Uniform,
        ],
        LayoutId::Composite => seq![
            BindingKind::Texture2d,
            BindingKind::Texture2d,
            BindingKind::FilteringSampler,
            BindingKind::Uniform,
            BindingKind::Uniform,
        ],
    }
}

pub open spec fn entries_match_kinds(entries: Seq<LayoutEntry>, kinds: Seq<BindingKind>) -> bool {
    &&& entries.len() == kinds.len()
    &&& forall|i: int|
        0 <= i < entries.len() ==> entries[i].binding == i && entries[i].kind == kinds[i]
}

/// The slots of a layout, in binding order.
pub fn layout_entries(id: LayoutId) -> (r: Vec<LayoutEntry>)
    ensures
        entries_match_kinds(r@, layout_spec(id)),
{
    let kinds: Vec<BindingKind> = match id {
        LayoutId::Brightness => vec![
            BindingKind::Texture2d,
            BindingKind::FilteringSampler,
            BindingKind::Uniform,
        ],
        LayoutId::Blur => vec![
            BindingKind::Texture2d,
            BindingKind::FilteringSampler,
            BindingKind::Uniform,
            BindingKind::Uniform,
            BindingKind::Uniform,
        ],
        LayoutId::Composite => vec![
            BindingKind::Texture2d,
            BindingKind::Texture2d,
            BindingKind::FilteringSampler,
            BindingKind::Uniform,
            BindingKind::Uniform,
        ],
    };
    assert(kinds@ =~= layout_spec(id));
    let mut r: Vec<LayoutEntry> = Vec::new();
    let mut i: usize = 0;
    while i < kinds.len()
        invariant
            i <= kinds@.len(),
            kinds@ == layout_spec(id),
            r@.len() == i,
            forall|j: int| 0 <= j < i ==> r@[j].binding == j && r@[j].kind == kinds@[j],
        decreases kinds@.len() - i,
    {
        r.push(LayoutEntry { binding: i as u32, kind: kinds[i] });
        i = i + 1;
    }
    r
}

/// The slot kind that a resource fills.
pub open spec fn resource_kind(r: Resource) -> BindingKind {
    match r {
        Resource::View(_) => BindingKind::Texture2d,
        Resource::Sampler => BindingKind::FilteringSampler,
        Resource::Buffer(_) => BindingKind::Uniform,
    }
}

pub fn kind_of(r: Resource) -> (k: BindingKind)
    ensures
        k == resource_kind(r),
{
    match r {
        Resource::View(_) => BindingKind::Texture2d,
        Resource::Sampler => BindingKind::FilteringSampler,
        Resource::Buffer(_) => BindingKind::Uniform,
    }
}

/// Bind-group entries fill the slots `kinds`, in binding order.
pub open spec fn fits_kinds(kinds: Seq<BindingKind>, entries: Seq<BindEntry>) -> bool {
    &&& entries.len() == kinds.len()
    &&& forall|i: int|
        0 <= i < entries.len() ==> entries[i].binding == i && resource_kind(entries[i].resource)
            == kinds[i]
}

/// A bind group fits a layout when it fills every slot, in binding order,
/// with a resource of the slot's kind, and holds nothing else.
pub open spec fn fits(layout: Seq<LayoutEntry>, entries: Seq<BindEntry>) -> bool {
    &&& entries.len() == layout.len()
    &&& forall|i: int|
        0 <= i < entries.len() ==> entries[i].binding == layout[i].binding && resource_kind(
            entries[i].resource,
        ) == layout[i].kind
}

/// Checks that `group` fits the slots `layout`.
pub fn bind_group_fits(layout: &Vec<LayoutEntry>, group: &BindGroupDesc) -> (r: bool)
    ensures
        r == fits(layout@, group.entries@),
{
    if layout.len() != group.entries.len() {
        return false;
    }
    let mut i: usize = 0;
    while i < layout.len()
        invariant
            layout@.len() == group.entries@.len(),
            i <= layout@.len(),
            forall|j: int|
                0 <= j < i ==> group.entries@[j].binding == layout@[j].binding && resource_kind(
                    group.entries@[j].resource,
                ) == layout@[j].kind,
        decreases layout@.len() - i,
    {
        let e = group.entries[i];
        let slot = layout[i];
        if e.binding != slot.binding || kind_of(e.resource) != slot.kind {
            return false;
        }
        i = i + 1;
    }
    true
}

} // verus!
