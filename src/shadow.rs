use vstd::prelude::*;

use crate::light::{Light, PROJ_SIZE, RECORD_SIZE, record_offset};
use crate::model::{Mesh, Model};

verus! {

/// Layers allocated in the shadow map beyond one per light.
pub const SPARE_LAYERS: u32 = 10;

/// Why a shadow target set could not be built.
#[derive(Clone, Copy, Debug, PartialEq, Eq, Structural)]
pub enum ShadowError {
    /// There are more lights than shadow-map layers.
    InsufficientLayers,
    /// The lights and the spare layers do not fit in a 32-bit layer count.
    TooManyLights,
}

/// The shadow subsystem: one depth-map layer per light, in light order,
/// within a `width` x `height` depth texture of `layer_count` layers.
#[derive(Clone, Debug)]
pub struct Shadow {
    pub lights: Vec<Light>,
    pub layer_count: u32,
    pub width: u32,
    pub height: u32,
}

/// One indexed draw of the depth-only pass: all `index_count` indices of
/// mesh `mesh`, for instances `0 .. instance_count`.
#[derive(Clone, Copy, Debug, PartialEq, Eq, Structural)]
pub struct DepthDraw {
    pub mesh: usize,
    pub index_count: u32,
    pub instance_count: u32,
}

/// The depth-only pass of one light: copy `copy_size` bytes at
/// `copy_offset` of the light buffer (the light's view-projection block)
/// into the pass's uniform buffer, clear layer `layer` of the shadow map to
/// depth 1.0, then issue `draws`.
#[derive(Clone, Debug)]
pub struct ShadowPass {
    pub light: usize,
    pub layer: u32,
    pub copy_offset: u64,
    pub copy_size: u64,
    pub draws: Vec<DepthDraw>,
}

/// The depth draw of mesh `k`.
pub open spec fn depth_draw(meshes: Seq<Mesh>, k: int, instance_count: u32) -> DepthDraw {
    DepthDraw { mesh: k as usize, index_count: meshes[k].num_elements, instance_count }
}

/// Whether `pass` is the depth pass of light `i` over `meshes`.
pub open spec fn is_pass_of(pass: ShadowPass, i: int, meshes: Seq<Mesh>, instance_count: u32) -> bool {
    &&& pass.light == i
    &&& pass.layer == i
    &&& pass.copy_offset == record_offset(i)
    &&& pass.copy_size == PROJ_SIZE
    &&& pass.draws@.len() == meshes.len()
    &&& forall|k: int|
        0 <= k < meshes.len() ==> #[trigger] pass.draws@[k] == depth_draw(meshes, k, instance_count)
}

/// One depth draw per mesh, in order, for instances `0 .. instance_count`.
pub fn depth_draws(model: &Model, instance_count: u32) -> (r: Vec<DepthDraw>)
    ensures
        r@.len() == model.meshes@.len(),
        forall|k: int|
            0 <= k < r@.len() ==> #[trigger] r@[k] == depth_draw(model.meshes@, k, instance_count),
{
    let mut r: Vec<DepthDraw> = Vec::new();
    let mut k: usize = 0;
    while k < model.meshes.len()
        invariant
            k <= model.meshes@.len(),
            r@.len() == k,
            forall|j: int|
                0 <= j < k ==> #[trigger] r@[j] == depth_draw(model.meshes@, j, instance_count),
        decreases model.meshes@.len() - k,
    {
        r.push(DepthDraw { mesh: k, index_count: model.meshes[k].num_elements, instance_count });
        k = k + 1;
    }
    r
}

impl Shadow {
    /// There is a layer for every light.
    pub open spec fn wf(&self) -> bool {
        self.lights@.len() <= self.layer_count
    }

    /// A shadow target set of `layer_count` layers for `lights`. Fails with
    /// `InsufficientLayers` exactly when there are more lights than layers.
    pub fn with_layers(lights: Vec<Light>, layer_count: u32, shadow_width: u32, shadow_height: u32) -> (r:
        Result<Shadow, ShadowError>)
        ensures
            r is Ok <==> lights@.len() <= layer_count,
            r is Err ==> r->Err_0 == ShadowError::InsufficientLayers,
            r is Ok ==> {
                &&& r->Ok_0.wf()
                &&& r->Ok_0.lights@ == lights@
                &&& r->Ok_0.layer_count == layer_count
                &&& r->Ok_0.width == shadow_width
                &&& r->Ok_0.height == shadow_height
            },
    {
        if lights.len() > layer_count as usize {
            return Err(ShadowError::InsufficientLayers);
        }
        Ok(Shadow { lights, layer_count, width: shadow_width, height: shadow_height })
    }

    /// A shadow target set with one layer per light plus SPARE_LAYERS spare
    /// ones. Fails with `TooManyLights` exactly when that count exceeds
    /// `u32::MAX`.
    pub fn new(lights: Vec<Light>, shadow_width: u32, shadow_height: u32) -> (r: Result<
        Shadow,
        ShadowError,
    >)
        ensures
            r is Ok <==> lights@.len() + SPARE_LAYERS <= u32::MAX,
            r is Err ==> r->Err_0 == ShadowError::TooManyLights,
            r is Ok ==> {
                &&& r->Ok_0.wf()
                &&& r->Ok_0.lights@ == lights@
                &&& r->Ok_0.layer_count == lights@.len() + SPARE_LAYERS
                &&& r->Ok_0.width == shadow_width
                &&& r->Ok_0.height == shadow_height
            },
    {
        if lights.len() > (u32::MAX - SPARE_LAYERS) as usize {
            return Err(ShadowError::TooManyLights);
        }
        let layers = lights.len() as u32 + SPARE_LAYERS;
        Shadow::with_layers(lights, layers, shadow_width, shadow_height)
    }

    /// The number of lights, and so of depth passes per frame.
    pub fn light_count(&self) -> (r: usize)
        ensures
            r == self.lights@.len(),
    {
        self.lights.len()
    }

    /// The base layer of each light's render-target view; each view is one
    /// layer deep.
    pub fn target_layers(&self) -> (r: Vec<u32>)
        requires
            self.wf(),
        ensures
            r@.len() == self.lights@.len(),
            forall|i: int| 0 <= i < r@.len() ==> #[trigger] r@[i] == i && r@[i] < self.layer_count,
    {
        let mut r: Vec<u32> = Vec::new();
        let mut i: usize = 0;
        while i < self.lights.len()
            invariant
                self.wf(),
                i <= self.lights@.len(),
                r@.len() == i,
                forall|j: int| 0 <= j < i ==> #[trigger] r@[j] == j && r@[j] < self.layer_count,
            decreases self.lights@.len() - i,
        {
            r.push(i as u32);
            i = i + 1;
        }
        r
    }

    /// The depth passes of one frame: one per light, in light order, each
    /// drawing every mesh of `model` for `instance_count` instances into the
    /// light's own layer.
    pub fn render(&self, model: &Model, instance_count: u32) -> (r: Vec<ShadowPass>)
        requires
            self.wf(),
        ensures
            r@.len() == self.lights@.len(),
            forall|i: int|
                0 <= i < r@.len() ==> is_pass_of(#[trigger] r@[i], i, model.meshes@, instance_count),
    {
        let mut r: Vec<ShadowPass> = Vec::new();
        let mut i: usize = 0;
        while i < self.lights.len()
            invariant
                self.wf(),
                i <= self.lights@.len(),
                r@.len() == i,
                forall|j: int|
                    0 <= j < i ==> is_pass_of(#[trigger] r@[j], j, model.meshes@, instance_count),
            decreases self.lights@.len() - i,
        {
            let draws = depth_draws(model, instance_count);
            r.push(
                ShadowPass {
                    light: i,
                    layer: i as u32,
                    copy_offset: i as u64 * RECORD_SIZE,
                    copy_size: PROJ_SIZE,
                    draws,
                },
            );
            i = i + 1;
        }
        r
    }
}

/// The pass of light `i` among `n` lights reads only light `i`'s record: the
/// copied view-projection block lies within `[i * RECORD_SIZE, (i + 1) *
/// RECORD_SIZE)`, inside a buffer of `n` records, and writes only layer `i`,
/// which a well-formed shadow map has.
pub proof fn lemma_pass_reads_own_record(shadow: Shadow, i: int)
    requires
        shadow.wf(),
        0 <= i < shadow.lights@.len(),
    ensures
        record_offset(i) <= record_offset(i) + PROJ_SIZE <= record_offset(i + 1),
        record_offset(i + 1) <= shadow.lights@.len() * RECORD_SIZE,
        i < shadow.layer_count,
{
    assert(record_offset(i + 1) <= shadow.lights@.len() * RECORD_SIZE) by (nonlinear_arith)
        requires
            0 <= i < shadow.lights@.len(),
    ;
}

} // verus!
