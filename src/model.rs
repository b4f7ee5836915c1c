use vstd::prelude::*;

verus! {

/// Bind-group slots of a draw with a material.
pub const MATERIAL_GROUP: u32 = 0;

pub const MATERIAL_CAMERA_GROUP: u32 = 1;

pub const MATERIAL_LIGHT_GROUP: u32 = 2;

/// Bind-group slots of a light-only draw.
pub const LIGHT_ONLY_CAMERA_GROUP: u32 = 0;

pub const LIGHT_ONLY_LIGHT_GROUP: u32 = 1;

/// Where a material's texture slot gets its texture from.
#[derive(Clone, Copy, Debug, PartialEq, Eq, Structural)]
pub enum TextureSource {
    /// The texture loaded for the material, by its index among loaded textures.
    Loaded(usize),
    /// The default placeholder texture, bound where the material names none.
    Placeholder,
}

/// The texture source for an optional loaded texture.
pub open spec fn source_of(texture: Option<usize>) -> TextureSource {
    match texture {
        Some(t) => TextureSource::Loaded(t),
        None => TextureSource::Placeholder,
    }
}

/// A material: what its diffuse and normal texture slots are bound to.
#[derive(Clone, Debug)]
pub struct Material {
    pub name: String,
    pub diffuse_texture: TextureSource,
    pub normal_texture: TextureSource,
}

impl Material {
    /// A material with the given textures. A missing texture falls back to
    /// the placeholder, so that every slot is bound; this never fails.
    pub fn new(name: String, diffuse_texture: Option<usize>, normal_texture: Option<usize>) -> (r:
        Material)
        ensures
            r.name@ == name@,
            r.diffuse_texture == source_of(diffuse_texture),
            r.normal_texture == source_of(normal_texture),
    {
        let diffuse = match diffuse_texture {
            Some(t) => TextureSource::Loaded(t),
            None => TextureSource::Placeholder,
        };
        let normal = match normal_texture {
            Some(t) => TextureSource::Loaded(t),
            None => TextureSource::Placeholder,
        };
        Material { name, diffuse_texture: diffuse, normal_texture: normal }
    }

    /// The shader's "has texture" flag: 1 when the diffuse texture was
    /// loaded, 0 when the placeholder stands in.
    pub fn use_texture(&self) -> (r: u32)
        ensures
            r == (if self.diffuse_texture is Loaded { 1u32 } else { 0u32 }),
    {
        match self.diffuse_texture {
            TextureSource::Loaded(_) => 1,
            TextureSource::Placeholder => 0,
        }
    }
}

/// A mesh: `num_elements` indices drawn with material `material`.
#[derive(Clone, Debug)]
pub struct Mesh {
    pub name: String,
    pub num_elements: u32,
    pub material: usize,
}

/// A model: its meshes and the materials they refer to by index.
#[derive(Clone, Debug)]
pub struct Model {
    pub meshes: Vec<Mesh>,
    pub materials: Vec<Material>,
}

/// Why a model was refused.
#[derive(Clone, Copy, Debug, PartialEq, Eq, Structural)]
pub enum ModelError {
    /// The mesh at this index names a material the model does not have.
    MaterialOutOfRange(usize),
}

/// One indexed draw: all `index_count` indices of mesh `mesh`, for the
/// instances `first_instance .. end_instance`, with the material's bind group
/// in slot MATERIAL_GROUP when `material` is set.
#[derive(Clone, Copy, Debug, PartialEq, Eq)]
pub struct DrawCall {
    pub mesh: usize,
    pub material: Option<usize>,
    pub camera_group: u32,
    pub light_group: u32,
    pub index_count: u32,
    pub first_instance: u32,
    pub end_instance: u32,
}

/// The draw of mesh `k` of `meshes` with its material.
pub open spec fn material_draw(meshes: Seq<Mesh>, k: int, first: u32, end: u32) -> DrawCall {
    DrawCall {
        mesh: k as usize,
        material: Some(meshes[k].material),
        camera_group: MATERIAL_CAMERA_GROUP,
        light_group: MATERIAL_LIGHT_GROUP,
        index_count: meshes[k].num_elements,
        first_instance: first,
        end_instance: end,
    }
}

/// The draw of mesh `k` of `meshes` with no material.
pub open spec fn light_draw(meshes: Seq<Mesh>, k: int, first: u32, end: u32) -> DrawCall {
    DrawCall {
        mesh: k as usize,
        material: None,
        camera_group: LIGHT_ONLY_CAMERA_GROUP,
        light_group: LIGHT_ONLY_LIGHT_GROUP,
        index_count: meshes[k].num_elements,
        first_instance: first,
        end_instance: end,
    }
}

/// Whether every mesh names one of `material_count` materials.
pub open spec fn materials_in_range(meshes: Seq<Mesh>, material_count: int) -> bool {
    forall|k: int| 0 <= k < meshes.len() ==> (#[trigger] meshes[k]).material < material_count
}

impl Model {
    pub open spec fn wf(&self) -> bool {
        materials_in_range(self.meshes@, self.materials@.len() as int)
    }

    /// A model of these meshes and materials. Refused, naming the first such
    /// mesh, when a mesh names a material that is not in `materials`.
    pub fn new(meshes: Vec<Mesh>, materials: Vec<Material>) -> (r: Result<Model, ModelError>)
        ensures
            r is Ok <==> materials_in_range(meshes@, materials@.len() as int),
            r is Ok ==> r->Ok_0.wf() && r->Ok_0.meshes@ == meshes@ && r->Ok_0.materials@
                == materials@,
            r is Err ==> {
                let k = r->Err_0->MaterialOutOfRange_0 as int;
                &&& 0 <= k < meshes@.len()
                &&& meshes@[k].material >= materials@.len()
                &&& materials_in_range(meshes@.subrange(0, k), materials@.len() as int)
            },
    {
        let mut k: usize = 0;
        while k < meshes.len()
            invariant
                k <= meshes@.len(),
                materials_in_range(meshes@.subrange(0, k as int), materials@.len() as int),
            decreases meshes@.len() - k,
        {
            if meshes[k].material >= materials.len() {
                return Err(ModelError::MaterialOutOfRange(k));
            }
            assert forall|j: int| 0 <= j < k + 1 implies (#[trigger] meshes@.subrange(
                0,
                k + 1,
            )[j]).material < materials@.len() by {
                if j < k {
                    assert(meshes@.subrange(0, k + 1)[j] == meshes@.subrange(0, k as int)[j]);
                }
            }
            k = k + 1;
        }
        assert(meshes@.subrange(0, k as int) =~= meshes@);
        Ok(Model { meshes, materials })
    }

    /// The draw of mesh `mesh` with its material, for the given instances.
    pub fn draw_mesh_instanced(&self, mesh: usize, first_instance: u32, end_instance: u32) -> (r:
        DrawCall)
        requires
            mesh < self.meshes@.len(),
        ensures
            r == material_draw(self.meshes@, mesh as int, first_instance, end_instance),
    {
        DrawCall {
            mesh,
            material: Some(self.meshes[mesh].material),
            camera_group: MATERIAL_CAMERA_GROUP,
            light_group: MATERIAL_LIGHT_GROUP,
            index_count: self.meshes[mesh].num_elements,
            first_instance,
            end_instance,
        }
    }

    /// The draw of mesh `mesh` with its material, for the single instance 0.
    pub fn draw_mesh(&self, mesh: usize) -> (r: DrawCall)
        requires
            mesh < self.meshes@.len(),
        ensures
            r == material_draw(self.meshes@, mesh as int, 0, 1),
    {
        self.draw_mesh_instanced(mesh, 0, 1)
    }

    /// The draw of mesh `mesh` with no material, for the given instances.
    pub fn draw_light_mesh_instanced(
        &self,
        mesh: usize,
        first_instance: u32,
        end_instance: u32,
    ) -> (r: DrawCall)
        requires
            mesh < self.meshes@.len(),
        ensures
            r == light_draw(self.meshes@, mesh as int, first_instance, end_instance),
    {
        DrawCall {
            mesh,
            material: None,
            camera_group: LIGHT_ONLY_CAMERA_GROUP,
            light_group: LIGHT_ONLY_LIGHT_GROUP,
            index_count: self.meshes[mesh].num_elements,
            first_instance,
            end_instance,
        }
    }

    /// The draw of mesh `mesh` with no material, for the single instance 0.
    pub fn draw_light_mesh(&self, mesh: usize) -> (r: DrawCall)
        requires
            mesh < self.meshes@.len(),
        ensures
            r == light_draw(self.meshes@, mesh as int, 0, 1),
    {
        self.draw_light_mesh_instanced(mesh, 0, 1)
    }

    /// One draw per mesh, in order, each with the mesh's own material.
    pub fn draw_model_instanced(&self, first_instance: u32, end_instance: u32) -> (r: Vec<
        DrawCall,
    >)
        requires
            self.wf(),
        ensures
            r@.len() == self.meshes@.len(),
            forall|k: int|
                0 <= k < r@.len() ==> #[trigger] r@[k] == material_draw(
                    self.meshes@,
                    k,
                    first_instance,
                    end_instance,
                ),
            forall|k: int|
                0 <= k < r@.len() ==> (#[trigger] r@[k]).material.unwrap()
                    < self.materials@.len(),
    {
        let mut r: Vec<DrawCall> = Vec::new();
        let mut k: usize = 0;
        while k < self.meshes.len()
            invariant
                k <= self.meshes@.len(),
                r@.len() == k,
                forall|j: int|
                    0 <= j < k ==> #[trigger] r@[j] == material_draw(
                        self.meshes@,
                        j,
                        first_instance,
                        end_instance,
                    ),
            decreases self.meshes@.len() - k,
        {
            r.push(self.draw_mesh_instanced(k, first_instance, end_instance));
            k = k + 1;
        }
        proof {
            assert forall|k: int| 0 <= k < r@.len() implies (#[trigger] r@[k]).material.unwrap()
                < self.materials@.len() by {
                assert(self.meshes@[k].material < self.materials@.len());
            }
        }
        r
    }

    /// One draw per mesh with its material, for the single instance 0.
    pub fn draw_model(&self) -> (r: Vec<DrawCall>)
        requires
            self.wf(),
        ensures
            r@.len() == self.meshes@.len(),
            forall|k: int| 0 <= k < r@.len() ==> #[trigger] r@[k] == material_draw(self.meshes@, k, 0, 1),
    {
        self.draw_model_instanced(0, 1)
    }

    /// One draw per mesh, in order, with no material bound.
    pub fn draw_light_model_instanced(&self, first_instance: u32, end_instance: u32) -> (r: Vec<
        DrawCall,
    >)
        ensures
            r@.len() == self.meshes@.len(),
            forall|k: int|
                0 <= k < r@.len() ==> #[trigger] r@[k] == light_draw(
                    self.meshes@,
                    k,
                    first_instance,
                    end_instance,
                ),
    {
        let mut r: Vec<DrawCall> = Vec::new();
        let mut k: usize = 0;
        while k < self.meshes.len()
            invariant
                k <= self.meshes@.len(),
                r@.len() == k,
                forall|j: int|
                    0 <= j < k ==> #[trigger] r@[j] == light_draw(
                        self.meshes@,
                        j,
                        first_instance,
                        end_instance,
                    ),
            decreases self.meshes@.len() - k,
        {
            r.push(self.draw_light_mesh_instanced(k, first_instance, end_instance));
            k = k + 1;
        }
        r
    }

    /// One draw per mesh with no material, for the single instance 0.
    pub fn draw_light_model(&self) -> (r: Vec<DrawCall>)
        ensures
            r@.len() == self.meshes@.len(),
            forall|k: int| 0 <= k < r@.len() ==> #[trigger] r@[k] == light_draw(self.meshes@, k, 0, 1),
    {
        self.draw_light_model_instanced(0, 1)
    }
}

/// Size in bytes of one vertex component (a single-precision value).
pub const COMPONENT_SIZE: u64 = 4;

/// Components per vertex: position (3), texture coordinates (2), normal (3).
pub const VERTEX_COMPONENTS: usize = 8;

/// One attribute of a vertex buffer: `components` single-precision values at
/// byte `offset` of each vertex, read by the shader at `shader_location`.
#[derive(Clone, Copy, Debug, PartialEq, Eq, Structural)]
pub struct VertexAttribute {
    pub offset: u64,
    pub shader_location: u32,
    pub components: u32,
}

/// The layout of a vertex buffer: one vertex every `array_stride` bytes.
#[derive(Clone, Debug)]
pub struct VertexLayout {
    pub array_stride: u64,
    pub attributes: Vec<VertexAttribute>,
}

/// The layout of model vertices: position at location 0, texture
/// coordinates at location 1, normal at location 2, packed without gaps
/// (byte offsets 0, 12 and 20).
pub fn model_vertex_layout() -> (r: VertexLayout)
    ensures
        r.array_stride == VERTEX_COMPONENTS * COMPONENT_SIZE,
        r.attributes@ == seq![
            VertexAttribute { offset: 0, shader_location: 0, components: 3 },
            VertexAttribute { offset: 12, shader_location: 1, components: 2 },
            VertexAttribute { offset: 20, shader_location: 2, components: 3 },
        ],
{
    let mut attributes: Vec<VertexAttribute> = Vec::new();
    attributes.push(VertexAttribute { offset: 0, shader_location: 0, components: 3 });
    attributes.push(VertexAttribute { offset: 12, shader_location: 1, components: 2 });
    attributes.push(VertexAttribute { offset: 20, shader_location: 2, components: 3 });
    let r = VertexLayout { array_stride: VERTEX_COMPONENTS as u64 * COMPONENT_SIZE, attributes };
    assert(r.attributes@ =~= seq![
        VertexAttribute { offset: 0, shader_location: 0, components: 3 },
        VertexAttribute { offset: 12, shader_location: 1, components: 2 },
        VertexAttribute { offset: 20, shader_location: 2, components: 3 },
    ]);
    r
}

/// The components of vertex `i`: its position, texture coordinates and normal.
pub open spec fn vertex_components<T>(
    positions: Seq<T>,
    texcoords: Seq<T>,
    normals: Seq<T>,
    i: int,
) -> Seq<T> {
    seq![
        positions[3 * i],
        positions[3 * i + 1],
        positions[3 * i + 2],
        texcoords[2 * i],
        texcoords[2 * i + 1],
        normals[3 * i],
        normals[3 * i + 1],
        normals[3 * i + 2],
    ]
}

/// The interleaved components of the first `count` vertices.
pub open spec fn interleaved<T>(
    positions: Seq<T>,
    texcoords: Seq<T>,
    normals: Seq<T>,
    count: int,
) -> Seq<T> {
    Seq::new(count as nat, |i: int| vertex_components(positions, texcoords, normals, i)).flatten()
}

/// Whether the attribute arrays hold texture coordinates and normals for
/// every whole position.
pub open spec fn attributes_complete<T>(positions: Seq<T>, texcoords: Seq<T>, normals: Seq<T>) -> bool {
    &&& texcoords.len() >= 2 * (positions.len() / 3)
    &&& normals.len() >= 3 * (positions.len() / 3)
}

/// Interleaves separate position (3 per vertex), texture-coordinate (2 per
/// vertex) and normal (3 per vertex) arrays into one vertex array of
/// VERTEX_COMPONENTS values per vertex. There is one vertex per whole
/// position. `None` when the texture coordinates or normals run short.
pub fn assemble_vertices<T: Copy>(positions: &Vec<T>, texcoords: &Vec<T>, normals: &Vec<T>) -> (r:
    Option<Vec<T>>)
    ensures
        r is Some <==> attributes_complete(positions@, texcoords@, normals@),
        r is Some ==> r->Some_0@ == interleaved(
            positions@,
            texcoords@,
            normals@,
            positions@.len() as int / 3,
        ),
{
    let count = positions.len() / 3;
    if texcoords.len() / 2 < count || normals.len() / 3 < count {
        return None;
    }
    let mut v: Vec<T> = Vec::new();
    let mut i: usize = 0;
    while i < count
        invariant
            count == positions@.len() / 3,
            3 * count <= positions@.len() <= usize::MAX,
            texcoords@.len() <= usize::MAX,
            normals@.len() <= usize::MAX,
            texcoords@.len() >= 2 * count,
            normals@.len() >= 3 * count,
            i <= count,
            v@ == interleaved(positions@, texcoords@, normals@, i as int),
        decreases count - i,
    {
        v.push(positions[3 * i]);
        v.push(positions[3 * i + 1]);
        v.push(positions[3 * i + 2]);
        v.push(texcoords[2 * i]);
        v.push(texcoords[2 * i + 1]);
        v.push(normals[3 * i]);
        v.push(normals[3 * i + 1]);
        v.push(normals[3 * i + 2]);
        proof {
            let f = |j: int| vertex_components(positions@, texcoords@, normals@, j);
            assert(Seq::new((i + 1) as nat, f) =~= Seq::new(i as nat, f).push(f(i as int)));
            Seq::new(i as nat, f).lemma_flatten_push(f(i as int));
            assert(v@ =~= interleaved(positions@, texcoords@, normals@, i + 1));
        }
        i = i + 1;
    }
    Some(v)
}

} // verus!
