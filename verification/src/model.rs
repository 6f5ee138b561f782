//! Drawable-model structure.
//!
//! A model is an ordered list of meshes and an ordered list of materials;
//! every mesh refers to a material by index. The GPU-resident buffers,
//! textures and bind groups live with the graphics host; this module owns
//! the structure and its invariant: each mesh's material index addresses an
//! existing material, and a model that arrives without materials is given a
//! single fallback material.

use vstd::prelude::*;
use crate::terrain::build_terrain_geometry;
use crate::terrain::quad_count;
use crate::terrain::spec_terrain_indices;
use crate::terrain::spec_terrain_vertices;
use crate::terrain::TerrainGeometry;
use crate::world::World;
use crate::world::GRID_LIMIT;

verus! {

/// One texture binding slot.
pub struct Material {
    /// Material name, as authored.
    pub name: String,
}

/// One drawable primitive group: buffer sizes plus the material it binds.
pub struct Mesh {
    /// Mesh name, as authored.
    pub name: String,
    /// Number of vertices in the vertex buffer.
    pub num_vertices: u32,
    /// Number of indices in the index buffer.
    pub num_indices: u32,
    /// Which of the owning model's materials this mesh binds.
    pub material_index: usize,
}

/// A drawable object: meshes plus the materials they bind.
pub struct Model {
    /// Ordered primitive groups.
    pub meshes: Vec<Mesh>,
    /// Ordered texture bindings; never empty.
    pub materials: Vec<Material>,
}

/// One already-parsed external primitive, as the asset host hands it over.
pub struct PrimitiveRecord {
    /// Name of the mesh this primitive belongs to.
    pub name: String,
    /// Number of vertices the primitive carries.
    pub vertex_count: u32,
    /// Number of indices the primitive carries.
    pub index_count: u32,
    /// The material the primitive names, if any.
    pub material_index: Option<usize>,
}

/// How a structurally malformed external model is rejected.
#[derive(Clone, Copy, PartialEq, Eq, Structural, Debug)]
pub enum ModelError {
    /// A primitive names a material index beyond the material list.
    MaterialIndexOutOfRange,
}

/// The material a primitive resolves to: the one it names, or the first.
pub open spec fn resolved_material(rec: PrimitiveRecord) -> int {
    match rec.material_index {
        Some(i) => i as int,
        None => 0,
    }
}

impl Model {
    /// Every mesh's material index addresses one of the (at least one)
    /// materials.
    pub open spec fn wf(self) -> bool {
        &&& self.materials@.len() >= 1
        &&& forall|i: int|
            0 <= i < self.meshes@.len() ==> (#[trigger] self.meshes@[i]).material_index
                < self.materials@.len()
    }

    /// Triangulate a world's height field into a one-mesh, one-material
    /// model, returning the geometry alongside its description.
    pub fn from_heightmap(world: &World) -> (r: (Model, TerrainGeometry))
        requires
            world.wf(),
        ensures
            r.0.wf(),
            r.0.meshes@.len() == 1,
            r.0.materials@.len() == 1,
            r.0.meshes@[0].material_index == 0,
            r.0.meshes@[0].num_vertices == 4 * quad_count(*world),
            r.0.meshes@[0].num_indices == 6 * quad_count(*world),
            r.1.vertices@ == spec_terrain_vertices(*world, quad_count(*world)),
            r.1.indices@ == spec_terrain_indices(quad_count(*world)),
    {
        let geo = build_terrain_geometry(world);
        proof {
            assert(quad_count(*world) <= GRID_LIMIT * GRID_LIMIT) by (nonlinear_arith)
                requires
                    0 <= world.size - 1 <= GRID_LIMIT,
                    quad_count(*world) == (world.size - 1) * (world.size - 1),
            ;
        }
        let num_vertices: u32 = geo.vertices.len() as u32;
        let num_indices: u32 = geo.indices.len() as u32;
        let mesh = Mesh {
            name: "landscape".to_string(),
            num_vertices,
            num_indices,
            material_index: 0,
        };
        let material = Material { name: "stone".to_string() };
        let mut meshes: Vec<Mesh> = Vec::new();
        meshes.push(mesh);
        let mut materials: Vec<Material> = Vec::new();
        materials.push(material);
        (Model { meshes, materials }, geo)
    }

    /// Assemble a model from already-parsed external primitives and material
    /// names. A primitive without a material falls back to the first
    /// material; a model without materials is given one fallback material.
    /// A primitive naming a material beyond the list is rejected.
    pub fn from_primitives(records: Vec<PrimitiveRecord>, material_names: Vec<String>) -> (r:
        Result<Model, ModelError>)
        ensures
            match r {
                Ok(m) => {
                    &&& m.wf()
                    &&& m.materials@.len() == if material_names@.len() == 0 {
                        1int
                    } else {
                        material_names@.len() as int
                    }
                    &&& (forall|i: int|
                        0 <= i < material_names@.len() ==> (#[trigger] m.materials@[i]).name
                            == material_names@[i])
                    &&& m.meshes@.len() == records@.len()
                    &&& (forall|i: int|
                        0 <= i < records@.len() ==> {
                            let mesh = #[trigger] m.meshes@[i];
                            &&& mesh.name == records@[i].name
                            &&& mesh.num_vertices == records@[i].vertex_count
                            &&& mesh.num_indices == records@[i].index_count
                            &&& mesh.material_index == resolved_material(records@[i])
                        })
                    &&& (forall|i: int|
                        0 <= i < records@.len() ==> resolved_material(#[trigger] records@[i])
                            < m.materials@.len())
                },
                Err(e) => {
                    &&& e == ModelError::MaterialIndexOutOfRange
                    &&& exists|i: int|
                        0 <= i < records@.len() && resolved_material(#[trigger] records@[i])
                            >= (if material_names@.len() == 0 {
                            1int
                        } else {
                            material_names@.len() as int
                        })
                },
            },
    {
        let mut materials: Vec<Material> = Vec::new();
        let mut i: usize = 0;
        let names_len: usize = material_names.len();
        while i < names_len
            invariant
                i <= names_len,
                names_len == material_names@.len(),
                materials@.len() == i,
                forall|j: int|
                    0 <= j < i ==> (#[trigger] materials@[j]).name == material_names@[j],
            decreases names_len - i,
        {
            let name: String = material_names[i].clone();
            materials.push(Material { name });
            i = i + 1;
        }
        if materials.len() == 0 {
            materials.push(Material { name: "fallback_material".to_string() });
        }
        let material_count: usize = materials.len();
        let mut meshes: Vec<Mesh> = Vec::new();
        let mut k: usize = 0;
        let records_len: usize = records.len();
        while k < records_len
            invariant
                k <= records_len,
                records_len == records@.len(),
                meshes@.len() == k,
                material_count == materials@.len(),
                material_count == (if material_names@.len() == 0 {
                    1int
                } else {
                    material_names@.len() as int
                }),
                forall|j: int|
                    0 <= j < k ==> {
                        let mesh = #[trigger] meshes@[j];
                        &&& mesh.name == records@[j].name
                        &&& mesh.num_vertices == records@[j].vertex_count
                        &&& mesh.num_indices == records@[j].index_count
                        &&& mesh.material_index == resolved_material(records@[j])
                    },
                forall|j: int|
                    0 <= j < k ==> resolved_material(#[trigger] records@[j]) < material_count,
            decreases records_len - k,
        {
            let rec = &records[k];
            let resolved: usize = match rec.material_index {
                Some(idx) => idx,
                None => 0,
            };
            if resolved >= material_count {
                assert(resolved_material(records@[k as int]) >= material_count);
                return Err(ModelError::MaterialIndexOutOfRange);
            }
            meshes.push(
                Mesh {
                    name: rec.name.clone(),
                    num_vertices: rec.vertex_count,
                    num_indices: rec.index_count,
                    material_index: resolved,
                },
            );
            k = k + 1;
        }
        Ok(Model { meshes, materials })
    }
}

} // verus!
