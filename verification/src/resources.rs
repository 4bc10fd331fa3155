//! What the renderer needs to know of a loaded model: how many indices each
//! mesh draws and which material it is drawn with.

use vstd::prelude::*;

verus! {

/// The file that a model is loaded from, by format.
#[derive(Clone, Copy, Debug)]
pub enum ModelFile<'a> {
    /// A Wavefront OBJ file.
    Obj(&'a str),
    /// A glTF file.
    Gltf(&'a str),
}

impl<'a> ModelFile<'a> {
    /// The name of the file.
    pub open spec fn spec_file_name(self) -> &'a str {
        match self {
            ModelFile::Obj(name) => name,
            ModelFile::Gltf(name) => name,
        }
    }

    /// The name of the file, whatever its format.
    pub fn file_name(&self) -> (name: &'a str)
        ensures
            name == self.spec_file_name(),
    {
        match self {
            ModelFile::Obj(name) => name,
            ModelFile::Gltf(name) => name,
        }
    }
}

/// One mesh of a model, as the frame sees it.
#[derive(Clone, Copy, Debug, PartialEq, Eq, Structural)]
pub struct Mesh {
    /// Number of indices that one draw of the mesh covers.
    pub num_elements: u32,
    /// Index of the material that the mesh is drawn with.
    pub material: usize,
}

/// A model: its meshes and the number of its materials.
#[derive(Clone, Debug, PartialEq, Eq)]
pub struct Model {
    pub meshes: Vec<Mesh>,
    pub material_count: usize,
}

/// Whether a list of meshes can be drawn with `material_count` materials:
/// there is a first mesh, and every mesh names a material that exists.
pub open spec fn drawable(meshes: Seq<Mesh>, material_count: usize) -> bool {
    &&& meshes.len() >= 1
    &&& forall|i: int| 0 <= i < meshes.len() ==> (#[trigger] meshes[i]).material < material_count
}

impl Model {
    /// Whether every pass of a frame can draw this model.
    pub open spec fn wf(&self) -> bool {
        drawable(self.meshes@, self.material_count)
    }

    /// Tells whether every pass of a frame can draw this model.
    pub fn is_drawable(&self) -> (b: bool)
        ensures
            b == self.wf(),
    {
        if self.meshes.len() == 0 {
            return false;
        }
        let mut i: usize = 0;
        while i < self.meshes.len()
            invariant
                i <= self.meshes.len(),
                forall|j: int|
                    0 <= j < i ==> (#[trigger] self.meshes@[j]).material < self.material_count,
            decreases self.meshes.len() - i,
        {
            if self.meshes[i].material >= self.material_count {
                return false;
            }
            i += 1;
        }
        true
    }

    /// Makes a model of the given meshes, if they can be drawn with
    /// `material_count` materials.
    pub fn new(meshes: Vec<Mesh>, material_count: usize) -> (model: Option<Model>)
        ensures
            model is Some <==> drawable(meshes@, material_count),
            model matches Some(m) ==> m.meshes@ == meshes@ && m.material_count == material_count,
    {
        let model = Model { meshes, material_count };
        if model.is_drawable() {
            Some(model)
        } else {
            None
        }
    }
}

} // verus!
