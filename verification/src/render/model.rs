use vstd::prelude::*;

use crate::render::mesh::copy_vec;
use crate::render::vertex::Vertex;

verus! {

/// A named triangle model: its vertices and the indices of its triangles.
pub struct Model {
    pub name: String,
    pub vertices: Vec<Vertex>,
    pub indices: Vec<u32>,
}

impl Model {
    /// A model of copies of the given vertices and indices.
    pub fn new(name: &str, vertices: &[Vertex], indices: &[u32]) -> (m: Model)
        ensures
            m.name@ == name@,
            m.vertices@ == vertices@,
            m.indices@ == indices@,
    {
        Model { name: name.to_owned(), vertices: copy_vec(vertices), indices: copy_vec(indices) }
    }
}

} // verus!
