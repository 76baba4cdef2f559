//! The mesh-builder entity: three growable buffers (vertex positions,
//! triangle indices, vertex normals) with the mutation and query operations a
//! script drives. Deliberately permissive: no operation cross-checks the
//! other buffers, indices are not required to reference existing positions,
//! and normals need not match the position count.

use vstd::prelude::*;

use crate::marshal::all_int;
use crate::marshal::all_vec3;
use crate::marshal::array_to_vec;
use crate::marshal::array_to_vec_u32;
use crate::marshal::int_cast;
use crate::marshal::u32_seq;
use crate::marshal::vec3_cast;
use crate::marshal::vec3_seq;
use crate::marshal::wrap_u32;
use crate::marshal::MarshalError;

verus! {

/// One procedurally built triangle mesh. Downstream, every three consecutive
/// entries of `indices` name one triangle's corners in `positions`, and
/// `normals` is conventionally parallel to `positions`; neither convention is
/// enforced here.
#[derive(Debug, Clone)]
pub struct ScriptedMesh {
    pub positions: Vec<glam::Vec3>,
    pub indices: Vec<u32>,
    pub normals: Vec<glam::Vec3>,
}

/// A removal was asked for an ordinal position outside the buffer. Surfaced
/// to scripts as an evaluation failure, never undefined buffer state.
#[derive(Debug, Clone, Copy, PartialEq, Eq, Structural)]
pub struct IndexOutOfBounds {
    pub index: i64,
    pub len: usize,
}

impl IndexOutOfBounds {
    /// A human-readable account of the failure, for the evaluation diagnostic.
    pub fn describe(&self) -> (r: &'static str)
        ensures
            r@ == "removal index out of bounds"@,
    {
        "removal index out of bounds"
    }
}

/// One `insert_position` call: appends `v` to the position buffer and leaves
/// the other buffers alone.
pub open spec fn inserts_position(pre: ScriptedMesh, post: ScriptedMesh, v: glam::Vec3) -> bool {
    &&& post.positions@ == pre.positions@.push(v)
    &&& post.indices@ == pre.indices@
    &&& post.normals@ == pre.normals@
}

/// One `insert_index` call: appends `i`, wrapped to 32 bits, to the index
/// buffer and leaves the other buffers alone.
pub open spec fn inserts_index(pre: ScriptedMesh, post: ScriptedMesh, i: i64) -> bool {
    &&& post.indices@ == pre.indices@.push(wrap_u32(i))
    &&& post.positions@ == pre.positions@
    &&& post.normals@ == pre.normals@
}

/// One `insert_index_set` call: appends one triangle's three corner indices
/// in order a, b, c and leaves the other buffers alone.
pub open spec fn inserts_index_set(
    pre: ScriptedMesh,
    post: ScriptedMesh,
    a: i64,
    b: i64,
    c: i64,
) -> bool {
    &&& post.indices@ == pre.indices@.push(wrap_u32(a)).push(wrap_u32(b)).push(wrap_u32(c))
    &&& post.positions@ == pre.positions@
    &&& post.normals@ == pre.normals@
}

/// One `get_positions` call: hands out a full copy of the position buffer
/// and changes nothing.
pub open spec fn gets_positions(pre: ScriptedMesh, post: ScriptedMesh, out: Seq<glam::Vec3>) -> bool {
    &&& out == pre.positions@
    &&& post.positions@ == pre.positions@
    &&& post.indices@ == pre.indices@
    &&& post.normals@ == pre.normals@
}

/// One `set_positions` call: replaces the position buffer wholesale and
/// leaves the other buffers alone.
pub open spec fn sets_positions(pre: ScriptedMesh, post: ScriptedMesh, s: Seq<glam::Vec3>) -> bool {
    &&& post.positions@ == s
    &&& post.indices@ == pre.indices@
    &&& post.normals@ == pre.normals@
}

impl ScriptedMesh {
    /// A fresh mesh: all three buffers empty.
    pub fn new() -> (m: Self)
        ensures
            m.positions@ == Seq::<glam::Vec3>::empty(),
            m.indices@ == Seq::<u32>::empty(),
            m.normals@ == Seq::<glam::Vec3>::empty(),
    {
        ScriptedMesh { positions: Vec::new(), indices: Vec::new(), normals: Vec::new() }
    }

    /// Appends one vertex position. No bounds or validity check.
    pub fn insert_position(&mut self, position: glam::Vec3)
        ensures
            inserts_position(*old(self), *final(self), position),
    {
        self.positions.push(position);
    }

    /// Appends one triangle corner index, wrapped to 32 bits: an out-of-range
    /// script integer keeps its low 32 bits rather than aborting.
    pub fn insert_index(&mut self, index: i64)
        ensures
            inserts_index(*old(self), *final(self), index),
    {
        self.indices.push(
            #[verifier::truncate]
            (index as u32),
        );
    }

    /// Appends one triangle's three corner indices in one call, exactly as
    /// three sequential `insert_index` calls in order a, b, c would.
    pub fn insert_index_set(&mut self, a: i64, b: i64, c: i64)
        ensures
            inserts_index_set(*old(self), *final(self), a, b, c),
    {
        self.indices.push(
            #[verifier::truncate]
            (a as u32),
        );
        self.indices.push(
            #[verifier::truncate]
            (b as u32),
        );
        self.indices.push(
            #[verifier::truncate]
            (c as u32),
        );
    }

    /// Appends one vertex normal. No bounds or validity check.
    pub fn insert_normal(&mut self, normal: glam::Vec3)
        ensures
            final(self).normals@ == old(self).normals@.push(normal),
            final(self).positions@ == old(self).positions@,
            final(self).indices@ == old(self).indices@,
    {
        self.normals.push(normal);
    }

    /// Bulk append to the position buffer: marshals every element of the
    /// dynamic array to a vector and appends them in original order, or
    /// fails on the first element of the wrong type, changing nothing.
    pub fn insert_positions(&mut self, new: Vec<rhai::Dynamic>) -> (r: Result<(), MarshalError>)
        ensures
            match r {
                Ok(_) => {
                    &&& all_vec3(new@)
                    &&& final(self).positions@ == old(self).positions@ + vec3_seq(new@)
                },
                Err(e) => {
                    &&& final(self).positions@ == old(self).positions@
                    &&& (e matches MarshalError::NotAVector { index } && {
                        &&& index < new@.len()
                        &&& vec3_cast(new@[index as int]) is None
                        &&& forall|j: int|
                            0 <= j < index ==> #[trigger] vec3_cast(new@[j]) is Some
                    })
                },
            },
            final(self).indices@ == old(self).indices@,
            final(self).normals@ == old(self).normals@,
    {
        let mut marshalled = match array_to_vec(new) {
            Ok(v) => v,
            Err(e) => {
                return Err(e);
            },
        };
        self.positions.append(&mut marshalled);
        Ok(())
    }

    /// Bulk append to the index buffer: marshals every element of the
    /// dynamic array to a wrapped 32-bit entry and appends them in original
    /// order, or fails on the first non-integer element, changing nothing.
    pub fn insert_indices(&mut self, new: Vec<rhai::Dynamic>) -> (r: Result<(), MarshalError>)
        ensures
            match r {
                Ok(_) => {
                    &&& all_int(new@)
                    &&& final(self).indices@ == old(self).indices@ + u32_seq(new@)
                },
                Err(e) => {
                    &&& final(self).indices@ == old(self).indices@
                    &&& (e matches MarshalError::NotAnInteger { index } && {
                        &&& index < new@.len()
                        &&& int_cast(new@[index as int]) is None
                        &&& forall|j: int|
                            0 <= j < index ==> #[trigger] int_cast(new@[j]) is Some
                    })
                },
            },
            final(self).positions@ == old(self).positions@,
            final(self).normals@ == old(self).normals@,
    {
        let mut marshalled = match array_to_vec_u32(new) {
            Ok(v) => v,
            Err(e) => {
                return Err(e);
            },
        };
        self.indices.append(&mut marshalled);
        Ok(())
    }

    /// Bulk append to the normal buffer, marshalled as `insert_positions`.
    pub fn insert_normals(&mut self, new: Vec<rhai::Dynamic>) -> (r: Result<(), MarshalError>)
        ensures
            match r {
                Ok(_) => {
                    &&& all_vec3(new@)
                    &&& final(self).normals@ == old(self).normals@ + vec3_seq(new@)
                },
                Err(e) => {
                    &&& final(self).normals@ == old(self).normals@
                    &&& (e matches MarshalError::NotAVector { index } && {
                        &&& index < new@.len()
                        &&& vec3_cast(new@[index as int]) is None
                        &&& forall|j: int|
                            0 <= j < index ==> #[trigger] vec3_cast(new@[j]) is Some
                    })
                },
            },
            final(self).positions@ == old(self).positions@,
            final(self).indices@ == old(self).indices@,
    {
        let mut marshalled = match array_to_vec(new) {
            Ok(v) => v,
            Err(e) => {
                return Err(e);
            },
        };
        self.normals.append(&mut marshalled);
        Ok(())
    }

    /// Truncates the position buffer to empty; no effect on the others.
    pub fn clear_positions(&mut self)
        ensures
            final(self).positions@ == Seq::<glam::Vec3>::empty(),
            final(self).indices@ == old(self).indices@,
            final(self).normals@ == old(self).normals@,
    {
        self.positions.clear();
    }

    /// Truncates the index buffer to empty; no effect on the others.
    pub fn clear_indices(&mut self)
        ensures
            final(self).indices@ == Seq::<u32>::empty(),
            final(self).positions@ == old(self).positions@,
            final(self).normals@ == old(self).normals@,
    {
        self.indices.clear();
    }

    /// Truncates the normal buffer to empty; no effect on the others.
    pub fn clear_normals(&mut self)
        ensures
            final(self).normals@ == Seq::<glam::Vec3>::empty(),
            final(self).positions@ == old(self).positions@,
            final(self).indices@ == old(self).indices@,
    {
        self.normals.clear();
    }

    /// Removes and returns the position at ordinal `index`, shifting later
    /// elements down by one; an index outside the buffer fails and changes
    /// nothing.
    pub fn remove_positions(&mut self, index: i64) -> (r: Result<glam::Vec3, IndexOutOfBounds>)
        ensures
            0 <= index < old(self).positions@.len() ==> {
                &&& r matches Ok(v) && v == old(self).positions@[index as int]
                &&& final(self).positions@ == old(self).positions@.remove(index as int)
            },
            !(0 <= index < old(self).positions@.len()) ==> {
                &&& r matches Err(e) && e == (IndexOutOfBounds {
                    index,
                    len: old(self).positions.len(),
                })
                &&& final(self).positions@ == old(self).positions@
            },
            final(self).indices@ == old(self).indices@,
            final(self).normals@ == old(self).normals@,
    {
        if index < 0 || index as u64 >= self.positions.len() as u64 {
            return Err(IndexOutOfBounds { index, len: self.positions.len() });
        }
        Ok(self.positions.remove(index as usize))
    }

    /// Removes and returns the index-buffer entry at ordinal `index`; an
    /// index outside the buffer fails and changes nothing.
    pub fn remove_index(&mut self, index: i64) -> (r: Result<u32, IndexOutOfBounds>)
        ensures
            0 <= index < old(self).indices@.len() ==> {
                &&& r matches Ok(v) && v == old(self).indices@[index as int]
                &&& final(self).indices@ == old(self).indices@.remove(index as int)
            },
            !(0 <= index < old(self).indices@.len()) ==> {
                &&& r matches Err(e) && e == (IndexOutOfBounds {
                    index,
                    len: old(self).indices.len(),
                })
                &&& final(self).indices@ == old(self).indices@
            },
            final(self).positions@ == old(self).positions@,
            final(self).normals@ == old(self).normals@,
    {
        if index < 0 || index as u64 >= self.indices.len() as u64 {
            return Err(IndexOutOfBounds { index, len: self.indices.len() });
        }
        Ok(self.indices.remove(index as usize))
    }

    /// Removes and returns the normal at ordinal `index`; an index outside
    /// the buffer fails and changes nothing.
    pub fn remove_normal(&mut self, index: i64) -> (r: Result<glam::Vec3, IndexOutOfBounds>)
        ensures
            0 <= index < old(self).normals@.len() ==> {
                &&& r matches Ok(v) && v == old(self).normals@[index as int]
                &&& final(self).normals@ == old(self).normals@.remove(index as int)
            },
            !(0 <= index < old(self).normals@.len()) ==> {
                &&& r matches Err(e) && e == (IndexOutOfBounds {
                    index,
                    len: old(self).normals.len(),
                })
                &&& final(self).normals@ == old(self).normals@
            },
            final(self).positions@ == old(self).positions@,
            final(self).indices@ == old(self).indices@,
    {
        if index < 0 || index as u64 >= self.normals.len() as u64 {
            return Err(IndexOutOfBounds { index, len: self.normals.len() });
        }
        Ok(self.normals.remove(index as usize))
    }

    /// Returns a copy of the position buffer in full; changes nothing.
    pub fn get_positions(&mut self) -> (r: Vec<glam::Vec3>)
        ensures
            gets_positions(*old(self), *final(self), r@),
    {
        let r = self.positions.clone();
        assert(r@ =~= self.positions@);
        r
    }

    /// Returns a copy of the index buffer in full; changes nothing.
    pub fn get_indices(&mut self) -> (r: Vec<u32>)
        ensures
            r@ == old(self).indices@,
            final(self).positions@ == old(self).positions@,
            final(self).indices@ == old(self).indices@,
            final(self).normals@ == old(self).normals@,
    {
        let r = self.indices.clone();
        assert(r@ =~= self.indices@);
        r
    }

    /// Returns a copy of the normal buffer in full; changes nothing.
    pub fn get_normals(&mut self) -> (r: Vec<glam::Vec3>)
        ensures
            r@ == old(self).normals@,
            final(self).positions@ == old(self).positions@,
            final(self).indices@ == old(self).indices@,
            final(self).normals@ == old(self).normals@,
    {
        let r = self.normals.clone();
        assert(r@ =~= self.normals@);
        r
    }

    /// Replaces the position buffer wholesale.
    pub fn set_positions(&mut self, new: Vec<glam::Vec3>)
        ensures
            sets_positions(*old(self), *final(self), new@),
    {
        self.positions = new;
    }

    /// Replaces the index buffer wholesale.
    pub fn set_indices(&mut self, new: Vec<u32>)
        ensures
            final(self).indices@ == new@,
            final(self).positions@ == old(self).positions@,
            final(self).normals@ == old(self).normals@,
    {
        self.indices = new;
    }

    /// Replaces the normal buffer wholesale.
    pub fn set_normals(&mut self, new: Vec<glam::Vec3>)
        ensures
            final(self).normals@ == new@,
            final(self).positions@ == old(self).positions@,
            final(self).indices@ == old(self).indices@,
    {
        self.normals = new;
    }

    /// The print hook: an empty string by design choice, not a
    /// serialization; changes nothing.
    pub fn to_string(&mut self) -> (r: String)
        ensures
            r@ == Seq::<char>::empty(),
            final(self).positions@ == old(self).positions@,
            final(self).indices@ == old(self).indices@,
            final(self).normals@ == old(self).normals@,
    {
        String::new()
    }

    /// The debug hook: a full field dump. Relies on the derived Debug
    /// formatting of the buffers; tooling convenience only, with no
    /// functional contract beyond leaving the mesh as it was.
    #[verifier::external_body]
    pub fn to_debug(&mut self) -> (r: String)
        ensures
            final(self).positions@ == old(self).positions@,
            final(self).indices@ == old(self).indices@,
            final(self).normals@ == old(self).normals@,
    {
        format!("{:?}", self)
    }
}

} // verus!
