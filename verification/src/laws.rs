//! Laws that relate the mesh operations to one another, stated over the same
//! predicates the operations' own contracts use.

use vstd::prelude::*;

use crate::mesh::gets_positions;
use crate::mesh::inserts_index;
use crate::mesh::inserts_index_set;
use crate::mesh::inserts_position;
use crate::mesh::sets_positions;
use crate::mesh::ScriptedMesh;

verus! {

/// The position buffer after one `insert_position` call per element of `vs`,
/// in order, starting from `init`. Each step is the buffer change that one
/// call's contract (`inserts_position`) states.
pub open spec fn after_position_inserts(
    init: Seq<glam::Vec3>,
    vs: Seq<glam::Vec3>,
) -> Seq<glam::Vec3>
    decreases vs.len(),
{
    if vs.len() == 0 {
        init
    } else {
        after_position_inserts(init, vs.drop_last()).push(vs.last())
    }
}

/// One more `insert_position` call is one more step of
/// `after_position_inserts`: a mesh whose position buffer stands after the
/// calls of `vs` moves, by the call's own contract, to the buffer after the
/// calls of `vs.push(v)`.
pub proof fn lemma_insert_position_step(
    init: Seq<glam::Vec3>,
    vs: Seq<glam::Vec3>,
    pre: ScriptedMesh,
    post: ScriptedMesh,
    v: glam::Vec3,
)
    requires
        inserts_position(pre, post, v),
        pre.positions@ == after_position_inserts(init, vs),
    ensures
        post.positions@ == after_position_inserts(init, vs.push(v)),
{
    assert(vs.push(v).drop_last() =~= vs);
}

/// Law: repeated `insert_position` calls preserve call order. After calls
/// with v1..vn, in that order, the position buffer holds exactly the prior
/// contents followed by v1..vn: no reordering and no deduplication.
pub proof fn lemma_insert_positions_in_order(init: Seq<glam::Vec3>, vs: Seq<glam::Vec3>)
    ensures
        after_position_inserts(init, vs) == init + vs,
    decreases vs.len(),
{
    if vs.len() == 0 {
        assert(after_position_inserts(init, vs) =~= init + vs);
    } else {
        lemma_insert_positions_in_order(init, vs.drop_last());
        assert(after_position_inserts(init, vs) =~= init + vs);
    }
}

/// Law: one `insert_index_set(a, b, c)` call changes a mesh exactly as the
/// call sequence `insert_index(a); insert_index(b); insert_index(c)` does.
pub proof fn lemma_insert_index_set_equivalence(
    m0: ScriptedMesh,
    m1: ScriptedMesh,
    m2: ScriptedMesh,
    m3: ScriptedMesh,
    n: ScriptedMesh,
    a: i64,
    b: i64,
    c: i64,
)
    requires
        inserts_index(m0, m1, a),
        inserts_index(m1, m2, b),
        inserts_index(m2, m3, c),
        inserts_index_set(m0, n, a, b, c),
    ensures
        n.positions@ == m3.positions@,
        n.indices@ == m3.indices@,
        n.normals@ == m3.normals@,
{
}

/// Law: `set_positions(get_positions())` is a no-op on buffer contents.
pub proof fn lemma_get_set_positions_round_trip(
    m0: ScriptedMesh,
    m1: ScriptedMesh,
    m2: ScriptedMesh,
    out: Seq<glam::Vec3>,
)
    requires
        gets_positions(m0, m1, out),
        sets_positions(m1, m2, out),
    ensures
        m2.positions@ == m0.positions@,
        m2.indices@ == m0.indices@,
        m2.normals@ == m0.normals@,
{
}

} // verus!
