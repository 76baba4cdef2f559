//! Script-driven mesh construction: a native mesh-builder entity exposed
//! into an embedded scripting sandbox, a script loading pipeline around it,
//! and the typed-array marshalling between the two value models.

mod bindings;
mod engine;
mod laws;
mod marshal;
mod mesh;

pub use engine::ScriptedMeshEngine;
pub use engine::ScriptedMeshLoadError;
pub use laws::after_position_inserts;
pub use laws::lemma_get_set_positions_round_trip;
pub use laws::lemma_insert_index_set_equivalence;
pub use laws::lemma_insert_position_step;
pub use laws::lemma_insert_positions_in_order;
pub use marshal::all_int;
pub use marshal::all_vec3;
pub use marshal::array_to_vec;
pub use marshal::array_to_vec_u32;
pub use marshal::int_cast;
pub use marshal::u32_seq;
pub use marshal::vec3_cast;
pub use marshal::vec3_seq;
pub use marshal::wrap_u32;
pub use marshal::MarshalError;
pub use mesh::IndexOutOfBounds;
pub use mesh::ScriptedMesh;
