//! The script runtime wrapper and the script loader. The wrapper owns one
//! interpreter and performs the one-time registration that makes the mesh
//! type, its operations, and the vector constructor callable by name from
//! script code. The loader compiles script text into a program and evaluates
//! it to exactly one mesh, surfacing every failure as a typed error.

use vstd::prelude::*;

use crate::mesh::ScriptedMesh;

verus! {

/// The closed set of load failures: a file read that failed before anything
/// was compiled, a compile failure before anything was evaluated, or an
/// evaluation failure. Each wraps the underlying diagnostic.
#[derive(Debug)]
pub enum ScriptedMeshLoadError {
    FileReadError(std::io::Error),
    CompileError(rhai::ParseError),
    EvalError(Box<rhai::EvalAltResult>),
}

/// The script runtime wrapper: one interpreter with the mesh API registered
/// once, at construction. Reusable for any number of load calls.
pub struct ScriptedMeshEngine {
    engine: rhai::Engine,
}

/// Relies on rhai::Engine::new, register_type_with_name and register_fn: a
/// fresh interpreter holding the mesh type under its script-visible name
/// "Mesh", the mesh constructor `new_mesh`, and the vector constructor `vec`
/// (glam::Vec3::new).
#[verifier::external_body]
fn new_registered_engine() -> (e: rhai::Engine) {
    let mut e = rhai::Engine::new();
    e.register_type_with_name::<ScriptedMesh>("Mesh");
    e.register_fn("new_mesh", ScriptedMesh::new);
    e.register_fn("vec", glam::Vec3::new);
    e
}

/// Relies on rhai::Engine::register_fn: the single-element insert and the
/// clear operations, each forwarding to the mesh method of the same name.
#[verifier::external_body]
fn register_edit_ops(e: &mut rhai::Engine) {
    e.register_fn("insert_position", ScriptedMesh::insert_position);
    e.register_fn("insert_index", ScriptedMesh::insert_index);
    e.register_fn("insert_index_set", ScriptedMesh::insert_index_set);
    e.register_fn("insert_normal", ScriptedMesh::insert_normal);
    e.register_fn("clear_positions", ScriptedMesh::clear_positions);
    e.register_fn("clear_indices", ScriptedMesh::clear_indices);
    e.register_fn("clear_normals", ScriptedMesh::clear_normals);
}

/// Relies on rhai::Engine::register_fn and rhai's From<&str> for the boxed
/// evaluation error: the bulk append operations; a marshalling failure is
/// surfaced to the script as an evaluation error.
#[verifier::external_body]
fn register_bulk_inserts(e: &mut rhai::Engine) {
    e.register_fn("insert_positions", |m: &mut ScriptedMesh, a: rhai::Array| {
        m.insert_positions(a).map_err(|er| Box::<rhai::EvalAltResult>::from(er.describe()))
    });
    e.register_fn("insert_indices", |m: &mut ScriptedMesh, a: rhai::Array| {
        m.insert_indices(a).map_err(|er| Box::<rhai::EvalAltResult>::from(er.describe()))
    });
    e.register_fn("insert_normals", |m: &mut ScriptedMesh, a: rhai::Array| {
        m.insert_normals(a).map_err(|er| Box::<rhai::EvalAltResult>::from(er.describe()))
    });
}

/// Relies on rhai::Engine::register_fn and rhai's From<&str> for the boxed
/// evaluation error: the removal operations; an out-of-bounds index is
/// surfaced to the script as an evaluation error.
#[verifier::external_body]
fn register_removals(e: &mut rhai::Engine) {
    e.register_fn("remove_positions", |m: &mut ScriptedMesh, i: i64| {
        m.remove_positions(i).map_err(|er| Box::<rhai::EvalAltResult>::from(er.describe()))
    });
    e.register_fn("remove_index", |m: &mut ScriptedMesh, i: i64| {
        m.remove_index(i).map_err(|er| Box::<rhai::EvalAltResult>::from(er.describe()))
    });
    e.register_fn("remove_normal", |m: &mut ScriptedMesh, i: i64| {
        m.remove_normal(i).map_err(|er| Box::<rhai::EvalAltResult>::from(er.describe()))
    });
}

/// Relies on rhai::Engine::register_get_set and register_fn: paired property
/// accessors for the three buffers, and the print and debug hooks under the
/// names the interpreter looks them up by.
#[verifier::external_body]
fn register_accessors(e: &mut rhai::Engine) {
    e.register_get_set("positions", ScriptedMesh::get_positions, ScriptedMesh::set_positions);
    e.register_get_set("indices", ScriptedMesh::get_indices, ScriptedMesh::set_indices);
    e.register_get_set("normals", ScriptedMesh::get_normals, ScriptedMesh::set_normals);
    e.register_fn("to_string", ScriptedMesh::to_string);
    e.register_fn("to_debug", ScriptedMesh::to_debug);
}

/// Relies on rhai::Engine::compile: parses script text into a reusable
/// program, or fails with the compile diagnostic; nothing is evaluated.
#[verifier::external_body]
fn compile_text(e: &rhai::Engine, text: &str) -> (r: Result<rhai::AST, rhai::ParseError>) {
    e.compile(text)
}

/// Relies on rhai::Engine::eval_ast::<ScriptedMesh>: runs the compiled
/// program in one synchronous pass and casts its result value to a mesh;
/// fails with the evaluation diagnostic on a script-level error, a failing
/// host call, or a result value that is not a mesh.
#[verifier::external_body]
fn eval_program(e: &rhai::Engine, ast: &rhai::AST) -> (r: Result<
    ScriptedMesh,
    Box<rhai::EvalAltResult>,
>) {
    e.eval_ast::<ScriptedMesh>(ast)
}

impl ScriptedMeshEngine {
    /// Builds the interpreter and performs the one-time registration of the
    /// mesh API. Construction does not fail, and independent wrappers may
    /// coexist: the registration is scoped to this instance.
    pub fn new() -> Self {
        let mut engine = new_registered_engine();
        register_edit_ops(&mut engine);
        register_bulk_inserts(&mut engine);
        register_removals(&mut engine);
        register_accessors(&mut engine);
        ScriptedMeshEngine { engine }
    }

    /// Compiles the script text, then evaluates it to one mesh. A failure is
    /// a compile failure (nothing was evaluated) or an evaluation failure,
    /// never a file-read failure: no file is involved here.
    pub fn from_text(&self, text: &str) -> (r: Result<ScriptedMesh, ScriptedMeshLoadError>)
        ensures
            r matches Err(e) ==> (e is CompileError || e is EvalError),
    {
        let ast = match compile_text(&self.engine, text) {
            Ok(a) => a,
            Err(p) => {
                return Err(ScriptedMeshLoadError::CompileError(p));
            },
        };
        match eval_program(&self.engine, &ast) {
            Ok(m) => Ok(m),
            Err(e) => Err(ScriptedMeshLoadError::EvalError(e)),
        }
    }

    /// The load outcome once a file read has happened: a failed read is a
    /// file-read failure wrapping that I/O error, and nothing is compiled or
    /// evaluated; the text of a successful read is loaded as `from_text`
    /// does, so a failure past the read is never a file-read failure.
    pub fn from_read(&self, read: Result<String, std::io::Error>) -> (r: Result<
        ScriptedMesh,
        ScriptedMeshLoadError,
    >)
        ensures
            read matches Err(io) ==> (r matches Err(e)
                && e matches ScriptedMeshLoadError::FileReadError(inner) && inner == io),
            read matches Ok(_) ==> (r matches Err(e) ==> (e is CompileError || e is EvalError)),
    {
        match read {
            Ok(text) => self.from_text(text.as_str()),
            Err(io) => Err(ScriptedMeshLoadError::FileReadError(io)),
        }
    }
}

} // verus!
