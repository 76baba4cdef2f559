use vstd::prelude::*;

verus! {

// The types of the embedded interpreter and of the vector library that the
// host code holds or passes around. Each is declared so that it may stand in
// signatures and fields; verified code treats every value of them as opaque.

/// glam's 3-component vector: the element type of the position and normal
/// buffers. Scripts construct these through the exposed `vec` function.
#[verifier::external_type_specification]
#[verifier::external_body]
pub struct ExVec3(glam::Vec3);

/// rhai's interpreter: compiles and evaluates scripts.
#[verifier::external_type_specification]
#[verifier::external_body]
pub struct ExEngine(rhai::Engine);

/// rhai's dynamically-typed boxed value, as produced for script array
/// elements.
#[verifier::external_type_specification]
#[verifier::external_body]
pub struct ExDynamic(rhai::Dynamic);

/// rhai's compiled program representation, produced by compilation and
/// consumed by evaluation.
#[verifier::external_type_specification]
#[verifier::external_body]
pub struct ExAst(rhai::AST);

/// rhai's compile diagnostic, carried inside a compile failure.
#[verifier::external_type_specification]
#[verifier::external_body]
pub struct ExParseError(rhai::ParseError);

/// rhai's evaluation diagnostic, carried inside an evaluation failure.
#[verifier::external_type_specification]
#[verifier::external_body]
pub struct ExEvalAltResult(rhai::EvalAltResult);

/// std's I/O error, carried inside a file-read failure.
#[verifier::external_type_specification]
#[verifier::external_body]
pub struct ExIoError(std::io::Error);

/// Relies on glam::Vec3's derived Clone on a Copy type: cloning returns the
/// same value.
pub assume_specification[ <glam::Vec3 as Clone>::clone ](v: &glam::Vec3) -> (res: glam::Vec3)
    ensures
        res == *v,
;

} // verus!
