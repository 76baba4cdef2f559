//! Typed-array marshalling: the one place where the interpreter's
//! dynamically-typed value model crosses into the host's strongly-typed
//! buffers. Each element of a dynamic array is cast to the target buffer's
//! element type; the first element of the wrong dynamic type fails the whole
//! conversion with a typed error, never a partial result.

use vstd::prelude::*;

verus! {

/// Wraps a signed 64-bit script integer to an unsigned 32-bit buffer entry
/// by truncation: the entry keeps the low 32 bits (two's complement).
pub open spec fn wrap_u32(i: i64) -> u32 {
    i as u32
}

/// What casting a dynamic value to a vector yields: `Some` exactly when the
/// value boxes a vector. Named, not stated: the cast's outcome depends on the
/// boxed value alone, and only the interpreter can compute it.
pub uninterp spec fn vec3_cast(d: rhai::Dynamic) -> Option<glam::Vec3>;

/// What reading a dynamic value as an integer yields: `Some` exactly when the
/// value boxes an integer.
pub uninterp spec fn int_cast(d: rhai::Dynamic) -> Option<i64>;

/// Every element of the sequence casts to a vector.
pub open spec fn all_vec3(s: Seq<rhai::Dynamic>) -> bool {
    forall|i: int| 0 <= i < s.len() ==> #[trigger] vec3_cast(s[i]) is Some
}

/// Every element of the sequence reads as an integer.
pub open spec fn all_int(s: Seq<rhai::Dynamic>) -> bool {
    forall|i: int| 0 <= i < s.len() ==> #[trigger] int_cast(s[i]) is Some
}

/// The sequence of vectors that a fully vector-typed dynamic array marshals
/// to, element by element in original order.
pub open spec fn vec3_seq(s: Seq<rhai::Dynamic>) -> Seq<glam::Vec3> {
    Seq::new(s.len(), |i: int| vec3_cast(s[i])->Some_0)
}

/// The sequence of unsigned 32-bit entries that a fully integer-typed dynamic
/// array marshals to: each element read as an integer, then wrapped.
pub open spec fn u32_seq(s: Seq<rhai::Dynamic>) -> Seq<u32> {
    Seq::new(s.len(), |i: int| wrap_u32(int_cast(s[i])->Some_0))
}

/// A marshalling failure: the element at `index` was not of the type the
/// target buffer requires. Surfaced to scripts as an evaluation failure.
#[derive(Debug, Clone, Copy, PartialEq, Eq, Structural)]
pub enum MarshalError {
    NotAVector { index: usize },
    NotAnInteger { index: usize },
}

impl MarshalError {
    /// A human-readable account of the failure, for the evaluation diagnostic.
    pub fn describe(&self) -> (r: &'static str)
        ensures
            *self matches MarshalError::NotAVector { .. } ==> r@ == "array element is not a vector"@,
            *self matches MarshalError::NotAnInteger { .. } ==> r@ == "array element is not an integer"@,
    {
        match self {
            MarshalError::NotAVector { .. } => "array element is not a vector",
            MarshalError::NotAnInteger { .. } => "array element is not an integer",
        }
    }
}

/// Relies on rhai::Dynamic::try_cast::<glam::Vec3>: `Some` exactly when the
/// boxed value is a vector; the outcome depends on the boxed value alone.
#[verifier::external_body]
fn dynamic_as_vec3(d: &rhai::Dynamic) -> (r: Option<glam::Vec3>)
    ensures
        r == vec3_cast(*d),
{
    d.clone().try_cast::<glam::Vec3>()
}

/// Relies on rhai::Dynamic::as_int: `Ok` exactly when the boxed value is an
/// integer; the outcome depends on the boxed value alone.
#[verifier::external_body]
fn dynamic_as_int(d: &rhai::Dynamic) -> (r: Option<i64>)
    ensures
        r == int_cast(*d),
{
    d.as_int().ok()
}

/// Marshals a dynamic array to a vector buffer: every element must box a
/// vector, and the result keeps the elements in original order. The first
/// element of another type fails the whole conversion.
pub fn array_to_vec(input: Vec<rhai::Dynamic>) -> (r: Result<Vec<glam::Vec3>, MarshalError>)
    ensures
        match r {
            Ok(v) => all_vec3(input@) && v@ == vec3_seq(input@),
            Err(e) => {
                &&& !all_vec3(input@)
                &&& e matches MarshalError::NotAVector { index } && {
                    &&& index < input@.len()
                    &&& vec3_cast(input@[index as int]) is None
                    &&& forall|j: int|
                        0 <= j < index ==> #[trigger] vec3_cast(input@[j]) is Some
                }
            },
        },
{
    let mut out: Vec<glam::Vec3> = Vec::new();
    let mut k: usize = 0;
    while k < input.len()
        invariant
            k <= input@.len(),
            out@.len() == k,
            forall|j: int| 0 <= j < k ==> #[trigger] vec3_cast(input@[j]) is Some,
            forall|j: int| 0 <= j < k ==> out@[j] == vec3_cast(input@[j])->Some_0,
        decreases input@.len() - k,
    {
        match dynamic_as_vec3(&input[k]) {
            Some(v) => {
                out.push(v);
            },
            None => {
                return Err(MarshalError::NotAVector { index: k });
            },
        }
        k = k + 1;
    }
    assert(out@ =~= vec3_seq(input@));
    Ok(out)
}

/// Marshals a dynamic array to an index buffer: every element must box an
/// integer, and each entry is the element's value wrapped to 32 bits, in
/// original order. The first element of another type fails the whole
/// conversion.
pub fn array_to_vec_u32(input: Vec<rhai::Dynamic>) -> (r: Result<Vec<u32>, MarshalError>)
    ensures
        match r {
            Ok(v) => all_int(input@) && v@ == u32_seq(input@),
            Err(e) => {
                &&& !all_int(input@)
                &&& e matches MarshalError::NotAnInteger { index } && {
                    &&& index < input@.len()
                    &&& int_cast(input@[index as int]) is None
                    &&& forall|j: int|
                        0 <= j < index ==> #[trigger] int_cast(input@[j]) is Some
                }
            },
        },
{
    let mut out: Vec<u32> = Vec::new();
    let mut k: usize = 0;
    while k < input.len()
        invariant
            k <= input@.len(),
            out@.len() == k,
            forall|j: int| 0 <= j < k ==> #[trigger] int_cast(input@[j]) is Some,
            forall|j: int| 0 <= j < k ==> out@[j] == wrap_u32(int_cast(input@[j])->Some_0),
        decreases input@.len() - k,
    {
        match dynamic_as_int(&input[k]) {
            Some(i) => {
                out.push(
                    #[verifier::truncate]
                    (i as u32),
                );
            },
            None => {
                return Err(MarshalError::NotAnInteger { index: k });
            },
        }
        k = k + 1;
    }
    assert(out@ =~= u32_seq(input@));
    Ok(out)
}

} // verus!
