//! Error kinds raised by the engine's components.

use vstd::prelude::*;

verus! {

/// The failures the engine can report. Most arise in the rendering
/// plumbing; `SingularMatrix` and `InexactInverse` are raised by the
/// matrix kernel's inversion.
#[derive(Clone, Copy, PartialEq, Eq, Structural, Debug)]
pub enum Error {
    WebGlError,
    UniformError,
    UnconstructedValue,
    MisingData,
    UnknownLocation,
    UnknownTextureNumber,
    MisingAsset,
    Unimplemented,
    Unknown,
    /// Inversion was asked of a matrix whose determinant is zero.
    SingularMatrix,
    /// The inverse exists but is not representable in exact cells.
    InexactInverse,
}

impl Error {
    /// The human-readable description of each error kind.
    pub open spec fn message_spec(&self) -> Seq<char> {
        match self {
            Error::WebGlError => "A WebGl Operation Failed."@,
            Error::UniformError => "An uniform could not be set."@,
            Error::UnconstructedValue => "Trying to use a raw, unconstructed value."@,
            Error::MisingData => "Trying to use a missing asset."@,
            Error::UnknownLocation => "Trying to bind an attribute or uniform of unknown location"@,
            Error::UnknownTextureNumber => "Trying to bind a texture uniform without a texture number"@,
            Error::MisingAsset => "Trying to use a missing asset."@,
            Error::Unimplemented => "Trying to use unimplemented feature."@,
            Error::Unknown => "An unknown error has occured."@,
            Error::SingularMatrix => "Given matrix is not invertible!"@,
            Error::InexactInverse => "The inverse is not representable in exact cells."@,
        }
    }

    /// Returns the human-readable description of this error.
    pub fn message(&self) -> (r: &'static str)
        ensures
            r@ == self.message_spec(),
    {
        match self {
            Error::WebGlError => "A WebGl Operation Failed.",
            Error::UniformError => "An uniform could not be set.",
            Error::UnconstructedValue => "Trying to use a raw, unconstructed value.",
            Error::MisingData => "Trying to use a missing asset.",
            Error::UnknownLocation => "Trying to bind an attribute or uniform of unknown location",
            Error::UnknownTextureNumber => "Trying to bind a texture uniform without a texture number",
            Error::MisingAsset => "Trying to use a missing asset.",
            Error::Unimplemented => "Trying to use unimplemented feature.",
            Error::Unknown => "An unknown error has occured.",
            Error::SingularMatrix => "Given matrix is not invertible!",
            Error::InexactInverse => "The inverse is not representable in exact cells.",
        }
    }
}

} // verus!
