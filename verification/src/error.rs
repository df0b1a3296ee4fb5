//! The ways in which an operation on the scene is turned down.

use vstd::prelude::*;

verus! {

/// An asset that cannot be loaded. The load is abandoned as a whole and
/// the scene stays as it was.
#[derive(Clone, Copy, Debug, PartialEq, Eq, Structural)]
pub enum FatalLoadError {
    /// The bytes are not a binary model container.
    MalformedContainer,
    /// The scene description in the container cannot be parsed or is not
    /// valid.
    InvalidScene,
    /// The container has no binary chunk.
    MissingBinaryChunk,
    /// A texture names an image outside the container.
    ExternalImage,
    /// A texture names bytes outside the binary chunk.
    ImageOutOfBounds,
    /// The bytes of a texture's image cannot be decoded.
    UndecodableImage,
    /// A primitive has no vertex positions.
    MissingPositions,
    /// An attribute or index accessor of a primitive cannot be read from
    /// the binary chunk as the kind of data it stands for.
    MalformedGeometry,
    /// The heightmap's grid does not have the size it states, or is too
    /// large to index with 32 bits.
    MalformedHeightmap,
}

/// An operation named an entity that the scene does not hold. The
/// operation did nothing.
#[derive(Clone, Copy, Debug, PartialEq, Eq, Structural)]
pub enum LookupError {
    /// No landscape has the given id.
    UnknownLandscape,
}

/// An operation was configured with a value that is not recognised. The
/// operation did nothing.
#[derive(Clone, Copy, Debug, PartialEq, Eq, Structural)]
pub enum ConfigurationError {
    /// The name is not that of a texture kind that can be attached.
    UnknownTextureKind,
}

} // verus!
