//! Identity tokens for native rendering surfaces.
//!
//! A [`CanvasMetadata`] names a platform-owned surface by the integer identity
//! that the surface reports, without holding or owning the surface itself. It
//! is a plain `Copy` value, so it can be embedded in messages that cross thread
//! or process boundaries.
use vstd::prelude::*;

verus! {

/// An opaque, copyable handle to a native surface.
///
/// Two tokens are equal exactly when their `surface_id` fields are equal. The
/// token owns nothing: it stays meaningful only while the surface it was taken
/// from is alive and keeps that identity, which the token cannot detect.
#[derive(Copy, Clone, Debug, PartialEq, Eq, Structural)]
pub struct CanvasMetadata {
    pub surface_id: isize,
}

impl CanvasMetadata {
    /// The token for the surface whose provider currently reports
    /// `surface_id` as its identity.
    pub open spec fn spec_from_native_surface(surface_id: isize) -> CanvasMetadata {
        CanvasMetadata { surface_id }
    }

    /// Builds the token from the identity a live native surface reports.
    ///
    /// Reading the identity is the caller's part; this never fails and keeps
    /// no reference to the surface.
    pub fn from_native_surface(surface_id: isize) -> (r: CanvasMetadata)
        ensures
            r.surface_id == surface_id,
            r == Self::spec_from_native_surface(surface_id),
    {
        CanvasMetadata { surface_id }
    }
}

/// Copying a token keeps its identity, and giving one copy another identity
/// leaves the other copy as it was.
pub proof fn lemma_copy_is_independent(t: CanvasMetadata, new_id: isize)
    ensures
        ({
            let copy = t;
            copy.surface_id == t.surface_id && copy == t
        }),
        ({
            let copy = t;
            let changed = CanvasMetadata { surface_id: new_id, ..copy };
            changed.surface_id == new_id && t.surface_id == copy.surface_id
        }),
{
}

/// Two tokens taken from the same reported identity carry the same identity
/// and are equal.
pub proof fn lemma_same_surface_same_token(
    surface_id: isize,
    t1: CanvasMetadata,
    t2: CanvasMetadata,
)
    requires
        t1 == CanvasMetadata::spec_from_native_surface(surface_id),
        t2 == CanvasMetadata::spec_from_native_surface(surface_id),
    ensures
        t1.surface_id == t2.surface_id,
        t1 == t2,
{
}

/// Tokens taken from two surfaces that report distinct identities carry
/// distinct identities and are unequal.
pub proof fn lemma_distinct_surfaces_distinct_tokens(
    id1: isize,
    id2: isize,
    t1: CanvasMetadata,
    t2: CanvasMetadata,
)
    requires
        id1 != id2,
        t1 == CanvasMetadata::spec_from_native_surface(id1),
        t2 == CanvasMetadata::spec_from_native_surface(id2),
    ensures
        t1.surface_id != t2.surface_id,
        t1 != t2,
{
}

} // verus!
