//! The export pipeline: a document is validated first, and its scene is built
//! only when validation succeeds.

use crate::builder::{build_scene, scene_model};
use crate::models::{DocumentView, SpaceJSON};
use crate::scene::{scene_well_formed, Scene};
use crate::validation::{
    validate_space_json, validation_outcome, ValidationError, ValidationErrorView, MAX_BLOCKS,
    SUPPORTED_SCHEMA_VERSION,
};
use vstd::prelude::*;

verus! {

/// Validates a document and, only when it is accepted, builds its scene;
/// otherwise returns the first validation error.
pub fn validated_scene(space_json: &SpaceJSON) -> (r: Result<Scene, ValidationError>)
    ensures
        r is Ok <==> validation_outcome(space_json@) is Ok,
        r matches Ok(s) ==> s@ == scene_model(space_json@) && scene_well_formed(s@),
        r matches Err(e) ==> validation_outcome(space_json@) == Err::<(), ValidationErrorView>(e@),
{
    match validate_space_json(space_json) {
        Ok(()) => Ok(build_scene(space_json)),
        Err(e) => Err(e),
    }
}

/// A document of the supported schema version with more than [`MAX_BLOCKS`]
/// blocks fails validation with a block-count error, so no scene is built for
/// it. (The schema version is checked first: with another version that error
/// is reported instead.)
pub proof fn lemma_too_many_blocks_rejected(d: DocumentView)
    requires
        d.schema_version == SUPPORTED_SCHEMA_VERSION,
        d.blocks.len() > MAX_BLOCKS,
    ensures
        validation_outcome(d) == Err::<(), ValidationErrorView>(
            ValidationErrorView::BlockCountExceeded { count: d.blocks.len() as usize, limit: MAX_BLOCKS },
        ),
{
}

} // verus!
