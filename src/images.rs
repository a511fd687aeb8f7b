use vstd::prelude::*;

use crate::layout::{get_image_path, image_dir_spec};

verus! {

/// What removing a cached image comes to.
pub enum RemoveOutcome {
    /// No name was given: nothing is removed.
    NameMissing,
    /// The image is not in the cache: nothing is removed.
    NotFound,
    /// Remove this directory and all it holds.
    Remove(String),
}

/// The cache directories after a removal with this outcome.
pub open spec fn cache_after_remove(dirs: Set<Seq<char>>, outcome: RemoveOutcome) -> Set<Seq<char>> {
    match outcome {
        RemoveOutcome::Remove(d) => dirs.remove(d@),
        _ => dirs,
    }
}

/// Decides the removal of `image` from the cache, where its directory `exists` or not.
pub fn remove_image(image: &str, exists: bool) -> (r: RemoveOutcome)
    ensures
        image@.len() == 0 ==> r is NameMissing,
        image@.len() > 0 && !exists ==> r is NotFound,
        image@.len() > 0 && exists ==> (r matches RemoveOutcome::Remove(d) && d@ == image_dir_spec(image@)),
{
    if image.unicode_len() == 0 {
        RemoveOutcome::NameMissing
    } else if !exists {
        RemoveOutcome::NotFound
    } else {
        RemoveOutcome::Remove(get_image_path(image))
    }
}

/// Removing an image that is not in the cache reports it and leaves the cache as it was.
pub proof fn lemma_remove_missing_keeps_cache(dirs: Set<Seq<char>>, image: Seq<char>, outcome: RemoveOutcome)
    requires
        image.len() > 0,
        !dirs.contains(image_dir_spec(image)),
        outcome is NotFound,
    ensures
        cache_after_remove(dirs, outcome) == dirs,
{
}

} // verus!
