//! Artifact verification after a build.

use vstd::prelude::*;

use crate::errors::PipelineError;
use crate::probe::path_exists;

verus! {

/// The first index whose presence flag is false, checked in input order.
pub fn first_absent(present: &Vec<bool>) -> (r: Option<usize>)
    ensures
        match r {
            Option::Some(i) => i < present@.len() && !present@[i as int] && forall|j: int|
                0 <= j < i ==> present@[j],
            Option::None => forall|j: int| 0 <= j < present@.len() ==> present@[j],
        },
{
    let mut i: usize = 0;
    while i < present.len()
        invariant
            i <= present@.len(),
            forall|j: int| 0 <= j < i ==> present@[j],
        decreases present@.len() - i,
    {
        if !present[i] {
            return Some(i);
        }
        i += 1;
    }
    None
}

/// Check that every expected artifact exists under the repository path,
/// in input order, and fail fast with the first absent one.
///
/// Existence is probed on disk, so nothing relates the outcome of two
/// probes; what is guaranteed is that a reported failure names one of the
/// given artifacts.
pub fn verify_artifacts(artifacts: &Vec<String>, repo_path: &String) -> (r: Result<
    (),
    PipelineError,
>)
    ensures
        r matches Err(e) ==> exists|i: int|
            0 <= i < artifacts@.len() && e == PipelineError::ArtifactMissing(
                #[trigger] artifacts@[i],
            ),
{
    let mut present: Vec<bool> = Vec::new();
    let mut i: usize = 0;
    while i < artifacts.len()
        invariant
            i <= artifacts@.len(),
            present@.len() == i,
        decreases artifacts@.len() - i,
    {
        let mut full = repo_path.clone();
        full.append("/");
        full.append(artifacts[i].as_str());
        present.push(path_exists(full.as_str()));
        i += 1;
    }
    match first_absent(&present) {
        Option::Some(k) => Err(PipelineError::ArtifactMissing(artifacts[k].clone())),
        Option::None => Ok(()),
    }
}

} // verus!
