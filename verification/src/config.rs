//! The entry of a fetch: the arguments of the command, and what the
//! configuration says of the repository they name.

use crate::error::{FetchError, FetchErrorView};
use crate::pipeline::{Action, ActionView, Fetch, FetchView};
use vstd::prelude::*;

verus! {

/// The arguments of the command that fetches a variant's image.
#[derive(Debug, PartialEq, Eq)]
pub struct FetchVariantArgs {
    /// The name of the repository in the configuration.
    pub repo: String,
    /// The architecture of the variant.
    pub arch: String,
    /// The variant.
    pub variant: String,
    /// The path of the root of trust for the repository.
    pub root_role_path: String,
    /// The directory in which the image is stored.
    pub outdir: String,
    /// The name of the image, without extension.
    pub buildsys_name_friendly: String,
}

/// What the configuration holds for the repository, the variant and the
/// architecture that the arguments name.
#[derive(Debug, PartialEq, Eq)]
pub enum RepoLookup {
    /// The configuration has no section on repositories.
    NoRepoSection,
    /// The section does not define the repository.
    NoDefinition,
    /// The repository is defined, but not both of its URLs.
    NoUrls,
    /// The repository's URLs for the variant and the architecture.
    Urls { metadata_url: String, targets_url: String },
}

/// What the configuration lacks when the lookup for `repo` gives no URLs.
pub open spec fn missing_part(repo: Seq<char>, lookup: RepoLookup) -> Seq<char> {
    match lookup {
        RepoLookup::NoRepoSection => "repo section"@,
        RepoLookup::NoDefinition => "definition for repo "@ + repo,
        _ => "URLs for repo "@ + repo,
    }
}

/// Begins the fetch that the arguments ask for.
///
/// Where the configuration gives the repository's URLs, the fetch begins and
/// its first action is to load the repository. Where it does not, nothing
/// begins: the failure is `ConfigMissing`, and says what is missing.
pub fn run(args: &FetchVariantArgs, lookup: RepoLookup) -> (begun: Result<(Fetch, Action), FetchError>)
    ensures
        match lookup {
            RepoLookup::Urls { metadata_url, targets_url } => {
                &&& begun matches Ok((fetch, action))
                &&& fetch.wf()
                &&& fetch@.inv()
                &&& fetch@ == FetchView::initial(
                    args.root_role_path@,
                    metadata_url@,
                    targets_url@,
                    args.outdir@,
                    args.buildsys_name_friendly@,
                )
                &&& action@ == (ActionView::LoadRepository {
                    root_role_path: args.root_role_path@,
                    metadata_url: metadata_url@,
                    targets_url: targets_url@,
                })
            },
            _ => begun matches Err(error) && error@ == (FetchErrorView::ConfigMissing {
                missing: missing_part(args.repo@, lookup),
            }),
        },
{
    match lookup {
        RepoLookup::Urls { metadata_url, targets_url } => Ok(
            Fetch::new(
                args.root_role_path.as_str(),
                metadata_url.as_str(),
                targets_url.as_str(),
                args.outdir.as_str(),
                args.buildsys_name_friendly.as_str(),
            ),
        ),
        RepoLookup::NoRepoSection => Err(
            FetchError::ConfigMissing { missing: String::from_str("repo section") },
        ),
        RepoLookup::NoDefinition => Err(
            FetchError::ConfigMissing {
                missing: String::from_str("definition for repo ").concat(args.repo.as_str()),
            },
        ),
        RepoLookup::NoUrls => Err(
            FetchError::ConfigMissing {
                missing: String::from_str("URLs for repo ").concat(args.repo.as_str()),
            },
        ),
    }
}

} // verus!
