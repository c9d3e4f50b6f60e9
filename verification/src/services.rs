//! Interface contracts of the collaborators the orchestrator drives: the
//! repository gateway, the local source operations, the ecosystem assigner,
//! the facet generators and the output catalog.  The orchestrator is
//! verified against these contracts alone, so it works with any
//! implementation that honours them — including in-memory test doubles.

use vstd::prelude::*;

use crate::facet::{FacetCreateParams, FacetSetCreateParams, InitializedFacet};
use crate::model::{EcosystemInitializeParams, InitializedEcosystem, InitializedRepo,
    InitializedRepoGetParams, InitializedSource, ProjectOutput, ProjectOutputReference,
    RepoCreateParams, SkootError, SourceInitializeParams, spec_ecosystem_of, spec_join_path,
    spec_repo_of_create};
use crate::project::{ProjectOutputGetParams, ProjectOutputsListParams};

verus! {

/// Creates, looks up, reads and archives remote repositories.
pub trait RepoService {
    /// Creates the remote repository the parameters describe.  On success
    /// the repository carries exactly the requested name and owner.
    fn initialize(&self, params: RepoCreateParams) -> (r: Result<InitializedRepo, SkootError>)
        ensures
            r matches Ok(repo) ==> repo@ == spec_repo_of_create(params@),
    ;

    /// Clones the repository into `path/<repo name>`.
    fn clone_local(&self, initialized_repo: InitializedRepo, path: String) -> (r: Result<
        InitializedSource,
        SkootError,
    >)
        ensures
            r matches Ok(src) ==> src@.path == spec_join_path(path@, initialized_repo@.name()),
    ;

    /// Clones the repository into `path/<repo name>`, or pulls the latest
    /// changes when the clone already exists.
    fn clone_local_or_pull(&self, initialized_repo: InitializedRepo, path: String) -> (r: Result<
        InitializedSource,
        SkootError,
    >)
        ensures
            r matches Ok(src) ==> src@.path == spec_join_path(path@, initialized_repo@.name()),
    ;

    /// Looks a repository up by its URL.  What the remote returns is the
    /// remote's business; nothing is promised beyond success or failure.
    fn get(&self, params: InitializedRepoGetParams) -> (r: Result<InitializedRepo, SkootError>);

    /// Fetches one file's text from the repository's default branch, failing
    /// when the path does not exist there.
    fn fetch_file_content(&self, initialized_repo: &InitializedRepo, path: &str) -> (r: Result<
        String,
        SkootError,
    >);

    /// Archives the repository and reports its final address.
    fn archive(&self, initialized_repo: InitializedRepo) -> (r: Result<String, SkootError>)
        ensures
            r matches Ok(url) ==> url@ == initialized_repo@.full_url(),
    ;
}

/// Assigns the ecosystem identity of a checked-out source tree.
pub trait EcosystemService {
    /// Returns the identity the parameters request, validated against the
    /// source; a failure reports invalid identity fields.
    fn initialize(&self, params: EcosystemInitializeParams, source: InitializedSource) -> (r:
        Result<InitializedEcosystem, SkootError>)
        ensures
            r matches Ok(e) ==> e@ == spec_ecosystem_of(params@),
    ;
}

/// Local working-copy operations.
pub trait SourceService {
    /// Checks the repository out under `parent_path/<repo name>`.
    fn initialize(&self, params: SourceInitializeParams, initialized_repo: InitializedRepo) -> (r:
        Result<InitializedSource, SkootError>)
        ensures
            r matches Ok(src) ==> src@.path == spec_join_path(
                params@.parent_path,
                initialized_repo@.name(),
            ),
    ;

    /// Commits every pending change of the working copy and pushes the
    /// commit to the remote.
    fn commit_and_push_changes(&self, source: InitializedSource, message: String) -> (r: Result<
        (),
        SkootError,
    >);

    /// Writes one file under `path/name` inside the working copy.
    fn write_file(&self, source: InitializedSource, path: &str, name: String, contents: &[u8]) -> (
    r: Result<(), SkootError>);

    /// Reads one file under `path/name` from the working copy.
    fn read_file(&self, source: &InitializedSource, path: &str, name: String) -> (r: Result<
        String,
        SkootError,
    >);

    /// Digests one file under `path/name` of the working copy.
    fn hash_file(&self, source: &InitializedSource, path: &str, name: String) -> (r: Result<
        String,
        SkootError,
    >);

    /// Pulls the latest remote changes into the working copy.
    fn pull_updates(&self, source: InitializedSource) -> (r: Result<(), SkootError>);
}

/// Generates facets.  What a generated facet contains is the generator's
/// business; every generator yields a well-formed facet of the requested
/// category.
pub trait RootFacetService {
    /// Generates one facet.
    fn initialize(&self, params: FacetCreateParams) -> (r: Result<InitializedFacet, SkootError>)
        ensures
            r matches Ok(f) ==> f@.wf() && f@.category() == params@.category(),
    ;

    /// Generates one facet per parameter set, in list order, failing as a
    /// whole as soon as one generation fails.
    fn initialize_all(&self, params: FacetSetCreateParams) -> (r: Result<
        Vec<InitializedFacet>,
        SkootError,
    >)
        ensures
            r matches Ok(fs) ==> fs@.len() == params@.facets_params.len() && forall|i: int|
                0 <= i < fs@.len() ==> (#[trigger] fs@[i])@.wf() && fs@[i]@.category()
                    == params@.facets_params[i].category(),
    ;
}

/// Lists and fetches already-produced build outputs of a project.  The
/// catalog's contents are external state; nothing is promised about them.
pub trait OutputService {
    /// Lists the outputs recorded for the project.
    fn list(&self, params: ProjectOutputsListParams) -> (r: Result<
        Vec<ProjectOutputReference>,
        SkootError,
    >);

    /// Fetches one recorded output with its payload.
    fn get(&self, params: ProjectOutputGetParams) -> (r: Result<ProjectOutput, SkootError>);
}

} // verus!
