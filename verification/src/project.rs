//! The project aggregate and the orchestrator that drives its lifecycle:
//! repository creation, source checkout, ecosystem assignment and two waves
//! of facet generation, merged into one persisted project.

use vstd::prelude::*;

use crate::facet::{CommonFacetCreateParams, CommonFacetCreateParamsView, FacetCreateParams,
    FacetCreateParamsView, FacetEntryView, FacetMap, FacetMapKey, FacetSetCreateParams,
    InitializedFacet, InitializedFacetView, SourceBundleFacet, SourceBundleFacetView,
    SourceFile, SourceFileView, SourceBundleFacetCreateParams,
    SourceBundleFacetCreateParamsView, APIBundleFacetCreateParams,
    APIBundleFacetCreateParamsView, SupportedFacetType, entries_wf, key_seq, merge_facets,
    spec_lookup, spec_merge_lookup, lemma_merge_lookup_props, lemma_wf_entries_lookup};
use crate::manifest::decode_project;
use crate::model::{InitializedEcosystem, InitializedEcosystemView, InitializedRepo,
    InitializedRepoGetParams, InitializedRepoView, InitializedSource, InitializedSourceView,
    Label, LabelView, ProjectCreateParams, ProjectGetParams, ProjectGetParamsView, SkootError,
    spec_ecosystem_of, spec_join_path, spec_repo_of_create};
use crate::services::{EcosystemService, OutputService, RepoService, RootFacetService,
    SourceService};

verus! {

/// The project aggregate: the persisted manifest's in-memory form.  It owns
/// its repository, ecosystem identity, source checkout and facets by value.
#[derive(Debug)]
pub struct InitializedProject {
    pub repo: InitializedRepo,
    pub ecosystem: InitializedEcosystem,
    pub source: InitializedSource,
    pub facets: FacetMap,
    pub name: String,
}

#[verifier::ext_equal]
pub struct InitializedProjectView {
    pub repo: InitializedRepoView,
    pub ecosystem: InitializedEcosystemView,
    pub source: InitializedSourceView,
    pub facets: Seq<FacetEntryView>,
    pub name: Seq<char>,
}

impl InitializedProjectView {
    /// A project is well formed when no facet key repeats and every stored
    /// facet is itself well formed.
    pub open spec fn wf(self) -> bool {
        &&& entries_wf(self.facets)
        &&& forall|i: int| 0 <= i < self.facets.len() ==> (#[trigger] self.facets[i]).1.wf()
    }
}

impl View for InitializedProject {
    type V = InitializedProjectView;

    open spec fn view(&self) -> InitializedProjectView {
        InitializedProjectView {
            repo: self.repo@,
            ecosystem: self.ecosystem@,
            source: self.source@,
            facets: self.facets@,
            name: self.name@,
        }
    }
}

/// Parameters for fetching one facet of a project, with its content.
#[derive(Debug)]
pub struct FacetGetParams {
    pub project_get_params: ProjectGetParams,
    pub facet_map_key: FacetMapKey,
}

#[verifier::ext_equal]
pub struct FacetGetParamsView {
    pub project_get_params: ProjectGetParamsView,
    pub facet_map_key: FacetMapKey,
}

impl View for FacetGetParams {
    type V = FacetGetParamsView;

    open spec fn view(&self) -> FacetGetParamsView {
        FacetGetParamsView {
            project_get_params: self.project_get_params@,
            facet_map_key: self.facet_map_key,
        }
    }
}

/// Parameters for regenerating an existing project's facets.
#[derive(Debug)]
pub struct ProjectUpdateParams {
    pub initialized_project: InitializedProject,
}

#[verifier::ext_equal]
pub struct ProjectUpdateParamsView {
    pub initialized_project: InitializedProjectView,
}

impl View for ProjectUpdateParams {
    type V = ProjectUpdateParamsView;

    open spec fn view(&self) -> ProjectUpdateParamsView {
        ProjectUpdateParamsView { initialized_project: self.initialized_project@ }
    }
}

/// Parameters for archiving a project's repository.
#[derive(Debug)]
pub struct ProjectArchiveParams {
    pub initialized_project: InitializedProject,
}

#[verifier::ext_equal]
pub struct ProjectArchiveParamsView {
    pub initialized_project: InitializedProjectView,
}

impl View for ProjectArchiveParams {
    type V = ProjectArchiveParamsView;

    open spec fn view(&self) -> ProjectArchiveParamsView {
        ProjectArchiveParamsView { initialized_project: self.initialized_project@ }
    }
}

/// Parameters for listing a project's recorded outputs.
#[derive(Debug)]
pub struct ProjectOutputsListParams {
    pub initialized_project: InitializedProject,
}

#[verifier::ext_equal]
pub struct ProjectOutputsListParamsView {
    pub initialized_project: InitializedProjectView,
}

impl View for ProjectOutputsListParams {
    type V = ProjectOutputsListParamsView;

    open spec fn view(&self) -> ProjectOutputsListParamsView {
        ProjectOutputsListParamsView { initialized_project: self.initialized_project@ }
    }
}

/// Parameters for fetching one recorded output by name.
#[derive(Debug)]
pub struct ProjectOutputGetParams {
    pub initialized_project: InitializedProject,
    pub name: String,
}

#[verifier::ext_equal]
pub struct ProjectOutputGetParamsView {
    pub initialized_project: InitializedProjectView,
    pub name: Seq<char>,
}

impl View for ProjectOutputGetParams {
    type V = ProjectOutputGetParamsView;

    open spec fn view(&self) -> ProjectOutputGetParamsView {
        ProjectOutputGetParamsView {
            initialized_project: self.initialized_project@,
            name: self.name@,
        }
    }
}

/// The parameter sets of the source-bundle wave under the default policy.
pub open spec fn spec_default_source_bundle_params(c: CommonFacetCreateParamsView) -> Seq<
    FacetCreateParamsView,
> {
    seq![
        FacetCreateParamsView::SourceBundle(
            SourceBundleFacetCreateParamsView { common: c, facet_type: SupportedFacetType::Readme },
        ),
        FacetCreateParamsView::SourceBundle(
            SourceBundleFacetCreateParamsView {
                common: c,
                facet_type: SupportedFacetType::License,
            },
        ),
        FacetCreateParamsView::SourceBundle(
            SourceBundleFacetCreateParamsView {
                common: c,
                facet_type: SupportedFacetType::Gitignore,
            },
        ),
        FacetCreateParamsView::SourceBundle(
            SourceBundleFacetCreateParamsView {
                common: c,
                facet_type: SupportedFacetType::SecurityInsights,
            },
        ),
        FacetCreateParamsView::SourceBundle(
            SourceBundleFacetCreateParamsView {
                common: c,
                facet_type: SupportedFacetType::SlsaBuild,
            },
        ),
        FacetCreateParamsView::SourceBundle(
            SourceBundleFacetCreateParamsView {
                common: c,
                facet_type: SupportedFacetType::SbomGenerator,
            },
        ),
        FacetCreateParamsView::SourceBundle(
            SourceBundleFacetCreateParamsView {
                common: c,
                facet_type: SupportedFacetType::StaticCodeAnalysis,
            },
        ),
        FacetCreateParamsView::SourceBundle(
            SourceBundleFacetCreateParamsView {
                common: c,
                facet_type: SupportedFacetType::VulnerabilityReporting,
            },
        ),
    ]
}

/// The parameter sets of the API-bundle wave under the default policy.
pub open spec fn spec_default_api_bundle_params(c: CommonFacetCreateParamsView) -> Seq<
    FacetCreateParamsView,
> {
    seq![
        FacetCreateParamsView::APIBundle(
            APIBundleFacetCreateParamsView {
                common: c,
                facet_type: SupportedFacetType::BranchProtection,
            },
        ),
        FacetCreateParamsView::APIBundle(
            APIBundleFacetCreateParamsView {
                common: c,
                facet_type: SupportedFacetType::CodeReview,
            },
        ),
    ]
}

/// Decides which facets to generate for each category.  The default policy
/// is a fixed catalog per category; its contract pins the result, so any
/// replacement must stay deterministic and side-effect-free.
#[derive(Debug)]
pub struct FacetSetParamsGenerator {}

impl FacetSetParamsGenerator {
    /// The source-bundle wave of the default policy.
    pub fn generate_default_source_bundle_facet_params(
        &self,
        common: &CommonFacetCreateParams,
    ) -> (r: Result<FacetSetCreateParams, SkootError>)
        ensures
            r matches Ok(ps) && ps@.facets_params == spec_default_source_bundle_params(common@),
    {
        let mut v: Vec<FacetCreateParams> = Vec::new();
        v.push(FacetCreateParams::SourceBundle(SourceBundleFacetCreateParams {
            common: common.clone(),
            facet_type: SupportedFacetType::Readme,
        }));
        v.push(FacetCreateParams::SourceBundle(SourceBundleFacetCreateParams {
            common: common.clone(),
            facet_type: SupportedFacetType::License,
        }));
        v.push(FacetCreateParams::SourceBundle(SourceBundleFacetCreateParams {
            common: common.clone(),
            facet_type: SupportedFacetType::Gitignore,
        }));
        v.push(FacetCreateParams::SourceBundle(SourceBundleFacetCreateParams {
            common: common.clone(),
            facet_type: SupportedFacetType::SecurityInsights,
        }));
        v.push(FacetCreateParams::SourceBundle(SourceBundleFacetCreateParams {
            common: common.clone(),
            facet_type: SupportedFacetType::SlsaBuild,
        }));
        v.push(FacetCreateParams::SourceBundle(SourceBundleFacetCreateParams {
            common: common.clone(),
            facet_type: SupportedFacetType::SbomGenerator,
        }));
        v.push(FacetCreateParams::SourceBundle(SourceBundleFacetCreateParams {
            common: common.clone(),
            facet_type: SupportedFacetType::StaticCodeAnalysis,
        }));
        v.push(FacetCreateParams::SourceBundle(SourceBundleFacetCreateParams {
            common: common.clone(),
            facet_type: SupportedFacetType::VulnerabilityReporting,
        }));
        let ps = FacetSetCreateParams { facets_params: v };
        proof {
            assert(ps@.facets_params =~~= spec_default_source_bundle_params(common@));
        }
        Ok(ps)
    }

    /// The API-bundle wave of the default policy.
    pub fn generate_default_api_bundle(&self, common: &CommonFacetCreateParams) -> (r: Result<
        FacetSetCreateParams,
        SkootError,
    >)
        ensures
            r matches Ok(ps) && ps@.facets_params == spec_default_api_bundle_params(common@),
    {
        let mut v: Vec<FacetCreateParams> = Vec::new();
        v.push(FacetCreateParams::APIBundle(APIBundleFacetCreateParams {
            common: common.clone(),
            facet_type: SupportedFacetType::BranchProtection,
        }));
        v.push(FacetCreateParams::APIBundle(APIBundleFacetCreateParams {
            common: common.clone(),
            facet_type: SupportedFacetType::CodeReview,
        }));
        let ps = FacetSetCreateParams { facets_params: v };
        proof {
            assert(ps@.facets_params =~~= spec_default_api_bundle_params(common@));
        }
        Ok(ps)
    }
}

/// Where a referenced file lives inside the repository: its directory
/// joined with its name by a single separator.
pub open spec fn spec_joined_file_path(path: Seq<char>, name: Seq<char>) -> Seq<char> {
    if path.len() == 0 {
        name
    } else if path[path.len() - 1] == '/' {
        path + name
    } else {
        path + seq!['/'] + name
    }
}

/// A leading `./` is dropped before the path is handed to the repository
/// gateway, which resolves paths against the repository root.
pub open spec fn spec_strip_dot_slash(p: Seq<char>) -> Seq<char> {
    if p.len() >= 2 && p[0] == '.' && p[1] == '/' {
        p.skip(2)
    } else {
        p
    }
}

/// The repository-relative path of a referenced file.
pub open spec fn spec_facet_file_path(f: SourceFileView) -> Seq<char> {
    spec_strip_dot_slash(spec_joined_file_path(f.path, f.name))
}

/// Builds the repository-relative path under which a referenced file is
/// fetched.
pub fn facet_file_path(sf: &SourceFile) -> (p: String)
    ensures
        p@ == spec_facet_file_path(sf@),
{
    let plen = sf.path.as_str().unicode_len();
    let mut joined = String::new();
    if plen == 0 {
        joined.append(sf.name.as_str());
    } else {
        let lastc = sf.path.as_str().get_char(plen - 1);
        joined.append(sf.path.as_str());
        if lastc != '/' {
            joined.append("/");
            proof {
                reveal_strlit("/");
            }
        }
        joined.append(sf.name.as_str());
    }
    proof {
        assert(joined@ =~= spec_joined_file_path(sf.path@, sf.name@));
    }
    let jlen = joined.as_str().unicode_len();
    if jlen >= 2 {
        let c0 = joined.as_str().get_char(0);
        let c1 = joined.as_str().get_char(1);
        if c0 == '.' && c1 == '/' {
            let stripped = joined.as_str().substring_char(2, jlen);
            return stripped.to_owned();
        }
    }
    joined
}

/// The hydrated contents of a facet's files: each referenced file paired
/// with the content fetched for it, in file order.
pub open spec fn spec_hydrated_content(files: Seq<SourceFileView>, contents: Seq<Seq<char>>) -> Seq<
    (SourceFileView, Seq<char>),
> {
    Seq::new(files.len(), |i: int| (files[i], contents[i]))
}

/// Fills a source-bundle facet in with fetched file contents: the file
/// descriptors are replaced by the mapping from each referenced file to its
/// content, the facet type and labels staying as they were.
pub fn hydrate_source_bundle(
    facet_type: SupportedFacetType,
    source_files: Vec<SourceFile>,
    contents: Vec<String>,
    labels: Vec<Label>,
) -> (f: SourceBundleFacet)
    requires
        source_files@.len() == contents@.len(),
    ensures
        f@ == (SourceBundleFacetView {
            source_files: None,
            facet_type,
            source_files_content: Some(
                spec_hydrated_content(
                    source_files@.map_values(|x: SourceFile| x@),
                    contents@.map_values(|c: String| c@),
                ),
            ),
            labels: labels@.map_values(|l: Label| l@),
        }),
{
    let mut content: Vec<(SourceFile, String)> = Vec::new();
    let mut i: usize = 0;
    while i < source_files.len()
        invariant
            i <= source_files.len(),
            source_files@.len() == contents@.len(),
            content@ =~= Seq::new(i as nat, |j: int| (source_files@[j], contents@[j])),
        decreases source_files.len() - i,
    {
        let pair = (source_files[i].clone(), contents[i].clone());
        content.push(pair);
        i += 1;
    }
    let f = SourceBundleFacet {
        source_files: None,
        facet_type,
        source_files_content: Some(content),
        labels,
    };
    proof {
        assert(f@.source_files_content->Some_0 =~= spec_hydrated_content(
            source_files@.map_values(|x: SourceFile| x@),
            contents@.map_values(|c: String| c@),
        ));
        assert(f@ =~~= SourceBundleFacetView {
            source_files: None,
            facet_type,
            source_files_content: Some(
                spec_hydrated_content(
                    source_files@.map_values(|x: SourceFile| x@),
                    contents@.map_values(|c: String| c@),
                ),
            ),
            labels: labels@.map_values(|l: Label| l@),
        });
    }
    f
}

/// Every facet stored in the entries is well formed and stands under its
/// type-derived key.
pub open spec fn facets_keyed_by_type(entries: Seq<FacetEntryView>) -> bool {
    forall|k: FacetMapKey| (#[trigger] spec_lookup(entries, k)) matches Some(f) ==> f.wf() && k
        == FacetMapKey::Type(f.facet_type())
}

/// Orchestrates the lifecycle of projects against a set of collaborator
/// services.
#[derive(Debug)]
pub struct LocalProjectService<
    RS: RepoService,
    ES: EcosystemService,
    SS: SourceService,
    FS: RootFacetService,
    OS: OutputService,
> {
    pub repo_service: RS,
    pub ecosystem_service: ES,
    pub source_service: SS,
    pub facet_service: FS,
    pub output_service: OS,
}

impl<
    RS: RepoService,
    ES: EcosystemService,
    SS: SourceService,
    FS: RootFacetService,
    OS: OutputService,
> LocalProjectService<RS, ES, SS, FS, OS> {
    /// Initializes a project: creates the repository, checks it out, assigns
    /// the ecosystem identity, generates the source-bundle facet wave,
    /// commits and pushes it, generates the API-bundle wave, and merges both
    /// waves by facet type — a later facet of a colliding type silently
    /// overwriting the earlier one.  Any collaborator failure aborts the
    /// whole call: no project is returned, and no rollback is attempted.
    pub fn initialize(&self, params: ProjectCreateParams) -> (r: Result<
        InitializedProject,
        SkootError,
    >)
        ensures
            r matches Ok(p) ==> {
                &&& p@.wf()
                &&& p@.name == params@.name
                &&& p@.repo == spec_repo_of_create(params@.repo_params)
                &&& p@.ecosystem == spec_ecosystem_of(params@.ecosystem_params)
                &&& p@.source.path == spec_join_path(
                    params@.source_params.parent_path,
                    spec_repo_of_create(params@.repo_params).name(),
                )
                &&& facets_keyed_by_type(p@.facets)
            },
    {
        let initialized_repo = match self.repo_service.initialize(params.repo_params) {
            Ok(repo) => repo,
            Err(e) => {
                return Err(e);
            },
        };
        let initialized_source = match self.source_service.initialize(
            params.source_params,
            initialized_repo.clone(),
        ) {
            Ok(src) => src,
            Err(e) => {
                return Err(e);
            },
        };
        let initialized_ecosystem = match self.ecosystem_service.initialize(
            params.ecosystem_params,
            initialized_source.clone(),
        ) {
            Ok(eco) => eco,
            Err(e) => {
                return Err(e);
            },
        };
        let facet_set_params_generator = FacetSetParamsGenerator {  };
        let common_params = CommonFacetCreateParams {
            project_name: params.name.clone(),
            source: initialized_source.clone(),
            repo: initialized_repo.clone(),
            ecosystem: initialized_ecosystem.clone(),
        };
        let source_facet_set_params = match facet_set_params_generator
            .generate_default_source_bundle_facet_params(&common_params) {
            Ok(ps) => ps,
            Err(e) => {
                return Err(e);
            },
        };
        let api_facet_set_params = match facet_set_params_generator.generate_default_api_bundle(
            &common_params,
        ) {
            Ok(ps) => ps,
            Err(e) => {
                return Err(e);
            },
        };
        let facets = match self.run_facet_waves(
            initialized_source.clone(),
            "Initialized project".to_owned(),
            source_facet_set_params,
            api_facet_set_params,
        ) {
            Ok(m) => m,
            Err(e) => {
                return Err(e);
            },
        };
        Ok(
            InitializedProject {
                repo: initialized_repo,
                ecosystem: initialized_ecosystem,
                source: initialized_source,
                facets,
                name: params.name,
            },
        )
    }

    /// Runs the two facet-generation waves against the facet service, with a
    /// commit-and-push barrier between them so API-derived facets see the
    /// source wave's changes on the remote, and merges the results by type.
    fn run_facet_waves(
        &self,
        source: InitializedSource,
        commit_message: String,
        source_facet_set_params: FacetSetCreateParams,
        api_facet_set_params: FacetSetCreateParams,
    ) -> (r: Result<FacetMap, SkootError>)
        ensures
            r matches Ok(m) ==> entries_wf(m@) && facets_keyed_by_type(m@) && forall|i: int|
                0 <= i < m@.len() ==> (#[trigger] m@[i]).1.wf(),
    {
        let initialized_source_facets = match self.facet_service.initialize_all(
            source_facet_set_params,
        ) {
            Ok(fs) => fs,
            Err(e) => {
                return Err(e);
            },
        };
        match self.source_service.commit_and_push_changes(source, commit_message) {
            Ok(_) => (),
            Err(e) => {
                return Err(e);
            },
        };
        let initialized_api_facets = match self.facet_service.initialize_all(
            api_facet_set_params,
        ) {
            Ok(fs) => fs,
            Err(e) => {
                return Err(e);
            },
        };
        let ghost wave1 = initialized_source_facets@;
        let ghost wave2 = initialized_api_facets@;
        let mut all_facets = initialized_source_facets;
        let mut api_facets = initialized_api_facets;
        all_facets.append(&mut api_facets);
        proof {
            assert(all_facets@ == wave1 + wave2);
        }
        let ghost fv = all_facets@.map_values(|f: InitializedFacet| f@);
        proof {
            assert forall|i: int| 0 <= i < fv.len() implies (#[trigger] fv[i]).wf() by {
                if i < wave1.len() {
                    assert(all_facets@[i] == wave1[i]);
                } else {
                    assert(all_facets@[i] == wave2[i - wave1.len()]);
                }
            }
        }
        let merged = merge_facets(all_facets);
        proof {
            assert forall|k: FacetMapKey|
                (#[trigger] spec_lookup(merged@, k)) matches Some(f) ==> f.wf() && k
                    == FacetMapKey::Type(f.facet_type()) by {
                lemma_merge_lookup_props(fv, k);
                if spec_merge_lookup(fv, k) is Some {
                    let f2 = spec_merge_lookup(fv, k)->Some_0;
                    let i = choose|i: int| 0 <= i < fv.len() && fv[i] == f2;
                    assert(fv[i].wf());
                }
            }
            lemma_wf_entries_lookup(merged@);
            assert forall|i: int| 0 <= i < merged@.len() implies (#[trigger] merged@[i]).1.wf() by {
                assert(spec_lookup(merged@, merged@[i].0) == Some(merged@[i].1));
            }
        }
        Ok(merged)
    }

    /// Regenerates the facets of an existing project: re-checks the source
    /// out (clone if absent, else pull), keeps the repository and ecosystem
    /// unchanged, and re-runs facet planning, the two generation waves with
    /// their commit barrier, and the merge.
    pub fn update(&self, params: ProjectUpdateParams) -> (r: Result<
        InitializedProject,
        SkootError,
    >)
        ensures
            r matches Ok(p) ==> {
                &&& p@.wf()
                &&& p@.name == params@.initialized_project.name
                &&& p@.repo == params@.initialized_project.repo
                &&& p@.ecosystem == params@.initialized_project.ecosystem
                &&& p@.source.path == spec_join_path(
                    params@.initialized_project.source.path,
                    params@.initialized_project.repo.name(),
                )
                &&& facets_keyed_by_type(p@.facets)
            },
    {
        let initialized_project = params.initialized_project;
        let initialized_repo = initialized_project.repo;
        let initialized_source = match self.repo_service.clone_local_or_pull(
            initialized_repo.clone(),
            initialized_project.source.path,
        ) {
            Ok(src) => src,
            Err(e) => {
                return Err(e);
            },
        };
        let initialized_ecosystem = initialized_project.ecosystem;
        let facet_set_params_generator = FacetSetParamsGenerator {  };
        let common_params = CommonFacetCreateParams {
            project_name: initialized_project.name.clone(),
            source: initialized_source.clone(),
            repo: initialized_repo.clone(),
            ecosystem: initialized_ecosystem.clone(),
        };
        let source_facet_set_params = match facet_set_params_generator
            .generate_default_source_bundle_facet_params(&common_params) {
            Ok(ps) => ps,
            Err(e) => {
                return Err(e);
            },
        };
        let api_facet_set_params = match facet_set_params_generator.generate_default_api_bundle(
            &common_params,
        ) {
            Ok(ps) => ps,
            Err(e) => {
                return Err(e);
            },
        };
        let facets = match self.run_facet_waves(
            initialized_source.clone(),
            "Updated facets for project".to_owned(),
            source_facet_set_params,
            api_facet_set_params,
        ) {
            Ok(m) => m,
            Err(e) => {
                return Err(e);
            },
        };
        Ok(
            InitializedProject {
                repo: initialized_repo,
                ecosystem: initialized_ecosystem,
                source: initialized_source,
                facets,
                name: initialized_project.name,
            },
        )
    }

    /// Fetches an initialized project back from its repository: looks the
    /// repository up by the project URL, fetches the manifest file from its
    /// default branch, and decodes it.  A fetch failure surfaces as the
    /// gateway's error; text that is not a well-formed manifest surfaces as
    /// a decode failure.
    pub fn get(&self, params: ProjectGetParams) -> (r: Result<InitializedProject, SkootError>)
        ensures
            r matches Ok(p) ==> p@.wf(),
    {
        let get_repo_params = InitializedRepoGetParams { repo_url: params.project_url };
        let repo = match self.repo_service.get(get_repo_params) {
            Ok(repo) => repo,
            Err(e) => {
                return Err(e);
            },
        };
        let skootrs_file = match self.repo_service.fetch_file_content(&repo, ".skootrs") {
            Ok(text) => text,
            Err(e) => {
                return Err(e);
            },
        };
        let initialized_project = match decode_project(skootrs_file.as_str()) {
            Ok(p) => p,
            Err(e) => {
                return Err(e);
            },
        };
        Ok(initialized_project)
    }

    /// Lists the facet keys of the project behind the given URL: exactly
    /// the key set of the project that `get` returns, each key once.
    pub fn list_facets(&self, params: ProjectGetParams) -> (r: Result<Vec<FacetMapKey>, SkootError>)
        ensures
            r matches Ok(ks) ==> ks@.no_duplicates(),
    {
        let project = match self.get(params) {
            Ok(p) => p,
            Err(e) => {
                return Err(e);
            },
        };
        let ks = project.facets.keys();
        proof {
            assert forall|a: int, b: int| 0 <= a < b < ks@.len() implies ks@[a] != ks@[b] by {
                assert(project.facets@[a].0 != project.facets@[b].0);
            }
        }
        Ok(ks)
    }

    /// Fetches one facet of the project behind the given URL, hydrated: a
    /// source-bundle facet comes back with the content of every referenced
    /// file, fetched from the repository, and fails as a whole if any single
    /// fetch fails; an API-bundle facet comes back unchanged.  A key with no
    /// facet behind it, or a source bundle without file descriptors, is a
    /// not-found failure.
    pub fn get_facet_with_content(&self, params: FacetGetParams) -> (r: Result<
        InitializedFacet,
        SkootError,
    >)
        ensures
            r matches Ok(f) ==> f@.wf() && (f@ is SourceBundle
                ==> f@->SourceBundle_0.source_files is None
                && f@->SourceBundle_0.source_files_content is Some),
    {
        let FacetGetParams { project_get_params, facet_map_key } = params;
        let mut initialized_project = match self.get(project_get_params) {
            Ok(p) => p,
            Err(e) => {
                return Err(e);
            },
        };
        let facet = match initialized_project.facets.take(&facet_map_key) {
            Some(f) => f,
            None => {
                return Err(SkootError::NotFound("Facet not found".to_owned()));
            },
        };
        match facet {
            InitializedFacet::SourceBundle(sb) => {
                let source_files = match sb.source_files {
                    Some(fs) => fs,
                    None => {
                        return Err(SkootError::NotFound("No source files found".to_owned()));
                    },
                };
                let mut contents: Vec<String> = Vec::new();
                let mut i: usize = 0;
                while i < source_files.len()
                    invariant
                        i <= source_files.len(),
                        contents@.len() == i,
                    decreases source_files.len() - i,
                {
                    let path = facet_file_path(&source_files[i]);
                    let content = match self.repo_service.fetch_file_content(
                        &initialized_project.repo,
                        path.as_str(),
                    ) {
                        Ok(c) => c,
                        Err(e) => {
                            return Err(e);
                        },
                    };
                    contents.push(content);
                    i += 1;
                }
                let hydrated = hydrate_source_bundle(
                    sb.facet_type,
                    source_files,
                    contents,
                    sb.labels,
                );
                Ok(InitializedFacet::SourceBundle(hydrated))
            },
            InitializedFacet::APIBundle(ab) => Ok(InitializedFacet::APIBundle(ab)),
        }
    }

    /// Lists the recorded outputs of a project: a pure delegation to the
    /// output catalog.
    pub fn outputs_list(&self, params: ProjectOutputsListParams) -> (r: Result<
        Vec<crate::model::ProjectOutputReference>,
        SkootError,
    >) {
        self.output_service.list(params)
    }

    /// Fetches one recorded output of a project: a pure delegation to the
    /// output catalog.
    pub fn output_get(&self, params: ProjectOutputGetParams) -> (r: Result<
        crate::model::ProjectOutput,
        SkootError,
    >) {
        self.output_service.get(params)
    }

    /// Archives the project's repository and reports its final address.
    pub fn archive(&self, params: ProjectArchiveParams) -> (r: Result<String, SkootError>)
        ensures
            r matches Ok(url) ==> url@ == params@.initialized_project.repo.full_url(),
    {
        self.repo_service.archive(params.initialized_project.repo)
    }
}

} // verus!
