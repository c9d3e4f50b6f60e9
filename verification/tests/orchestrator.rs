//! Lifecycle tests of the orchestrator against in-memory collaborators,
//! including the sentinel-failure behaviour of every collaborator.

use skootrs::facet::{
    APIBundleFacet, APIContent, FacetCreateParams, FacetMapKey, FacetSetCreateParams,
    InitializedFacet, SourceBundleFacet, SourceFile, SupportedFacetType,
};
use skootrs::model::{
    EcosystemInitializeParams, GithubRepoParams, GithubUser, GoParams, InitializedEcosystem,
    InitializedGithubRepo, InitializedGo, InitializedMaven, InitializedRepo,
    InitializedRepoGetParams, InitializedSource, Label, MavenParams, ProjectCreateParams,
    ProjectGetParams, ProjectOutput, ProjectOutputReference, ProjectOutputType, RepoCreateParams,
    SkootError, SourceInitializeParams,
};
use skootrs::project::{
    FacetGetParams, LocalProjectService, ProjectArchiveParams, ProjectOutputGetParams,
    ProjectOutputsListParams, ProjectUpdateParams,
};
use skootrs::services::{
    EcosystemService, OutputService, RepoService, RootFacetService, SourceService,
};

struct MockRepoService;
struct MockEcosystemService;
struct MockSourceService;
struct MockFacetService;
struct MockOutputService;

impl RepoService for MockRepoService {
    fn initialize(&self, params: RepoCreateParams) -> Result<InitializedRepo, SkootError> {
        let RepoCreateParams::Github(inner_params) = params;
        if inner_params.name == "error" {
            return Err(SkootError::CallFailure("Error".to_string()));
        }
        Ok(InitializedRepo::Github(InitializedGithubRepo {
            name: inner_params.name,
            organization: inner_params.organization,
        }))
    }

    fn clone_local(
        &self,
        initialized_repo: InitializedRepo,
        path: String,
    ) -> Result<InitializedSource, SkootError> {
        let InitializedRepo::Github(inner_repo) = initialized_repo;
        if inner_repo.name == "error" {
            return Err(SkootError::CallFailure("Error".to_string()));
        }
        Ok(InitializedSource {
            path: format!("{}/{}", path, inner_repo.name),
        })
    }

    fn clone_local_or_pull(
        &self,
        initialized_repo: InitializedRepo,
        path: String,
    ) -> Result<InitializedSource, SkootError> {
        self.clone_local(initialized_repo, path)
    }

    fn get(&self, params: InitializedRepoGetParams) -> Result<InitializedRepo, SkootError> {
        if params.repo_url == "error" {
            return Err(SkootError::CallFailure("Error".to_string()));
        }
        Ok(InitializedRepo::Github(InitializedGithubRepo {
            name: "test".to_string(),
            organization: GithubUser::User("testuser".to_string()),
        }))
    }

    fn fetch_file_content(
        &self,
        _initialized_repo: &InitializedRepo,
        path: &str,
    ) -> Result<String, SkootError> {
        if path == "error" {
            return Err(SkootError::CallFailure("Error".to_string()));
        }
        Ok("Worked".to_string())
    }

    fn archive(&self, initialized_repo: InitializedRepo) -> Result<String, SkootError> {
        Ok(initialized_repo.full_url())
    }
}

impl EcosystemService for MockEcosystemService {
    fn initialize(
        &self,
        params: EcosystemInitializeParams,
        _source: InitializedSource,
    ) -> Result<InitializedEcosystem, SkootError> {
        match params {
            EcosystemInitializeParams::Go(g) => {
                if g.host == "error" {
                    return Err(SkootError::ValidationFailure("Error".to_string()));
                }
                Ok(InitializedEcosystem::Go(InitializedGo {
                    name: g.name,
                    host: g.host,
                }))
            }
            EcosystemInitializeParams::Maven(m) => {
                if m.group_id == "error" {
                    return Err(SkootError::ValidationFailure("Error".to_string()));
                }
                Ok(InitializedEcosystem::Maven(InitializedMaven {
                    group_id: m.group_id,
                    artifact_id: m.artifact_id,
                }))
            }
        }
    }
}

impl SourceService for MockSourceService {
    fn initialize(
        &self,
        params: SourceInitializeParams,
        initialized_repo: InitializedRepo,
    ) -> Result<InitializedSource, SkootError> {
        if params.parent_path == "error" {
            return Err(SkootError::CallFailure("Error".to_string()));
        }
        let InitializedRepo::Github(g) = initialized_repo;
        Ok(InitializedSource {
            path: format!("{}/{}", params.parent_path, g.name),
        })
    }

    fn commit_and_push_changes(
        &self,
        _source: InitializedSource,
        message: String,
    ) -> Result<(), SkootError> {
        if message == "error" {
            return Err(SkootError::CallFailure("Error".to_string()));
        }
        Ok(())
    }

    fn write_file(
        &self,
        _source: InitializedSource,
        _path: &str,
        name: String,
        _contents: &[u8],
    ) -> Result<(), SkootError> {
        if name == "error" {
            return Err(SkootError::CallFailure("Error".to_string()));
        }
        Ok(())
    }

    fn read_file(
        &self,
        _source: &InitializedSource,
        _path: &str,
        name: String,
    ) -> Result<String, SkootError> {
        if name == "error" {
            return Err(SkootError::CallFailure("Error".to_string()));
        }
        Ok("Worked".to_string())
    }

    fn hash_file(
        &self,
        _source: &InitializedSource,
        path: &str,
        _name: String,
    ) -> Result<String, SkootError> {
        if path == "error" {
            return Err(SkootError::CallFailure("Error".to_string()));
        }
        Ok("fakehash".to_string())
    }

    fn pull_updates(&self, source: InitializedSource) -> Result<(), SkootError> {
        if source.path == "error" {
            return Err(SkootError::CallFailure("Error".to_string()));
        }
        Ok(())
    }
}

impl RootFacetService for MockFacetService {
    fn initialize(&self, params: FacetCreateParams) -> Result<InitializedFacet, SkootError> {
        match params {
            FacetCreateParams::SourceBundle(s) => {
                if s.common.project_name == "error" {
                    return Err(SkootError::CallFailure("Error".to_string()));
                }
                Ok(InitializedFacet::SourceBundle(SourceBundleFacet {
                    source_files: Some(vec![SourceFile {
                        name: "README.md".to_string(),
                        path: "./".to_string(),
                        hash: "fakehash".to_string(),
                    }]),
                    facet_type: SupportedFacetType::Readme,
                    source_files_content: None,
                    labels: vec![Label::Custom("test".to_string())],
                }))
            }
            FacetCreateParams::APIBundle(a) => {
                if a.common.project_name == "error" {
                    return Err(SkootError::CallFailure("Error".to_string()));
                }
                Ok(InitializedFacet::APIBundle(APIBundleFacet {
                    apis: vec![APIContent {
                        name: "test".to_string(),
                        url: "https://foo.bar/test".to_string(),
                        response: "worked".to_string(),
                    }],
                    facet_type: SupportedFacetType::BranchProtection,
                    labels: vec![Label::Custom("test".to_string())],
                }))
            }
        }
    }

    fn initialize_all(
        &self,
        params: FacetSetCreateParams,
    ) -> Result<Vec<InitializedFacet>, SkootError> {
        let mut initialized_facets = Vec::new();
        for facet_params in params.facets_params {
            let initialized_facet = self.initialize(facet_params)?;
            initialized_facets.push(initialized_facet);
        }
        Ok(initialized_facets)
    }
}

impl OutputService for MockOutputService {
    fn list(
        &self,
        _params: ProjectOutputsListParams,
    ) -> Result<Vec<ProjectOutputReference>, SkootError> {
        Ok(vec![ProjectOutputReference {
            name: "test".to_string(),
            output_type: ProjectOutputType::SBOM,
            labels: vec![Label::Custom("test".to_string())],
        }])
    }

    fn get(&self, _params: ProjectOutputGetParams) -> Result<ProjectOutput, SkootError> {
        Ok(ProjectOutput {
            reference: ProjectOutputReference {
                name: "test".to_string(),
                output_type: ProjectOutputType::SBOM,
                labels: vec![Label::Custom("test".to_string())],
            },
            output: "test".to_string(),
        })
    }
}

fn local_project_service() -> LocalProjectService<
    MockRepoService,
    MockEcosystemService,
    MockSourceService,
    MockFacetService,
    MockOutputService,
> {
    LocalProjectService {
        repo_service: MockRepoService,
        ecosystem_service: MockEcosystemService,
        source_service: MockSourceService,
        facet_service: MockFacetService,
        output_service: MockOutputService,
    }
}

fn project_params(name: &str, repo_name: &str, host: &str, parent: &str) -> ProjectCreateParams {
    ProjectCreateParams {
        name: name.to_string(),
        repo_params: RepoCreateParams::Github(GithubRepoParams {
            name: repo_name.to_string(),
            description: "foobar".to_string(),
            organization: GithubUser::User("testuser".to_string()),
        }),
        ecosystem_params: EcosystemInitializeParams::Go(GoParams {
            name: "test".to_string(),
            host: host.to_string(),
        }),
        source_params: SourceInitializeParams {
            parent_path: parent.to_string(),
        },
    }
}

#[test]
fn test_initialize_project() {
    let local_project_service = local_project_service();
    let result = local_project_service.initialize(project_params(
        "test",
        "test",
        "github.com",
        "test",
    ));

    assert!(result.is_ok());
    let initialized_project = result.unwrap();

    assert!(initialized_project.repo.full_url() == "https://github.com/testuser/test");
    let module = match initialized_project.ecosystem {
        InitializedEcosystem::Go(g) => g,
        _ => panic!("Wrong ecosystem type"),
    };
    assert!(module.name == "test");
    assert!(initialized_project.source.path == "test/test");
    println!("{:#?}", initialized_project.facets);

    // Every source-bundle parameter set yields a Readme facet and every
    // API-bundle parameter set a BranchProtection facet, so the merged,
    // type-keyed collection collapses to exactly two entries.
    assert_eq!(initialized_project.facets.len(), 2);
}

#[test]
fn initialize_collapses_colliding_types_to_distinct_keys() {
    let service = local_project_service();
    let project = service
        .initialize(project_params("demo", "demo", "github.com", "srv"))
        .unwrap();
    let keys = project.facets.keys();
    assert_eq!(keys.len(), 2);
    assert!(keys.contains(&FacetMapKey::Type(SupportedFacetType::Readme)));
    assert!(keys.contains(&FacetMapKey::Type(SupportedFacetType::BranchProtection)));
    // The API wave ran last, so the colliding merge keeps API-wave facets
    // under their key.
    match project
        .facets
        .get(&FacetMapKey::Type(SupportedFacetType::BranchProtection))
    {
        Some(InitializedFacet::APIBundle(a)) => {
            assert_eq!(a.apis.len(), 1);
            assert_eq!(a.apis[0].response, "worked");
        }
        _ => panic!("API-bundle facet missing"),
    }
}

#[test]
fn initialize_fails_when_repo_creation_fails() {
    let service = local_project_service();
    let result = service.initialize(project_params("test", "error", "github.com", "test"));
    assert!(result.is_err());
}

#[test]
fn initialize_fails_when_source_checkout_fails() {
    let service = local_project_service();
    let result = service.initialize(project_params("test", "test", "github.com", "error"));
    assert!(result.is_err());
}

#[test]
fn initialize_fails_when_ecosystem_assignment_fails() {
    let service = local_project_service();
    let result = service.initialize(project_params("test", "test", "error", "test"));
    match result {
        Err(SkootError::ValidationFailure(_)) => {}
        _ => panic!("expected the validation failure to propagate"),
    }
}

#[test]
fn initialize_fails_when_maven_ecosystem_assignment_fails() {
    let service = local_project_service();
    let params = ProjectCreateParams {
        name: "test".to_string(),
        repo_params: RepoCreateParams::Github(GithubRepoParams {
            name: "test".to_string(),
            description: "foobar".to_string(),
            organization: GithubUser::Organization("testorg".to_string()),
        }),
        ecosystem_params: EcosystemInitializeParams::Maven(MavenParams {
            group_id: "error".to_string(),
            artifact_id: "artifact".to_string(),
        }),
        source_params: SourceInitializeParams {
            parent_path: "test".to_string(),
        },
    };
    assert!(service.initialize(params).is_err());
}

#[test]
fn initialize_fails_when_a_facet_generator_fails() {
    // The mock facet service fails on the sentinel project name, which is
    // embedded in the common facet parameters.
    let service = local_project_service();
    let result = service.initialize(project_params("error", "test", "github.com", "test"));
    assert!(result.is_err());
}

struct CommitFailSourceService;

impl SourceService for CommitFailSourceService {
    fn initialize(
        &self,
        params: SourceInitializeParams,
        initialized_repo: InitializedRepo,
    ) -> Result<InitializedSource, SkootError> {
        let InitializedRepo::Github(g) = initialized_repo;
        Ok(InitializedSource {
            path: format!("{}/{}", params.parent_path, g.name),
        })
    }

    fn commit_and_push_changes(
        &self,
        _source: InitializedSource,
        _message: String,
    ) -> Result<(), SkootError> {
        Err(SkootError::CallFailure("Error".to_string()))
    }

    fn write_file(
        &self,
        _source: InitializedSource,
        _path: &str,
        _name: String,
        _contents: &[u8],
    ) -> Result<(), SkootError> {
        Ok(())
    }

    fn read_file(
        &self,
        _source: &InitializedSource,
        _path: &str,
        _name: String,
    ) -> Result<String, SkootError> {
        Ok("Worked".to_string())
    }

    fn hash_file(
        &self,
        _source: &InitializedSource,
        _path: &str,
        _name: String,
    ) -> Result<String, SkootError> {
        Ok("fakehash".to_string())
    }

    fn pull_updates(&self, _source: InitializedSource) -> Result<(), SkootError> {
        Ok(())
    }
}

#[test]
fn initialize_fails_when_commit_and_push_fails() {
    let service = LocalProjectService {
        repo_service: MockRepoService,
        ecosystem_service: MockEcosystemService,
        source_service: CommitFailSourceService,
        facet_service: MockFacetService,
        output_service: MockOutputService,
    };
    let result = service.initialize(project_params("test", "test", "github.com", "test"));
    assert!(result.is_err());
}

#[test]
fn update_keeps_repo_and_ecosystem() {
    let service = local_project_service();
    let project = service
        .initialize(project_params("test", "test", "github.com", "test"))
        .unwrap();
    let updated = service
        .update(ProjectUpdateParams {
            initialized_project: project,
        })
        .unwrap();
    assert!(updated.repo.full_url() == "https://github.com/testuser/test");
    match updated.ecosystem {
        InitializedEcosystem::Go(g) => assert_eq!(g.name, "test"),
        _ => panic!("Wrong ecosystem type"),
    }
    assert_eq!(updated.name, "test");
    // The mock clone-or-pull joins the repository name onto the given path.
    assert_eq!(updated.source.path, "test/test/test");
    assert_eq!(updated.facets.len(), 2);
}

#[test]
fn archive_reports_the_repository_url() {
    let service = local_project_service();
    let project = service
        .initialize(project_params("test", "test", "github.com", "test"))
        .unwrap();
    let address = service
        .archive(ProjectArchiveParams {
            initialized_project: project,
        })
        .unwrap();
    assert_eq!(address, "https://github.com/testuser/test");
}

#[test]
fn outputs_list_delegates_to_the_catalog() {
    let service = local_project_service();
    let project = service
        .initialize(project_params("test", "test", "github.com", "test"))
        .unwrap();
    let refs = service
        .outputs_list(ProjectOutputsListParams {
            initialized_project: project,
        })
        .unwrap();
    assert_eq!(refs.len(), 1);
    assert_eq!(refs[0].name, "test");
    assert!(matches!(refs[0].output_type, ProjectOutputType::SBOM));
}

#[test]
fn output_get_delegates_to_the_catalog() {
    let service = local_project_service();
    let project = service
        .initialize(project_params("test", "test", "github.com", "test"))
        .unwrap();
    let output = service
        .output_get(ProjectOutputGetParams {
            initialized_project: project,
            name: "test".to_string(),
        })
        .unwrap();
    assert_eq!(output.reference.name, "test");
    assert_eq!(output.output, "test");
}

#[test]
fn get_fails_when_the_repo_lookup_fails() {
    let service = local_project_service();
    let result = service.get(ProjectGetParams {
        project_url: "error".to_string(),
    });
    assert!(result.is_err());
}

#[test]
fn get_fails_with_a_decode_error_on_text_that_is_no_manifest() {
    // The mock gateway answers every fetch with plain text, which is not a
    // manifest.
    let service = local_project_service();
    let result = service.get(ProjectGetParams {
        project_url: "https://github.com/testuser/test".to_string(),
    });
    match result {
        Err(SkootError::DecodeFailure(_)) => {}
        _ => panic!("expected a decode failure"),
    }
}

#[test]
fn facet_file_path_joins_and_strips_the_leading_dot_slash() {
    let file = |path: &str| SourceFile {
        name: "a.md".to_string(),
        path: path.to_string(),
        hash: "h".to_string(),
    };
    assert_eq!(skootrs::project::facet_file_path(&file("./")), "a.md");
    assert_eq!(skootrs::project::facet_file_path(&file("")), "a.md");
    assert_eq!(skootrs::project::facet_file_path(&file("src")), "src/a.md");
    assert_eq!(skootrs::project::facet_file_path(&file("src/")), "src/a.md");
    assert_eq!(skootrs::project::facet_file_path(&file("./src")), "src/a.md");
}

#[test]
fn get_facet_with_content_fails_when_the_project_cannot_be_fetched() {
    let service = local_project_service();
    let result = service.get_facet_with_content(FacetGetParams {
        project_get_params: ProjectGetParams {
            project_url: "error".to_string(),
        },
        facet_map_key: FacetMapKey::Type(SupportedFacetType::Readme),
    });
    assert!(result.is_err());
}
