//! Manifest round-trip tests, decode-failure tests, and the fetch/hydrate
//! behaviour of `get`, `list_facets` and `get_facet_with_content` against a
//! gateway that serves a stored manifest.

use skootrs::facet::{
    APIBundleFacet, APIContent, FacetCreateParams, FacetMap, FacetMapKey, FacetSetCreateParams,
    InitializedFacet, SourceBundleFacet, SourceFile, SupportedFacetType,
};
use skootrs::manifest::{decode_project, encode_project};
use skootrs::model::{
    EcosystemInitializeParams, GithubUser, InitializedEcosystem, InitializedGithubRepo,
    InitializedGo, InitializedRepo, InitializedRepoGetParams, InitializedSource, Label,
    ProjectGetParams, ProjectOutput, ProjectOutputReference, ProjectOutputType, RepoCreateParams,
    SkootError, SourceInitializeParams,
};
use skootrs::project::{
    FacetGetParams, InitializedProject, LocalProjectService, ProjectOutputGetParams,
    ProjectOutputsListParams,
};
use skootrs::services::{
    EcosystemService, OutputService, RepoService, RootFacetService, SourceService,
};

fn sample_repo() -> InitializedRepo {
    InitializedRepo::Github(InitializedGithubRepo {
        name: "test".to_string(),
        organization: GithubUser::User("testuser".to_string()),
    })
}

fn sample_project(facets: FacetMap) -> InitializedProject {
    InitializedProject {
        repo: sample_repo(),
        ecosystem: InitializedEcosystem::Go(InitializedGo {
            name: "test".to_string(),
            host: "github.com".to_string(),
        }),
        source: InitializedSource {
            path: "test/test".to_string(),
        },
        facets,
        name: "test".to_string(),
    }
}

fn readme_facet() -> InitializedFacet {
    InitializedFacet::SourceBundle(SourceBundleFacet {
        source_files: Some(vec![
            SourceFile {
                name: "README.md".to_string(),
                path: "./".to_string(),
                hash: "fakehash".to_string(),
            },
            SourceFile {
                name: "SECURITY.md".to_string(),
                path: "docs".to_string(),
                hash: "otherhash".to_string(),
            },
        ]),
        facet_type: SupportedFacetType::Readme,
        source_files_content: None,
        labels: vec![Label::Custom("test".to_string())],
    })
}

fn branch_protection_facet() -> InitializedFacet {
    InitializedFacet::APIBundle(APIBundleFacet {
        apis: vec![APIContent {
            name: "test".to_string(),
            url: "https://foo.bar/test".to_string(),
            response: "worked".to_string(),
        }],
        facet_type: SupportedFacetType::BranchProtection,
        labels: vec![Label::Custom("test".to_string())],
    })
}

fn full_facet_map() -> FacetMap {
    let mut facets = FacetMap::new();
    facets.insert(FacetMapKey::Type(SupportedFacetType::Readme), readme_facet());
    facets.insert(
        FacetMapKey::Type(SupportedFacetType::BranchProtection),
        branch_protection_facet(),
    );
    facets
}

#[test]
fn encode_of_a_facetless_project_is_exact() {
    let project = sample_project(FacetMap::new());
    let text = encode_project(&project);
    assert_eq!(text, "test;htest;utestuser;Gtest;github.com;test/test;e");
}

#[test]
fn encode_escapes_separators_in_text_fields() {
    let mut project = sample_project(FacetMap::new());
    project.name = "a;b\\c".to_string();
    let text = encode_project(&project);
    assert_eq!(text, "a\\;b\\\\c;htest;utestuser;Gtest;github.com;test/test;e");
}

#[test]
fn decode_inverts_encode_on_a_full_project() {
    let project = sample_project(full_facet_map());
    let text = encode_project(&project);
    let decoded = decode_project(&text).unwrap();
    assert_eq!(encode_project(&decoded), text);
    assert_eq!(decoded.name, "test");
    assert_eq!(decoded.source.path, "test/test");
    assert_eq!(decoded.repo.full_url(), "https://github.com/testuser/test");
    assert_eq!(decoded.facets.len(), 2);
}

#[test]
fn decode_inverts_encode_on_awkward_text() {
    let mut project = sample_project(FacetMap::new());
    project.name = ";;\\\\;x".to_string();
    project.source.path = "wéird/päth ☃".to_string();
    let text = encode_project(&project);
    let decoded = decode_project(&text).unwrap();
    assert_eq!(decoded.name, ";;\\\\;x");
    assert_eq!(decoded.source.path, "wéird/päth ☃");
    assert_eq!(encode_project(&decoded), text);
}

#[test]
fn decode_rejects_text_that_is_no_manifest() {
    match decode_project("Worked") {
        Err(SkootError::DecodeFailure(_)) => {}
        _ => panic!("expected a decode failure"),
    }
    match decode_project("") {
        Err(SkootError::DecodeFailure(_)) => {}
        _ => panic!("expected a decode failure"),
    }
}

#[test]
fn decode_rejects_trailing_content() {
    let project = sample_project(FacetMap::new());
    let mut text = encode_project(&project);
    text.push('x');
    match decode_project(&text) {
        Err(SkootError::DecodeFailure(m)) => assert!(m.contains("trailing")),
        _ => panic!("expected a decode failure"),
    }
}

#[test]
fn decode_rejects_a_repeated_facet_key() {
    let facets = FacetMap {
        entries: vec![
            (FacetMapKey::Type(SupportedFacetType::Readme), readme_facet()),
            (FacetMapKey::Type(SupportedFacetType::Readme), readme_facet()),
        ],
    };
    let text = encode_project(&sample_project(facets));
    match decode_project(&text) {
        Err(SkootError::DecodeFailure(m)) => assert!(m.contains("repeats")),
        _ => panic!("expected a decode failure"),
    }
}

#[test]
fn decode_rejects_a_facet_with_descriptors_and_content_at_once() {
    let malformed = InitializedFacet::SourceBundle(SourceBundleFacet {
        source_files: Some(vec![]),
        facet_type: SupportedFacetType::Readme,
        source_files_content: Some(vec![]),
        labels: vec![],
    });
    let facets = FacetMap {
        entries: vec![(FacetMapKey::Type(SupportedFacetType::Readme), malformed)],
    };
    let text = encode_project(&sample_project(facets));
    match decode_project(&text) {
        Err(SkootError::DecodeFailure(m)) => assert!(m.contains("malformed")),
        _ => panic!("expected a decode failure"),
    }
}

/// Serves a fixed manifest as the repository's manifest file, and
/// deterministic content for every other path.
struct ManifestRepoService {
    manifest: String,
}

impl RepoService for ManifestRepoService {
    fn initialize(&self, _params: RepoCreateParams) -> Result<InitializedRepo, SkootError> {
        Ok(sample_repo())
    }

    fn clone_local(
        &self,
        _initialized_repo: InitializedRepo,
        path: String,
    ) -> Result<InitializedSource, SkootError> {
        Ok(InitializedSource { path })
    }

    fn clone_local_or_pull(
        &self,
        _initialized_repo: InitializedRepo,
        path: String,
    ) -> Result<InitializedSource, SkootError> {
        Ok(InitializedSource { path })
    }

    fn get(&self, params: InitializedRepoGetParams) -> Result<InitializedRepo, SkootError> {
        if params.repo_url == "error" {
            return Err(SkootError::CallFailure("Error".to_string()));
        }
        Ok(sample_repo())
    }

    fn fetch_file_content(
        &self,
        _initialized_repo: &InitializedRepo,
        path: &str,
    ) -> Result<String, SkootError> {
        if path == ".skootrs" {
            return Ok(self.manifest.clone());
        }
        if path == "error" {
            return Err(SkootError::CallFailure(format!(
                "error fetching file content for path: {}",
                path
            )));
        }
        Ok(format!("content of {}", path))
    }

    fn archive(&self, initialized_repo: InitializedRepo) -> Result<String, SkootError> {
        Ok(initialized_repo.full_url())
    }
}

struct NoEcosystemService;

impl EcosystemService for NoEcosystemService {
    fn initialize(
        &self,
        _params: EcosystemInitializeParams,
        _source: InitializedSource,
    ) -> Result<InitializedEcosystem, SkootError> {
        Err(SkootError::CallFailure("unused".to_string()))
    }
}

struct NoSourceService;

impl SourceService for NoSourceService {
    fn initialize(
        &self,
        _params: SourceInitializeParams,
        _initialized_repo: InitializedRepo,
    ) -> Result<InitializedSource, SkootError> {
        Err(SkootError::CallFailure("unused".to_string()))
    }

    fn commit_and_push_changes(
        &self,
        _source: InitializedSource,
        _message: String,
    ) -> Result<(), SkootError> {
        Ok(())
    }

    fn write_file(
        &self,
        _source: InitializedSource,
        _path: &str,
        _name: String,
        _contents: &[u8],
    ) -> Result<(), SkootError> {
        Ok(())
    }

    fn read_file(
        &self,
        _source: &InitializedSource,
        _path: &str,
        _name: String,
    ) -> Result<String, SkootError> {
        Ok("Worked".to_string())
    }

    fn hash_file(
        &self,
        _source: &InitializedSource,
        _path: &str,
        _name: String,
    ) -> Result<String, SkootError> {
        Ok("fakehash".to_string())
    }

    fn pull_updates(&self, _source: InitializedSource) -> Result<(), SkootError> {
        Ok(())
    }
}

struct NoFacetService;

impl RootFacetService for NoFacetService {
    fn initialize(&self, _params: FacetCreateParams) -> Result<InitializedFacet, SkootError> {
        Err(SkootError::CallFailure("unused".to_string()))
    }

    fn initialize_all(
        &self,
        _params: FacetSetCreateParams,
    ) -> Result<Vec<InitializedFacet>, SkootError> {
        Err(SkootError::CallFailure("unused".to_string()))
    }
}

struct NoOutputService;

impl OutputService for NoOutputService {
    fn list(
        &self,
        _params: ProjectOutputsListParams,
    ) -> Result<Vec<ProjectOutputReference>, SkootError> {
        Ok(vec![])
    }

    fn get(&self, _params: ProjectOutputGetParams) -> Result<ProjectOutput, SkootError> {
        Err(SkootError::NotFound("unused".to_string()))
    }
}

fn manifest_service(
    facets: FacetMap,
) -> LocalProjectService<
    ManifestRepoService,
    NoEcosystemService,
    NoSourceService,
    NoFacetService,
    NoOutputService,
> {
    let manifest = encode_project(&sample_project(facets));
    LocalProjectService {
        repo_service: ManifestRepoService { manifest },
        ecosystem_service: NoEcosystemService,
        source_service: NoSourceService,
        facet_service: NoFacetService,
        output_service: NoOutputService,
    }
}

fn get_params() -> ProjectGetParams {
    ProjectGetParams {
        project_url: "https://github.com/testuser/test".to_string(),
    }
}

#[test]
fn get_reserializes_to_the_persisted_manifest() {
    let service = manifest_service(full_facet_map());
    let fetched = service.get(get_params()).unwrap();
    let reserialized = encode_project(&fetched);
    assert_eq!(reserialized, service.repo_service.manifest);
}

#[test]
fn list_facets_returns_exactly_the_projects_keys() {
    let service = manifest_service(full_facet_map());
    let keys = service.list_facets(get_params()).unwrap();
    let project = service.get(get_params()).unwrap();
    assert_eq!(keys, project.facets.keys());
    assert_eq!(keys.len(), 2);
    assert!(keys.contains(&FacetMapKey::Type(SupportedFacetType::Readme)));
    assert!(keys.contains(&FacetMapKey::Type(SupportedFacetType::BranchProtection)));
}

#[test]
fn get_facet_with_content_hydrates_every_referenced_file() {
    let service = manifest_service(full_facet_map());
    let facet = service
        .get_facet_with_content(FacetGetParams {
            project_get_params: get_params(),
            facet_map_key: FacetMapKey::Type(SupportedFacetType::Readme),
        })
        .unwrap();
    match facet {
        InitializedFacet::SourceBundle(sb) => {
            assert!(sb.source_files.is_none());
            let content = sb.source_files_content.unwrap();
            assert_eq!(content.len(), 2);
            assert_eq!(content[0].0.name, "README.md");
            assert_eq!(content[0].1, "content of README.md");
            assert_eq!(content[1].0.name, "SECURITY.md");
            assert_eq!(content[1].1, "content of docs/SECURITY.md");
            assert_eq!(sb.labels, vec![Label::Custom("test".to_string())]);
        }
        _ => panic!("expected a source bundle"),
    }
}

#[test]
fn get_facet_with_content_returns_an_api_bundle_unchanged() {
    let service = manifest_service(full_facet_map());
    let facet = service
        .get_facet_with_content(FacetGetParams {
            project_get_params: get_params(),
            facet_map_key: FacetMapKey::Type(SupportedFacetType::BranchProtection),
        })
        .unwrap();
    match facet {
        InitializedFacet::APIBundle(ab) => {
            assert_eq!(ab.apis.len(), 1);
            assert_eq!(ab.apis[0].name, "test");
            assert_eq!(ab.apis[0].url, "https://foo.bar/test");
            assert_eq!(ab.apis[0].response, "worked");
            assert_eq!(ab.labels, vec![Label::Custom("test".to_string())]);
        }
        _ => panic!("expected an API bundle"),
    }
}

#[test]
fn get_facet_with_content_fails_when_one_fetch_fails() {
    let mut facets = FacetMap::new();
    facets.insert(
        FacetMapKey::Type(SupportedFacetType::Readme),
        InitializedFacet::SourceBundle(SourceBundleFacet {
            source_files: Some(vec![
                SourceFile {
                    name: "README.md".to_string(),
                    path: "./".to_string(),
                    hash: "fakehash".to_string(),
                },
                SourceFile {
                    name: "error".to_string(),
                    path: "".to_string(),
                    hash: "fakehash".to_string(),
                },
            ]),
            facet_type: SupportedFacetType::Readme,
            source_files_content: None,
            labels: vec![],
        }),
    );
    let service = manifest_service(facets);
    let result = service.get_facet_with_content(FacetGetParams {
        project_get_params: get_params(),
        facet_map_key: FacetMapKey::Type(SupportedFacetType::Readme),
    });
    match result {
        Err(SkootError::CallFailure(m)) => assert!(m.contains("error")),
        _ => panic!("expected the fetch failure to propagate"),
    }
}

#[test]
fn get_facet_with_content_fails_on_a_missing_key() {
    let service = manifest_service(full_facet_map());
    let result = service.get_facet_with_content(FacetGetParams {
        project_get_params: get_params(),
        facet_map_key: FacetMapKey::Type(SupportedFacetType::License),
    });
    match result {
        Err(SkootError::NotFound(m)) => assert_eq!(m, "Facet not found"),
        _ => panic!("expected a not-found failure"),
    }
}

#[test]
fn get_facet_with_content_fails_on_a_bundle_without_descriptors() {
    let mut facets = FacetMap::new();
    facets.insert(
        FacetMapKey::Type(SupportedFacetType::Readme),
        InitializedFacet::SourceBundle(SourceBundleFacet {
            source_files: None,
            facet_type: SupportedFacetType::Readme,
            source_files_content: None,
            labels: vec![],
        }),
    );
    let service = manifest_service(facets);
    let result = service.get_facet_with_content(FacetGetParams {
        project_get_params: get_params(),
        facet_map_key: FacetMapKey::Type(SupportedFacetType::Readme),
    });
    match result {
        Err(SkootError::NotFound(m)) => assert_eq!(m, "No source files found"),
        _ => panic!("expected a not-found failure"),
    }
}
