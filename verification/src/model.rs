//! Core data model: repositories, sources, ecosystems, labels, outputs and
//! the error taxonomy shared by every operation of the crate.

use vstd::prelude::*;

verus! {

/// Error taxonomy: a missing collaborator resource, a failing collaborator
/// call, an unreadable manifest, or malformed creation parameters.
#[derive(Debug)]
pub enum SkootError {
    NotFound(String),
    CallFailure(String),
    DecodeFailure(String),
    ValidationFailure(String),
}

impl SkootError {
    /// The human-readable message carried by the error.
    pub fn message(&self) -> (m: &String)
        ensures
            m@ == self.spec_message(),
    {
        match self {
            SkootError::NotFound(m) => m,
            SkootError::CallFailure(m) => m,
            SkootError::DecodeFailure(m) => m,
            SkootError::ValidationFailure(m) => m,
        }
    }

    pub open spec fn spec_message(&self) -> Seq<char> {
        match self {
            SkootError::NotFound(m) => m@,
            SkootError::CallFailure(m) => m@,
            SkootError::DecodeFailure(m) => m@,
            SkootError::ValidationFailure(m) => m@,
        }
    }
}

/// The path `parent/name`, as every checkout-related collaborator builds it.
pub open spec fn spec_join_path(parent: Seq<char>, name: Seq<char>) -> Seq<char> {
    parent + seq!['/'] + name
}

/// A GitHub account that can own a repository.
#[derive(Debug, PartialEq, Eq)]
pub enum GithubUser {
    User(String),
    Organization(String),
}

#[verifier::ext_equal]
pub enum GithubUserView {
    User(Seq<char>),
    Organization(Seq<char>),
}

impl GithubUserView {
    /// The account name, regardless of the kind of account.
    pub open spec fn name(self) -> Seq<char> {
        match self {
            GithubUserView::User(n) => n,
            GithubUserView::Organization(n) => n,
        }
    }
}

impl View for GithubUser {
    type V = GithubUserView;

    open spec fn view(&self) -> GithubUserView {
        match self {
            GithubUser::User(n) => GithubUserView::User(n@),
            GithubUser::Organization(n) => GithubUserView::Organization(n@),
        }
    }
}

impl Clone for GithubUser {
    fn clone(&self) -> (r: Self)
        ensures
            r == *self,
    {
        match self {
            GithubUser::User(n) => GithubUser::User(n.clone()),
            GithubUser::Organization(n) => GithubUser::Organization(n.clone()),
        }
    }
}

impl GithubUser {
    /// The account name, regardless of the kind of account.
    pub fn get_name(&self) -> (n: &String)
        ensures
            n@ == self@.name(),
    {
        match self {
            GithubUser::User(n) => n,
            GithubUser::Organization(n) => n,
        }
    }
}

/// A created GitHub repository: its name and the account that owns it.
#[derive(Debug, PartialEq, Eq)]
pub struct InitializedGithubRepo {
    pub name: String,
    pub organization: GithubUser,
}

#[verifier::ext_equal]
pub struct InitializedGithubRepoView {
    pub name: Seq<char>,
    pub organization: GithubUserView,
}

impl InitializedGithubRepoView {
    /// The canonical address of the repository.
    pub open spec fn full_url(self) -> Seq<char> {
        "https://github.com/"@ + self.organization.name() + seq!['/'] + self.name
    }
}

impl View for InitializedGithubRepo {
    type V = InitializedGithubRepoView;

    open spec fn view(&self) -> InitializedGithubRepoView {
        InitializedGithubRepoView { name: self.name@, organization: self.organization@ }
    }
}

impl Clone for InitializedGithubRepo {
    fn clone(&self) -> (r: Self)
        ensures
            r == *self,
    {
        InitializedGithubRepo { name: self.name.clone(), organization: self.organization.clone() }
    }
}

/// A created remote repository; one variant per supported code host.
#[derive(Debug, PartialEq, Eq)]
pub enum InitializedRepo {
    Github(InitializedGithubRepo),
}

#[verifier::ext_equal]
pub enum InitializedRepoView {
    Github(InitializedGithubRepoView),
}

impl InitializedRepoView {
    /// The repository name on its host.
    pub open spec fn name(self) -> Seq<char> {
        match self {
            InitializedRepoView::Github(g) => g.name,
        }
    }

    /// The canonical address of the repository.
    pub open spec fn full_url(self) -> Seq<char> {
        match self {
            InitializedRepoView::Github(g) => g.full_url(),
        }
    }
}

impl View for InitializedRepo {
    type V = InitializedRepoView;

    open spec fn view(&self) -> InitializedRepoView {
        match self {
            InitializedRepo::Github(g) => InitializedRepoView::Github(g@),
        }
    }
}

impl Clone for InitializedRepo {
    fn clone(&self) -> (r: Self)
        ensures
            r == *self,
    {
        match self {
            InitializedRepo::Github(g) => InitializedRepo::Github(g.clone()),
        }
    }
}

impl InitializedRepo {
    /// The canonical URL of the repository on its host.
    pub fn full_url(&self) -> (u: String)
        ensures
            u@ == self@.full_url(),
    {
        match self {
            InitializedRepo::Github(g) => {
                let mut u = String::new();
                u.append("https://github.com/");
                u.append(g.organization.get_name().as_str());
                u.append("/");
                u.append(g.name.as_str());
                proof {
                    reveal_strlit("/");
                    assert(u@ =~= self@.full_url());
                }
                u
            },
        }
    }

    /// The repository name on its host.
    pub fn name(&self) -> (n: &String)
        ensures
            n@ == self@.name(),
    {
        match self {
            InitializedRepo::Github(g) => &g.name,
        }
    }
}

/// A local working copy of a repository.
#[derive(Debug, PartialEq, Eq)]
pub struct InitializedSource {
    pub path: String,
}

#[verifier::ext_equal]
pub struct InitializedSourceView {
    pub path: Seq<char>,
}

impl View for InitializedSource {
    type V = InitializedSourceView;

    open spec fn view(&self) -> InitializedSourceView {
        InitializedSourceView { path: self.path@ }
    }
}

impl Clone for InitializedSource {
    fn clone(&self) -> (r: Self)
        ensures
            r == *self,
    {
        InitializedSource { path: self.path.clone() }
    }
}

/// Ecosystem identity of a Go module.
#[derive(Debug, PartialEq, Eq)]
pub struct InitializedGo {
    pub name: String,
    pub host: String,
}

#[verifier::ext_equal]
pub struct InitializedGoView {
    pub name: Seq<char>,
    pub host: Seq<char>,
}

impl View for InitializedGo {
    type V = InitializedGoView;

    open spec fn view(&self) -> InitializedGoView {
        InitializedGoView { name: self.name@, host: self.host@ }
    }
}

impl Clone for InitializedGo {
    fn clone(&self) -> (r: Self)
        ensures
            r == *self,
    {
        InitializedGo { name: self.name.clone(), host: self.host.clone() }
    }
}

/// Ecosystem identity of a Maven artifact.
#[derive(Debug, PartialEq, Eq)]
pub struct InitializedMaven {
    pub group_id: String,
    pub artifact_id: String,
}

#[verifier::ext_equal]
pub struct InitializedMavenView {
    pub group_id: Seq<char>,
    pub artifact_id: Seq<char>,
}

impl View for InitializedMaven {
    type V = InitializedMavenView;

    open spec fn view(&self) -> InitializedMavenView {
        InitializedMavenView { group_id: self.group_id@, artifact_id: self.artifact_id@ }
    }
}

impl Clone for InitializedMaven {
    fn clone(&self) -> (r: Self)
        ensures
            r == *self,
    {
        InitializedMaven { group_id: self.group_id.clone(), artifact_id: self.artifact_id.clone() }
    }
}

/// Assigned ecosystem identity; one variant per supported ecosystem kind.
#[derive(Debug, PartialEq, Eq)]
pub enum InitializedEcosystem {
    Go(InitializedGo),
    Maven(InitializedMaven),
}

#[verifier::ext_equal]
pub enum InitializedEcosystemView {
    Go(InitializedGoView),
    Maven(InitializedMavenView),
}

impl View for InitializedEcosystem {
    type V = InitializedEcosystemView;

    open spec fn view(&self) -> InitializedEcosystemView {
        match self {
            InitializedEcosystem::Go(g) => InitializedEcosystemView::Go(g@),
            InitializedEcosystem::Maven(m) => InitializedEcosystemView::Maven(m@),
        }
    }
}

impl Clone for InitializedEcosystem {
    fn clone(&self) -> (r: Self)
        ensures
            r == *self,
    {
        match self {
            InitializedEcosystem::Go(g) => InitializedEcosystem::Go(g.clone()),
            InitializedEcosystem::Maven(m) => InitializedEcosystem::Maven(m.clone()),
        }
    }
}

/// Parameters for creating a GitHub repository.
#[derive(Debug, PartialEq, Eq)]
pub struct GithubRepoParams {
    pub name: String,
    pub description: String,
    pub organization: GithubUser,
}

#[verifier::ext_equal]
pub struct GithubRepoParamsView {
    pub name: Seq<char>,
    pub description: Seq<char>,
    pub organization: GithubUserView,
}

impl View for GithubRepoParams {
    type V = GithubRepoParamsView;

    open spec fn view(&self) -> GithubRepoParamsView {
        GithubRepoParamsView {
            name: self.name@,
            description: self.description@,
            organization: self.organization@,
        }
    }
}

/// Parameters for creating a remote repository.
#[derive(Debug, PartialEq, Eq)]
pub enum RepoCreateParams {
    Github(GithubRepoParams),
}

#[verifier::ext_equal]
pub enum RepoCreateParamsView {
    Github(GithubRepoParamsView),
}

impl View for RepoCreateParams {
    type V = RepoCreateParamsView;

    open spec fn view(&self) -> RepoCreateParamsView {
        match self {
            RepoCreateParams::Github(g) => RepoCreateParamsView::Github(g@),
        }
    }
}

/// The repository that creation parameters describe: creation drops the
/// description and keeps name and owner.
pub open spec fn spec_repo_of_create(params: RepoCreateParamsView) -> InitializedRepoView {
    match params {
        RepoCreateParamsView::Github(g) => InitializedRepoView::Github(
            InitializedGithubRepoView { name: g.name, organization: g.organization },
        ),
    }
}

/// Parameters for assigning a Go module identity.
#[derive(Debug, PartialEq, Eq)]
pub struct GoParams {
    pub name: String,
    pub host: String,
}

#[verifier::ext_equal]
pub struct GoParamsView {
    pub name: Seq<char>,
    pub host: Seq<char>,
}

impl View for GoParams {
    type V = GoParamsView;

    open spec fn view(&self) -> GoParamsView {
        GoParamsView { name: self.name@, host: self.host@ }
    }
}

/// Parameters for assigning a Maven artifact identity.
#[derive(Debug, PartialEq, Eq)]
pub struct MavenParams {
    pub group_id: String,
    pub artifact_id: String,
}

#[verifier::ext_equal]
pub struct MavenParamsView {
    pub group_id: Seq<char>,
    pub artifact_id: Seq<char>,
}

impl View for MavenParams {
    type V = MavenParamsView;

    open spec fn view(&self) -> MavenParamsView {
        MavenParamsView { group_id: self.group_id@, artifact_id: self.artifact_id@ }
    }
}

/// Parameters for assigning an ecosystem identity.
#[derive(Debug, PartialEq, Eq)]
pub enum EcosystemInitializeParams {
    Go(GoParams),
    Maven(MavenParams),
}

#[verifier::ext_equal]
pub enum EcosystemInitializeParamsView {
    Go(GoParamsView),
    Maven(MavenParamsView),
}

impl View for EcosystemInitializeParams {
    type V = EcosystemInitializeParamsView;

    open spec fn view(&self) -> EcosystemInitializeParamsView {
        match self {
            EcosystemInitializeParams::Go(g) => EcosystemInitializeParamsView::Go(g@),
            EcosystemInitializeParams::Maven(m) => EcosystemInitializeParamsView::Maven(m@),
        }
    }
}

/// The ecosystem identity that assignment parameters describe.
pub open spec fn spec_ecosystem_of(
    params: EcosystemInitializeParamsView,
) -> InitializedEcosystemView {
    match params {
        EcosystemInitializeParamsView::Go(g) => InitializedEcosystemView::Go(
            InitializedGoView { name: g.name, host: g.host },
        ),
        EcosystemInitializeParamsView::Maven(m) => InitializedEcosystemView::Maven(
            InitializedMavenView { group_id: m.group_id, artifact_id: m.artifact_id },
        ),
    }
}

/// Parameters for checking a repository out locally.
#[derive(Debug, PartialEq, Eq)]
pub struct SourceInitializeParams {
    pub parent_path: String,
}

#[verifier::ext_equal]
pub struct SourceInitializeParamsView {
    pub parent_path: Seq<char>,
}

impl View for SourceInitializeParams {
    type V = SourceInitializeParamsView;

    open spec fn view(&self) -> SourceInitializeParamsView {
        SourceInitializeParamsView { parent_path: self.parent_path@ }
    }
}

/// Parameters for initializing a whole project.
#[derive(Debug, PartialEq, Eq)]
pub struct ProjectCreateParams {
    pub name: String,
    pub repo_params: RepoCreateParams,
    pub ecosystem_params: EcosystemInitializeParams,
    pub source_params: SourceInitializeParams,
}

#[verifier::ext_equal]
pub struct ProjectCreateParamsView {
    pub name: Seq<char>,
    pub repo_params: RepoCreateParamsView,
    pub ecosystem_params: EcosystemInitializeParamsView,
    pub source_params: SourceInitializeParamsView,
}

impl View for ProjectCreateParams {
    type V = ProjectCreateParamsView;

    open spec fn view(&self) -> ProjectCreateParamsView {
        ProjectCreateParamsView {
            name: self.name@,
            repo_params: self.repo_params@,
            ecosystem_params: self.ecosystem_params@,
            source_params: self.source_params@,
        }
    }
}

/// Parameters for fetching an initialized project by its URL.
#[derive(Debug, PartialEq, Eq)]
pub struct ProjectGetParams {
    pub project_url: String,
}

#[verifier::ext_equal]
pub struct ProjectGetParamsView {
    pub project_url: Seq<char>,
}

impl View for ProjectGetParams {
    type V = ProjectGetParamsView;

    open spec fn view(&self) -> ProjectGetParamsView {
        ProjectGetParamsView { project_url: self.project_url@ }
    }
}

impl Clone for ProjectGetParams {
    fn clone(&self) -> (r: Self)
        ensures
            r == *self,
    {
        ProjectGetParams { project_url: self.project_url.clone() }
    }
}

/// Parameters for looking up an already-created repository by URL.
#[derive(Debug, PartialEq, Eq)]
pub struct InitializedRepoGetParams {
    pub repo_url: String,
}

#[verifier::ext_equal]
pub struct InitializedRepoGetParamsView {
    pub repo_url: Seq<char>,
}

impl View for InitializedRepoGetParams {
    type V = InitializedRepoGetParamsView;

    open spec fn view(&self) -> InitializedRepoGetParamsView {
        InitializedRepoGetParamsView { repo_url: self.repo_url@ }
    }
}

/// A label attached to a facet or an output.
#[derive(Debug, PartialEq, Eq)]
pub enum Label {
    Custom(String),
}

#[verifier::ext_equal]
pub enum LabelView {
    Custom(Seq<char>),
}

impl View for Label {
    type V = LabelView;

    open spec fn view(&self) -> LabelView {
        match self {
            Label::Custom(s) => LabelView::Custom(s@),
        }
    }
}

impl Clone for Label {
    fn clone(&self) -> (r: Self)
        ensures
            r == *self,
    {
        match self {
            Label::Custom(s) => Label::Custom(s.clone()),
        }
    }
}

/// Clones a label list element by element.
pub fn clone_labels(labels: &Vec<Label>) -> (r: Vec<Label>)
    ensures
        r@ == labels@,
{
    let mut r: Vec<Label> = Vec::new();
    let mut i: usize = 0;
    while i < labels.len()
        invariant
            i <= labels.len(),
            r@ =~= labels@.subrange(0, i as int),
        decreases labels.len() - i,
    {
        r.push(labels[i].clone());
        i += 1;
    }
    assert(r@ =~= labels@);
    r
}

/// The kind of a derived build output.
#[derive(Debug, PartialEq, Eq, Clone, Copy, Structural)]
pub enum ProjectOutputType {
    SBOM,
}

/// A reference to a derived build output of a project.
#[derive(Debug, PartialEq, Eq)]
pub struct ProjectOutputReference {
    pub name: String,
    pub output_type: ProjectOutputType,
    pub labels: Vec<Label>,
}

#[verifier::ext_equal]
pub struct ProjectOutputReferenceView {
    pub name: Seq<char>,
    pub output_type: ProjectOutputType,
    pub labels: Seq<LabelView>,
}

impl View for ProjectOutputReference {
    type V = ProjectOutputReferenceView;

    open spec fn view(&self) -> ProjectOutputReferenceView {
        ProjectOutputReferenceView {
            name: self.name@,
            output_type: self.output_type,
            labels: self.labels@.map_values(|l: Label| l@),
        }
    }
}

/// A derived build output together with its payload.
#[derive(Debug, PartialEq, Eq)]
pub struct ProjectOutput {
    pub reference: ProjectOutputReference,
    pub output: String,
}

#[verifier::ext_equal]
pub struct ProjectOutputView {
    pub reference: ProjectOutputReferenceView,
    pub output: Seq<char>,
}

impl View for ProjectOutput {
    type V = ProjectOutputView;

    open spec fn view(&self) -> ProjectOutputView {
        ProjectOutputView { reference: self.reference@, output: self.output@ }
    }
}

} // verus!
