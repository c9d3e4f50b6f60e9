//! Facets: generated artifacts attached to a project, and the collection
//! that a project stores them in, keyed by facet type.

use vstd::prelude::*;
use vstd::seq_lib::*;

use crate::model::{InitializedEcosystem, InitializedEcosystemView, InitializedRepo,
    InitializedRepoView, InitializedSource, InitializedSourceView, Label, LabelView};

verus! {

/// The facet types the default policy knows about.
#[derive(Debug, PartialEq, Eq, Clone, Copy, Structural, Hash)]
pub enum SupportedFacetType {
    Readme,
    License,
    Gitignore,
    SecurityInsights,
    SlsaBuild,
    SbomGenerator,
    StaticCodeAnalysis,
    BranchProtection,
    CodeReview,
    VulnerabilityReporting,
}

/// The two facet categories: bundles of generated source files, and bundles
/// of API-derived records.
#[derive(Debug, PartialEq, Eq, Clone, Copy, Structural)]
pub enum FacetCategory {
    SourceBundle,
    APIBundle,
}

/// How a facet is addressed inside a project: today always by its type.
#[derive(Debug, PartialEq, Eq, Clone, Copy, Structural, Hash)]
pub enum FacetMapKey {
    Type(SupportedFacetType),
}

/// A generated file referenced by a source-bundle facet.
#[derive(Debug, PartialEq, Eq)]
pub struct SourceFile {
    pub name: String,
    pub path: String,
    pub hash: String,
}

#[verifier::ext_equal]
pub struct SourceFileView {
    pub name: Seq<char>,
    pub path: Seq<char>,
    pub hash: Seq<char>,
}

impl View for SourceFile {
    type V = SourceFileView;

    open spec fn view(&self) -> SourceFileView {
        SourceFileView { name: self.name@, path: self.path@, hash: self.hash@ }
    }
}

impl Clone for SourceFile {
    fn clone(&self) -> (r: Self)
        ensures
            r == *self,
    {
        SourceFile { name: self.name.clone(), path: self.path.clone(), hash: self.hash.clone() }
    }
}

/// One API call recorded by an API-bundle facet.
#[derive(Debug, PartialEq, Eq)]
pub struct APIContent {
    pub name: String,
    pub url: String,
    pub response: String,
}

#[verifier::ext_equal]
pub struct APIContentView {
    pub name: Seq<char>,
    pub url: Seq<char>,
    pub response: Seq<char>,
}

impl View for APIContent {
    type V = APIContentView;

    open spec fn view(&self) -> APIContentView {
        APIContentView { name: self.name@, url: self.url@, response: self.response@ }
    }
}

impl Clone for APIContent {
    fn clone(&self) -> (r: Self)
        ensures
            r == *self,
    {
        APIContent { name: self.name.clone(), url: self.url.clone(), response: self.response.clone() }
    }
}

/// A facet made of generated source files.  It carries either the file
/// descriptors or, after hydration, the fetched file contents — never both.
#[derive(Debug, PartialEq, Eq)]
pub struct SourceBundleFacet {
    pub source_files: Option<Vec<SourceFile>>,
    pub facet_type: SupportedFacetType,
    pub source_files_content: Option<Vec<(SourceFile, String)>>,
    pub labels: Vec<Label>,
}

#[verifier::ext_equal]
pub struct SourceBundleFacetView {
    pub source_files: Option<Seq<SourceFileView>>,
    pub facet_type: SupportedFacetType,
    pub source_files_content: Option<Seq<(SourceFileView, Seq<char>)>>,
    pub labels: Seq<LabelView>,
}

impl View for SourceBundleFacet {
    type V = SourceBundleFacetView;

    open spec fn view(&self) -> SourceBundleFacetView {
        SourceBundleFacetView {
            source_files: match self.source_files {
                Some(fs) => Some(fs@.map_values(|f: SourceFile| f@)),
                None => None,
            },
            facet_type: self.facet_type,
            source_files_content: match self.source_files_content {
                Some(cs) => Some(cs@.map_values(|c: (SourceFile, String)| (c.0@, c.1@))),
                None => None,
            },
            labels: self.labels@.map_values(|l: Label| l@),
        }
    }
}

impl SourceBundleFacetView {
    /// A source bundle never carries file descriptors and file contents at
    /// the same time: contents are filled in lazily, by hydration.
    pub open spec fn wf(self) -> bool {
        !(self.source_files is Some && self.source_files_content is Some)
    }
}

/// A facet made of recorded API calls.
#[derive(Debug, PartialEq, Eq)]
pub struct APIBundleFacet {
    pub apis: Vec<APIContent>,
    pub facet_type: SupportedFacetType,
    pub labels: Vec<Label>,
}

#[verifier::ext_equal]
pub struct APIBundleFacetView {
    pub apis: Seq<APIContentView>,
    pub facet_type: SupportedFacetType,
    pub labels: Seq<LabelView>,
}

impl View for APIBundleFacet {
    type V = APIBundleFacetView;

    open spec fn view(&self) -> APIBundleFacetView {
        APIBundleFacetView {
            apis: self.apis@.map_values(|a: APIContent| a@),
            facet_type: self.facet_type,
            labels: self.labels@.map_values(|l: Label| l@),
        }
    }
}

/// A generated artifact attached to a project.
#[derive(Debug, PartialEq, Eq)]
pub enum InitializedFacet {
    SourceBundle(SourceBundleFacet),
    APIBundle(APIBundleFacet),
}

#[verifier::ext_equal]
pub enum InitializedFacetView {
    SourceBundle(SourceBundleFacetView),
    APIBundle(APIBundleFacetView),
}

impl InitializedFacetView {
    pub open spec fn facet_type(self) -> SupportedFacetType {
        match self {
            InitializedFacetView::SourceBundle(s) => s.facet_type,
            InitializedFacetView::APIBundle(a) => a.facet_type,
        }
    }

    pub open spec fn category(self) -> FacetCategory {
        match self {
            InitializedFacetView::SourceBundle(_) => FacetCategory::SourceBundle,
            InitializedFacetView::APIBundle(_) => FacetCategory::APIBundle,
        }
    }

    pub open spec fn wf(self) -> bool {
        match self {
            InitializedFacetView::SourceBundle(s) => s.wf(),
            InitializedFacetView::APIBundle(_) => true,
        }
    }
}

impl View for InitializedFacet {
    type V = InitializedFacetView;

    open spec fn view(&self) -> InitializedFacetView {
        match self {
            InitializedFacet::SourceBundle(s) => InitializedFacetView::SourceBundle(s@),
            InitializedFacet::APIBundle(a) => InitializedFacetView::APIBundle(a@),
        }
    }
}

impl InitializedFacet {
    /// The type tag of the facet, whichever category it belongs to.
    pub fn facet_type(&self) -> (t: SupportedFacetType)
        ensures
            t == self@.facet_type(),
    {
        match self {
            InitializedFacet::SourceBundle(s) => s.facet_type,
            InitializedFacet::APIBundle(a) => a.facet_type,
        }
    }
}

/// Parameters shared by every facet generator of one project.
#[derive(Debug, PartialEq, Eq)]
pub struct CommonFacetCreateParams {
    pub project_name: String,
    pub source: InitializedSource,
    pub repo: InitializedRepo,
    pub ecosystem: InitializedEcosystem,
}

#[verifier::ext_equal]
pub struct CommonFacetCreateParamsView {
    pub project_name: Seq<char>,
    pub source: InitializedSourceView,
    pub repo: InitializedRepoView,
    pub ecosystem: InitializedEcosystemView,
}

impl View for CommonFacetCreateParams {
    type V = CommonFacetCreateParamsView;

    open spec fn view(&self) -> CommonFacetCreateParamsView {
        CommonFacetCreateParamsView {
            project_name: self.project_name@,
            source: self.source@,
            repo: self.repo@,
            ecosystem: self.ecosystem@,
        }
    }
}

impl Clone for CommonFacetCreateParams {
    fn clone(&self) -> (r: Self)
        ensures
            r == *self,
    {
        CommonFacetCreateParams {
            project_name: self.project_name.clone(),
            source: self.source.clone(),
            repo: self.repo.clone(),
            ecosystem: self.ecosystem.clone(),
        }
    }
}

/// Parameters for generating one source-bundle facet.
#[derive(Debug, PartialEq, Eq)]
pub struct SourceBundleFacetCreateParams {
    pub common: CommonFacetCreateParams,
    pub facet_type: SupportedFacetType,
}

#[verifier::ext_equal]
pub struct SourceBundleFacetCreateParamsView {
    pub common: CommonFacetCreateParamsView,
    pub facet_type: SupportedFacetType,
}

impl View for SourceBundleFacetCreateParams {
    type V = SourceBundleFacetCreateParamsView;

    open spec fn view(&self) -> SourceBundleFacetCreateParamsView {
        SourceBundleFacetCreateParamsView { common: self.common@, facet_type: self.facet_type }
    }
}

/// Parameters for generating one API-bundle facet.
#[derive(Debug, PartialEq, Eq)]
pub struct APIBundleFacetCreateParams {
    pub common: CommonFacetCreateParams,
    pub facet_type: SupportedFacetType,
}

#[verifier::ext_equal]
pub struct APIBundleFacetCreateParamsView {
    pub common: CommonFacetCreateParamsView,
    pub facet_type: SupportedFacetType,
}

impl View for APIBundleFacetCreateParams {
    type V = APIBundleFacetCreateParamsView;

    open spec fn view(&self) -> APIBundleFacetCreateParamsView {
        APIBundleFacetCreateParamsView { common: self.common@, facet_type: self.facet_type }
    }
}

/// Parameters for generating one facet of either category.
#[derive(Debug, PartialEq, Eq)]
pub enum FacetCreateParams {
    SourceBundle(SourceBundleFacetCreateParams),
    APIBundle(APIBundleFacetCreateParams),
}

#[verifier::ext_equal]
pub enum FacetCreateParamsView {
    SourceBundle(SourceBundleFacetCreateParamsView),
    APIBundle(APIBundleFacetCreateParamsView),
}

impl FacetCreateParamsView {
    pub open spec fn category(self) -> FacetCategory {
        match self {
            FacetCreateParamsView::SourceBundle(_) => FacetCategory::SourceBundle,
            FacetCreateParamsView::APIBundle(_) => FacetCategory::APIBundle,
        }
    }
}

impl View for FacetCreateParams {
    type V = FacetCreateParamsView;

    open spec fn view(&self) -> FacetCreateParamsView {
        match self {
            FacetCreateParams::SourceBundle(s) => FacetCreateParamsView::SourceBundle(s@),
            FacetCreateParams::APIBundle(a) => FacetCreateParamsView::APIBundle(a@),
        }
    }
}

/// Parameters for generating a whole set of facets, in order.
#[derive(Debug, PartialEq, Eq)]
pub struct FacetSetCreateParams {
    pub facets_params: Vec<FacetCreateParams>,
}

#[verifier::ext_equal]
pub struct FacetSetCreateParamsView {
    pub facets_params: Seq<FacetCreateParamsView>,
}

impl View for FacetSetCreateParams {
    type V = FacetSetCreateParamsView;

    open spec fn view(&self) -> FacetSetCreateParamsView {
        FacetSetCreateParamsView {
            facets_params: self.facets_params@.map_values(|p: FacetCreateParams| p@),
        }
    }
}

/// One entry of a project's facet collection.
pub type FacetEntryView = (FacetMapKey, InitializedFacetView);

/// Whether some entry carries the given key.
pub open spec fn entries_contain_key(s: Seq<FacetEntryView>, k: FacetMapKey) -> bool {
    exists|i: int| 0 <= i < s.len() && s[i].0 == k
}

/// The facet stored under a key: the first entry with that key, if any.
pub open spec fn spec_lookup(s: Seq<FacetEntryView>, k: FacetMapKey) -> Option<InitializedFacetView>
    decreases s.len(),
{
    if s.len() == 0 {
        None
    } else if s[0].0 == k {
        Some(s[0].1)
    } else {
        spec_lookup(s.drop_first(), k)
    }
}

/// Entry lists are well formed when no key repeats.
pub open spec fn entries_wf(s: Seq<FacetEntryView>) -> bool {
    forall|i: int, j: int| 0 <= i < j < s.len() ==> (#[trigger] s[i]).0 != (#[trigger] s[j]).0
}

/// The keys of the entries, in entry order.
pub open spec fn key_seq(s: Seq<FacetEntryView>) -> Seq<FacetMapKey> {
    s.map_values(|e: FacetEntryView| e.0)
}

pub proof fn lemma_lookup_first(s: Seq<FacetEntryView>, k: FacetMapKey, i: int)
    requires
        0 <= i < s.len(),
        s[i].0 == k,
        forall|j: int| 0 <= j < i ==> (#[trigger] s[j]).0 != k,
    ensures
        spec_lookup(s, k) == Some(s[i].1),
    decreases i,
{
    if i > 0 {
        lemma_lookup_first(s.drop_first(), k, i - 1);
    }
}

pub proof fn lemma_lookup_absent(s: Seq<FacetEntryView>, k: FacetMapKey)
    requires
        forall|j: int| 0 <= j < s.len() ==> (#[trigger] s[j]).0 != k,
    ensures
        spec_lookup(s, k) is None,
    decreases s.len(),
{
    if s.len() > 0 {
        lemma_lookup_absent(s.drop_first(), k);
    }
}

/// A key is found exactly when some entry carries it.
pub proof fn lemma_lookup_contains(s: Seq<FacetEntryView>, k: FacetMapKey)
    ensures
        spec_lookup(s, k) is Some <==> entries_contain_key(s, k),
    decreases s.len(),
{
    if s.len() > 0 && s[0].0 != k {
        lemma_lookup_contains(s.drop_first(), k);
        if entries_contain_key(s.drop_first(), k) {
            let i = choose|i: int| 0 <= i < s.drop_first().len() && s.drop_first()[i].0 == k;
            assert(s[i + 1].0 == k);
        }
        if entries_contain_key(s, k) {
            let i = choose|i: int| 0 <= i < s.len() && s[i].0 == k;
            assert(s.drop_first()[i - 1].0 == k);
        }
    }
}

proof fn lemma_lookup_update_other(s: Seq<FacetEntryView>, i: int, e: FacetEntryView, k2: FacetMapKey)
    requires
        0 <= i < s.len(),
        s[i].0 == e.0,
        k2 != e.0,
    ensures
        spec_lookup(s.update(i, e), k2) == spec_lookup(s, k2),
    decreases s.len(),
{
    let t = s.update(i, e);
    if i == 0 {
        assert(t.drop_first() =~= s.drop_first());
    } else {
        assert(t[0] == s[0]);
        if s[0].0 != k2 {
            assert(t.drop_first() =~= s.drop_first().update(i - 1, e));
            lemma_lookup_update_other(s.drop_first(), i - 1, e, k2);
        }
    }
}

proof fn lemma_lookup_push_other(s: Seq<FacetEntryView>, e: FacetEntryView, k2: FacetMapKey)
    requires
        k2 != e.0,
    ensures
        spec_lookup(s.push(e), k2) == spec_lookup(s, k2),
    decreases s.len(),
{
    let t = s.push(e);
    if s.len() == 0 {
        assert(t[0] == e);
        assert(t.drop_first() =~= Seq::<FacetEntryView>::empty());
        assert(spec_lookup(t, k2) == spec_lookup(t.drop_first(), k2));
        assert(spec_lookup(t.drop_first(), k2) is None);
    } else {
        assert(t[0] == s[0]);
        if s[0].0 == k2 {
            assert(spec_lookup(t, k2) == Some(t[0].1));
        } else {
            lemma_lookup_push_other(s.drop_first(), e, k2);
            assert(t.drop_first() =~= s.drop_first().push(e));
            assert(spec_lookup(t, k2) == spec_lookup(t.drop_first(), k2));
        }
    }
}

/// A project's facet collection: one facet per key, insertion order kept,
/// later insertions under an existing key overwriting the earlier facet.
#[derive(Debug)]
pub struct FacetMap {
    pub entries: Vec<(FacetMapKey, InitializedFacet)>,
}

impl View for FacetMap {
    type V = Seq<FacetEntryView>;

    open spec fn view(&self) -> Seq<FacetEntryView> {
        self.entries@.map_values(|e: (FacetMapKey, InitializedFacet)| (e.0, e.1@))
    }
}

impl FacetMap {
    pub open spec fn wf(self) -> bool {
        entries_wf(self@)
    }

    /// The empty collection.
    pub fn new() -> (m: FacetMap)
        ensures
            m@ =~= Seq::<FacetEntryView>::empty(),
            m.wf(),
    {
        FacetMap { entries: Vec::new() }
    }

    /// How many facets are stored.
    pub fn len(&self) -> (n: usize)
        ensures
            n == self@.len(),
    {
        self.entries.len()
    }

    /// Stores a facet under a key: replaces the facet of an existing entry
    /// with the same key, or appends a new entry.
    pub fn insert(&mut self, key: FacetMapKey, value: InitializedFacet)
        requires
            old(self).wf(),
        ensures
            final(self).wf(),
            spec_lookup(final(self)@, key) == Some(value@),
            forall|k2: FacetMapKey| k2 != key ==> spec_lookup(final(self)@, k2) == spec_lookup(
                old(self)@,
                k2,
            ),
            final(self)@.len() == if entries_contain_key(old(self)@, key) {
                old(self)@.len()
            } else {
                old(self)@.len() + 1
            },
            forall|k2: FacetMapKey|
                entries_contain_key(final(self)@, k2) <==> (entries_contain_key(old(self)@, k2)
                    || k2 == key),
    {
        let mut i: usize = 0;
        while i < self.entries.len()
            invariant
                i <= self.entries.len(),
                self@ == old(self)@,
                entries_wf(old(self)@),
                forall|j: int| 0 <= j < i ==> (#[trigger] old(self)@[j]).0 != key,
            decreases self.entries.len() - i,
        {
            let ghost prev = old(self)@;
            if self.entries[i].0 == key {
                proof {
                    assert(prev[i as int].0 == key);
                }
                self.entries.remove(i);
                self.entries.insert(i, (key, value));
                proof {
                    assert(self@ =~= prev.update(i as int, (key, value@)));
                    assert(self@[i as int].0 == key);
                    lemma_lookup_first(self@, key, i as int);
                    assert forall|k2: FacetMapKey| k2 != key implies spec_lookup(self@, k2)
                        == spec_lookup(prev, k2) by {
                        lemma_lookup_update_other(prev, i as int, (key, value@), k2);
                    }
                    assert(entries_contain_key(prev, key));
                    assert forall|k2: FacetMapKey|
                        entries_contain_key(self@, k2) <==> (entries_contain_key(prev, k2) || k2
                            == key) by {
                        lemma_lookup_contains(self@, k2);
                        lemma_lookup_contains(prev, k2);
                    }
                }
                return ;
            }
            proof {
                assert(prev[i as int].0 != key);
            }
            i += 1;
        }
        let ghost prev = old(self)@;
        self.entries.push((key, value));
        proof {
            assert(self@ =~= prev.push((key, value@)));
            assert(self@[prev.len() as int] == (key, value@));
            lemma_lookup_first(self@, key, prev.len() as int);
            assert forall|k2: FacetMapKey| k2 != key implies spec_lookup(self@, k2) == spec_lookup(
                prev,
                k2,
            ) by {
                lemma_lookup_push_other(prev, (key, value@), k2);
            }
            assert(!entries_contain_key(prev, key));
            assert forall|k2: FacetMapKey|
                entries_contain_key(self@, k2) <==> (entries_contain_key(prev, k2) || k2
                    == key) by {
                lemma_lookup_contains(self@, k2);
                lemma_lookup_contains(prev, k2);
            }
        }
    }

    /// Borrows the facet stored under a key.
    pub fn get(&self, key: &FacetMapKey) -> (r: Option<&InitializedFacet>)
        ensures
            match r {
                Some(f) => spec_lookup(self@, *key) == Some(f@),
                None => spec_lookup(self@, *key) is None,
            },
    {
        let mut i: usize = 0;
        while i < self.entries.len()
            invariant
                i <= self.entries.len(),
                forall|j: int| 0 <= j < i ==> (#[trigger] self@[j]).0 != *key,
            decreases self.entries.len() - i,
        {
            if self.entries[i].0 == *key {
                proof {
                    assert(self@[i as int].0 == *key);
                    lemma_lookup_first(self@, *key, i as int);
                }
                return Some(&self.entries[i].1);
            }
            proof {
                assert(self@[i as int].0 != *key);
            }
            i += 1;
        }
        proof {
            lemma_lookup_absent(self@, *key);
        }
        None
    }

    /// Moves the facet stored under a key out of the collection.
    pub fn take(&mut self, key: &FacetMapKey) -> (r: Option<InitializedFacet>)
        ensures
            match r {
                Some(f) => spec_lookup(old(self)@, *key) == Some(f@),
                None => spec_lookup(old(self)@, *key) is None,
            },
    {
        let mut i: usize = 0;
        while i < self.entries.len()
            invariant
                i <= self.entries.len(),
                self@ == old(self)@,
                forall|j: int| 0 <= j < i ==> (#[trigger] old(self)@[j]).0 != *key,
            decreases self.entries.len() - i,
        {
            let ghost prev = old(self)@;
            if self.entries[i].0 == *key {
                proof {
                    assert(prev[i as int].0 == *key);
                    lemma_lookup_first(prev, *key, i as int);
                }
                let e = self.entries.remove(i);
                return Some(e.1);
            }
            proof {
                assert(prev[i as int].0 != *key);
            }
            i += 1;
        }
        proof {
            lemma_lookup_absent(old(self)@, *key);
        }
        None
    }

    /// The keys of the stored facets, in storage order.
    pub fn keys(&self) -> (ks: Vec<FacetMapKey>)
        ensures
            ks@ == key_seq(self@),
    {
        let mut ks: Vec<FacetMapKey> = Vec::new();
        let mut i: usize = 0;
        while i < self.entries.len()
            invariant
                i <= self.entries.len(),
                ks@ =~= key_seq(self@).subrange(0, i as int),
            decreases self.entries.len() - i,
        {
            ks.push(self.entries[i].0);
            i += 1;
        }
        assert(ks@ =~= key_seq(self@));
        ks
    }

    /// Rebuilds a collection from raw entries, refusing a repeated key.
    pub fn from_entries(entries: Vec<(FacetMapKey, InitializedFacet)>) -> (r: Option<FacetMap>)
        ensures
            match r {
                Some(m) => m@ == entries@.map_values(
                    |e: (FacetMapKey, InitializedFacet)| (e.0, e.1@),
                ) && m.wf(),
                None => !entries_wf(
                    entries@.map_values(|e: (FacetMapKey, InitializedFacet)| (e.0, e.1@)),
                ),
            },
    {
        let ghost v = entries@.map_values(|e: (FacetMapKey, InitializedFacet)| (e.0, e.1@));
        proof {
            assert(v.len() == entries@.len());
        }
        let mut i: usize = 1;
        while i < entries.len()
            invariant
                1 <= i,
                i <= entries.len() || entries.len() == 0,
                v.len() == entries@.len(),
                v == entries@.map_values(|e: (FacetMapKey, InitializedFacet)| (e.0, e.1@)),
                forall|a: int, b: int| 0 <= a < b < i && b < v.len() ==> (#[trigger] v[a]).0 != (
                #[trigger] v[b]).0,
            decreases entries.len() - i,
        {
            let mut j: usize = 0;
            while j < i
                invariant
                    j <= i,
                    i < entries.len(),
                    v.len() == entries@.len(),
                    v == entries@.map_values(|e: (FacetMapKey, InitializedFacet)| (e.0, e.1@)),
                    forall|a: int| 0 <= a < j ==> (#[trigger] v[a]).0 != v[i as int].0,
                decreases i - j,
            {
                if entries[j].0 == entries[i].0 {
                    proof {
                        assert(v[j as int].0 == v[i as int].0);
                        assert(!entries_wf(v));
                    }
                    return None;
                }
                proof {
                    assert(v[j as int].0 != v[i as int].0);
                }
                j += 1;
            }
            i += 1;
        }
        proof {
            assert(entries_wf(v));
        }
        Some(FacetMap { entries })
    }
}

/// What a key resolves to after merging a facet list by type, later facets
/// overwriting earlier ones with the same type: the last facet whose type
/// matches the key.
pub open spec fn spec_merge_lookup(fs: Seq<InitializedFacetView>, k: FacetMapKey) -> Option<
    InitializedFacetView,
>
    decreases fs.len(),
{
    if fs.len() == 0 {
        None
    } else if FacetMapKey::Type(fs.last().facet_type()) == k {
        Some(fs.last())
    } else {
        spec_merge_lookup(fs.drop_last(), k)
    }
}

/// The type-derived key of each facet, in facet order.
pub open spec fn spec_type_keys(fs: Seq<InitializedFacetView>) -> Seq<FacetMapKey> {
    fs.map_values(|f: InitializedFacetView| FacetMapKey::Type(f.facet_type()))
}

proof fn lemma_merge_lookup_contains(fs: Seq<InitializedFacetView>, k: FacetMapKey)
    ensures
        spec_merge_lookup(fs, k) is Some <==> spec_type_keys(fs).to_set().contains(k),
    decreases fs.len(),
{
    if fs.len() > 0 {
        let ks = spec_type_keys(fs);
        lemma_merge_lookup_contains(fs.drop_last(), k);
        assert(spec_type_keys(fs.drop_last()) =~= ks.drop_last());
        assert(ks[fs.len() - 1] == FacetMapKey::Type(fs.last().facet_type()));
        if FacetMapKey::Type(fs.last().facet_type()) == k {
            assert(ks.contains(k));
        } else {
            if ks.to_set().contains(k) {
                let i = choose|i: int| 0 <= i < ks.len() && ks[i] == k;
                assert(i < fs.len() - 1);
                assert(ks.drop_last()[i] == k);
                assert(ks.drop_last().contains(k));
            }
            if ks.drop_last().to_set().contains(k) {
                let i = choose|i: int| 0 <= i < ks.drop_last().len() && ks.drop_last()[i] == k;
                assert(ks[i] == k);
                assert(ks.contains(k));
            }
        }
    }
}

/// Merges generated facets into a facet collection keyed by type, in order,
/// a later facet silently overwriting an earlier facet of the same type.
pub fn merge_facets(facets: Vec<InitializedFacet>) -> (m: FacetMap)
    ensures
        m.wf(),
        forall|k: FacetMapKey| spec_lookup(m@, k) == spec_merge_lookup(
            facets@.map_values(|f: InitializedFacet| f@),
            k,
        ),
{
    let ghost fv = facets@.map_values(|f: InitializedFacet| f@);
    let mut m = FacetMap::new();
    proof {
        assert forall|k: FacetMapKey| spec_lookup(m@, k) == spec_merge_lookup(
            fv.subrange(0, 0),
            k,
        ) by {
            assert(fv.subrange(0, 0).len() == 0);
        }
    }
    let mut i: usize = 0;
    while i < facets.len()
        invariant
            i <= facets.len(),
            fv == facets@.map_values(|f: InitializedFacet| f@),
            m.wf(),
            forall|k: FacetMapKey| spec_lookup(m@, k) == spec_merge_lookup(
                fv.subrange(0, i as int),
                k,
            ),
        decreases facets.len() - i,
    {
        let f = match &facets[i] {
            InitializedFacet::SourceBundle(s) => InitializedFacet::SourceBundle(
                SourceBundleFacet {
                    source_files: match &s.source_files {
                        Some(fs) => Some(clone_source_files(fs)),
                        None => None,
                    },
                    facet_type: s.facet_type,
                    source_files_content: match &s.source_files_content {
                        Some(cs) => Some(clone_content_pairs(cs)),
                        None => None,
                    },
                    labels: crate::model::clone_labels(&s.labels),
                },
            ),
            InitializedFacet::APIBundle(a) => InitializedFacet::APIBundle(
                APIBundleFacet {
                    apis: clone_api_contents(&a.apis),
                    facet_type: a.facet_type,
                    labels: crate::model::clone_labels(&a.labels),
                },
            ),
        };
        assert(f@ =~~= fv[i as int]);
        let t = f.facet_type();
        m.insert(FacetMapKey::Type(t), f);
        proof {
            let pre = fv.subrange(0, i as int);
            let post = fv.subrange(0, i + 1 as int);
            assert(post.drop_last() =~= pre);
            assert(post.last() == fv[i as int]);
            assert forall|k: FacetMapKey| spec_lookup(m@, k) == spec_merge_lookup(post, k) by {
                if k == FacetMapKey::Type(fv[i as int].facet_type()) {
                } else {
                }
            }
        }
        i += 1;
    }
    proof {
        assert(fv.subrange(0, facets@.len() as int) =~= fv);
    }
    m
}

/// Clones a source-file list element by element.
pub fn clone_source_files(fs: &Vec<SourceFile>) -> (r: Vec<SourceFile>)
    ensures
        r@ == fs@,
{
    let mut r: Vec<SourceFile> = Vec::new();
    let mut i: usize = 0;
    while i < fs.len()
        invariant
            i <= fs.len(),
            r@ =~= fs@.subrange(0, i as int),
        decreases fs.len() - i,
    {
        r.push(fs[i].clone());
        i += 1;
    }
    assert(r@ =~= fs@);
    r
}

/// Clones a file-content pair list element by element.
pub fn clone_content_pairs(cs: &Vec<(SourceFile, String)>) -> (r: Vec<(SourceFile, String)>)
    ensures
        r@ == cs@,
{
    let mut r: Vec<(SourceFile, String)> = Vec::new();
    let mut i: usize = 0;
    while i < cs.len()
        invariant
            i <= cs.len(),
            r@ =~= cs@.subrange(0, i as int),
        decreases cs.len() - i,
    {
        let p = (cs[i].0.clone(), cs[i].1.clone());
        r.push(p);
        i += 1;
    }
    assert(r@ =~= cs@);
    r
}

/// Clones an API-record list element by element.
pub fn clone_api_contents(apis: &Vec<APIContent>) -> (r: Vec<APIContent>)
    ensures
        r@ == apis@,
{
    let mut r: Vec<APIContent> = Vec::new();
    let mut i: usize = 0;
    while i < apis.len()
        invariant
            i <= apis.len(),
            r@ =~= apis@.subrange(0, i as int),
        decreases apis.len() - i,
    {
        r.push(apis[i].clone());
        i += 1;
    }
    assert(r@ =~= apis@);
    r
}

/// Whatever a merged collection resolves a key to is one of the merged
/// facets, and the key is the type-derived key of that facet.
pub proof fn lemma_merge_lookup_props(fs: Seq<InitializedFacetView>, k: FacetMapKey)
    ensures
        spec_merge_lookup(fs, k) matches Some(f) ==> fs.contains(f) && k == FacetMapKey::Type(
            f.facet_type(),
        ),
    decreases fs.len(),
{
    if fs.len() > 0 {
        if FacetMapKey::Type(fs.last().facet_type()) == k {
            assert(fs[fs.len() - 1] == fs.last());
        } else {
            lemma_merge_lookup_props(fs.drop_last(), k);
            if spec_merge_lookup(fs.drop_last(), k) is Some {
                let f = spec_merge_lookup(fs.drop_last(), k)->Some_0;
                let i = choose|i: int| 0 <= i < fs.drop_last().len() && fs.drop_last()[i] == f;
                assert(fs[i] == f);
            }
        }
    }
}

/// In a well-formed collection, every stored entry is what its own key
/// resolves to.
pub proof fn lemma_wf_entries_lookup(s: Seq<FacetEntryView>)
    requires
        entries_wf(s),
    ensures
        forall|i: int| 0 <= i < s.len() ==> spec_lookup(s, (#[trigger] s[i]).0) == Some(s[i].1),
{
    assert forall|i: int| 0 <= i < s.len() implies spec_lookup(s, s[i].0) == Some(s[i].1) by {
        lemma_lookup_first(s, s[i].0, i);
    }
}

/// Law: the listed keys of a facet collection are exactly the keys that
/// resolve to a stored facet — no listed key misses, no stored facet's key
/// goes unlisted.
pub proof fn lemma_key_seq_is_exactly_the_key_set(s: Seq<FacetEntryView>)
    ensures
        forall|k: FacetMapKey| key_seq(s).contains(k) <==> spec_lookup(s, k) is Some,
{
    assert forall|k: FacetMapKey| key_seq(s).contains(k) <==> spec_lookup(s, k) is Some by {
        lemma_lookup_contains(s, k);
        if key_seq(s).contains(k) {
            let i = choose|i: int| 0 <= i < key_seq(s).len() && key_seq(s)[i] == k;
            assert(s[i].0 == k);
        }
        if entries_contain_key(s, k) {
            let i = choose|i: int| 0 <= i < s.len() && s[i].0 == k;
            assert(key_seq(s)[i] == k);
        }
    }
}

/// Law: a well-formed facet collection has exactly one entry per distinct
/// key, so its size is the number of distinct keys it holds.
pub proof fn lemma_facet_map_len_is_distinct_key_count(m: Seq<FacetEntryView>)
    requires
        entries_wf(m),
    ensures
        m.len() == key_seq(m).to_set().len(),
{
    assert(key_seq(m).no_duplicates());
    key_seq(m).unique_seq_to_set();
}

/// Law: merging facet lists by type yields exactly one entry per distinct
/// facet type occurring in the lists — colliding types collapse to one
/// entry, the last generated facet of that type winning.
pub proof fn lemma_merged_facet_count(m: Seq<FacetEntryView>, fs: Seq<InitializedFacetView>)
    requires
        entries_wf(m),
        forall|k: FacetMapKey| spec_lookup(m, k) == spec_merge_lookup(fs, k),
    ensures
        m.len() == spec_type_keys(fs).to_set().len(),
{
    lemma_facet_map_len_is_distinct_key_count(m);
    assert(key_seq(m).to_set() =~= spec_type_keys(fs).to_set()) by {
        assert forall|k: FacetMapKey|
            key_seq(m).to_set().contains(k) <==> spec_type_keys(fs).to_set().contains(k) by {
            lemma_merge_lookup_contains(fs, k);
            lemma_lookup_contains(m, k);
            if key_seq(m).to_set().contains(k) {
                let i = choose|i: int| 0 <= i < key_seq(m).len() && key_seq(m)[i] == k;
                assert(m[i].0 == k);
            }
            if entries_contain_key(m, k) {
                let i = choose|i: int| 0 <= i < m.len() && m[i].0 == k;
                assert(key_seq(m)[i] == k);
            }
        }
    }
}

} // verus!
