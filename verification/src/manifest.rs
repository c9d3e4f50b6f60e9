//! The persisted manifest codec.  A project is stored as one structured
//! text file inside its own repository; this module defines the encoding,
//! the decoder that `get` runs on fetched manifest text, and the proof that
//! any well-formed project round-trips through the two.
//!
//! The encoding needs no length arithmetic: strings are escaped and
//! terminated, lists carry one tag character per element, and enum variants
//! carry one tag character each.

use vstd::prelude::*;

use crate::facet::{APIBundleFacet, APIBundleFacetView, APIContent, APIContentView, FacetEntryView,
    FacetMap, FacetMapKey, InitializedFacet, InitializedFacetView, SourceBundleFacet,
    SourceBundleFacetView, SourceFile, SourceFileView, SupportedFacetType, entries_wf};
use crate::model::{GithubUser, GithubUserView, InitializedEcosystem, InitializedEcosystemView,
    InitializedGithubRepo, InitializedGithubRepoView, InitializedGo, InitializedGoView,
    InitializedMaven, InitializedMavenView, InitializedRepo, InitializedRepoView,
    InitializedSource, InitializedSourceView, Label, LabelView, SkootError};
use crate::project::{InitializedProject, InitializedProjectView};

verus! {

/// Relies on String::push: appends exactly one character to the string.
#[verifier::external_body]
fn push_char(s: &mut String, c: char)
    ensures
        final(s)@ == old(s)@ + seq![c],
{
    s.push(c);
}

/// How one character is written inside an encoded string: the escape
/// character and the terminator are preceded by the escape character.
pub open spec fn spec_esc(c: char) -> Seq<char> {
    if c == '\\' || c == ';' {
        seq!['\\', c]
    } else {
        seq![c]
    }
}

/// An encoded string: every character escaped as needed, then a terminator.
pub open spec fn spec_enc_str(s: Seq<char>) -> Seq<char>
    decreases s.len(),
{
    if s.len() == 0 {
        seq![';']
    } else {
        spec_esc(s[0]) + spec_enc_str(s.skip(1))
    }
}

/// Reads one encoded string off the front of the input, returning it with
/// the unconsumed remainder.
pub open spec fn spec_dec_str(s: Seq<char>) -> Option<(Seq<char>, Seq<char>)>
    decreases s.len(),
{
    if s.len() == 0 {
        None
    } else if s[0] == ';' {
        Some((Seq::empty(), s.skip(1)))
    } else if s[0] == '\\' {
        if s.len() < 2 {
            None
        } else {
            match spec_dec_str(s.skip(2)) {
                Some((v, r)) => Some((seq![s[1]] + v, r)),
                None => None,
            }
        }
    } else {
        match spec_dec_str(s.skip(1)) {
            Some((v, r)) => Some((seq![s[0]] + v, r)),
            None => None,
        }
    }
}

/// Whatever string is encoded, decoding reads it back exactly and leaves
/// exactly the trailing input.
pub proof fn lemma_enc_str_rt(v: Seq<char>, rest: Seq<char>)
    ensures
        spec_dec_str(spec_enc_str(v) + rest) == Some((v, rest)),
    decreases v.len(),
{
    let t = spec_enc_str(v) + rest;
    if v.len() == 0 {
        assert(t[0] == ';');
        assert(t.skip(1) =~= rest);
        assert(v =~= Seq::<char>::empty());
    } else {
        lemma_enc_str_rt(v.skip(1), rest);
        if v[0] == '\\' || v[0] == ';' {
            assert(t[0] == '\\');
            assert(t[1] == v[0]);
            assert(t.len() >= 2);
            assert(t.skip(2) =~= spec_enc_str(v.skip(1)) + rest);
            assert(seq![v[0]] + v.skip(1) =~= v);
        } else {
            assert(t[0] == v[0]);
            assert(t.skip(1) =~= spec_enc_str(v.skip(1)) + rest);
            assert(seq![v[0]] + v.skip(1) =~= v);
        }
    }
}

/// Appends the encoding of a string to the output.
fn enc_str_into(out: &mut String, s: &str)
    ensures
        final(out)@ == old(out)@ + spec_enc_str(s@),
{
    let n = s.unicode_len();
    proof {
        assert(s@.skip(0) =~= s@);
    }
    let mut i: usize = 0;
    while i < n
        invariant
            n == s@.len(),
            i <= n,
            out@ + spec_enc_str(s@.skip(i as int)) == old(out)@ + spec_enc_str(s@),
        decreases n - i,
    {
        let c = s.get_char(i);
        let ghost pre = out@;
        if c == '\\' || c == ';' {
            push_char(out, '\\');
            push_char(out, c);
        } else {
            push_char(out, c);
        }
        proof {
            assert(out@ =~= pre + spec_esc(c));
            assert(s@.skip(i as int)[0] == s@[i as int]);
            assert(s@.skip(i as int).skip(1) =~= s@.skip(i + 1));
            assert(spec_enc_str(s@.skip(i as int)) == spec_esc(c) + spec_enc_str(
                s@.skip(i + 1),
            ));
            assert(pre + spec_enc_str(s@.skip(i as int)) =~= out@ + spec_enc_str(s@.skip(i + 1)));
        }
        i += 1;
    }
    proof {
        assert(s@.skip(n as int) =~= Seq::<char>::empty());
        assert(spec_enc_str(s@.skip(n as int)) == seq![';']);
    }
    push_char(out, ';');
    proof {
        assert(old(out)@ + spec_enc_str(s@) =~= final(out)@);
    }
}

/// An encoded list: one tag character before each element, then an end tag.
pub open spec fn spec_enc_list<T>(s: Seq<T>, enc: spec_fn(T) -> Seq<char>) -> Seq<char>
    decreases s.len(),
{
    if s.len() == 0 {
        seq!['e']
    } else {
        seq!['i'] + enc(s[0]) + spec_enc_list(s.skip(1), enc)
    }
}

/// Reads one encoded list off the front of the input.
pub open spec fn spec_dec_list<T>(
    s: Seq<char>,
    dec: spec_fn(Seq<char>) -> Option<(T, Seq<char>)>,
) -> Option<(Seq<T>, Seq<char>)>
    decreases s.len(),
{
    if s.len() == 0 {
        None
    } else if s[0] == 'e' {
        Some((Seq::empty(), s.skip(1)))
    } else if s[0] == 'i' {
        match dec(s.skip(1)) {
            Some(p) => {
                if p.1.len() < s.len() {
                    match spec_dec_list(p.1, dec) {
                        Some(q) => Some((seq![p.0] + q.0, q.1)),
                        None => None,
                    }
                } else {
                    None
                }
            },
            None => None,
        }
    } else {
        None
    }
}

/// Whatever list is encoded, decoding reads it back exactly, provided the
/// element codec itself round-trips.
pub proof fn lemma_enc_list_rt<T>(
    s: Seq<T>,
    enc: spec_fn(T) -> Seq<char>,
    dec: spec_fn(Seq<char>) -> Option<(T, Seq<char>)>,
    rest: Seq<char>,
)
    requires
        forall|v: T, r: Seq<char>| #[trigger] dec(enc(v) + r) == Some::<(T, Seq<char>)>((v, r)),
    ensures
        spec_dec_list(spec_enc_list(s, enc) + rest, dec) == Some((s, rest)),
    decreases s.len(),
{
    let t = spec_enc_list(s, enc) + rest;
    if s.len() == 0 {
        assert(t[0] == 'e');
        assert(t.skip(1) =~= rest);
        assert(s =~= Seq::<T>::empty());
    } else {
        let mid = spec_enc_list(s.skip(1), enc) + rest;
        assert(t[0] == 'i');
        assert(t.skip(1) =~= enc(s[0]) + mid);
        assert(dec(enc(s[0]) + mid) == Some::<(T, Seq<char>)>((s[0], mid)));
        assert(mid.len() < t.len());
        lemma_enc_list_rt(s.skip(1), enc, dec, rest);
        assert(seq![s[0]] + s.skip(1) =~= s);
    }
}

/// The encoding of a facet type: one tag character.
pub open spec fn spec_enc_facet_type(t: SupportedFacetType) -> Seq<char> {
    match t {
        SupportedFacetType::Readme => seq!['r'],
        SupportedFacetType::License => seq!['l'],
        SupportedFacetType::Gitignore => seq!['g'],
        SupportedFacetType::SecurityInsights => seq!['s'],
        SupportedFacetType::SlsaBuild => seq!['b'],
        SupportedFacetType::SbomGenerator => seq!['m'],
        SupportedFacetType::StaticCodeAnalysis => seq!['a'],
        SupportedFacetType::BranchProtection => seq!['p'],
        SupportedFacetType::CodeReview => seq!['c'],
        SupportedFacetType::VulnerabilityReporting => seq!['v'],
    }
}

pub open spec fn spec_dec_facet_type(s: Seq<char>) -> Option<(SupportedFacetType, Seq<char>)> {
    if s.len() == 0 {
        None
    } else {
        let r = s.skip(1);
        if s[0] == 'r' {
            Some((SupportedFacetType::Readme, r))
        } else if s[0] == 'l' {
            Some((SupportedFacetType::License, r))
        } else if s[0] == 'g' {
            Some((SupportedFacetType::Gitignore, r))
        } else if s[0] == 's' {
            Some((SupportedFacetType::SecurityInsights, r))
        } else if s[0] == 'b' {
            Some((SupportedFacetType::SlsaBuild, r))
        } else if s[0] == 'm' {
            Some((SupportedFacetType::SbomGenerator, r))
        } else if s[0] == 'a' {
            Some((SupportedFacetType::StaticCodeAnalysis, r))
        } else if s[0] == 'p' {
            Some((SupportedFacetType::BranchProtection, r))
        } else if s[0] == 'c' {
            Some((SupportedFacetType::CodeReview, r))
        } else if s[0] == 'v' {
            Some((SupportedFacetType::VulnerabilityReporting, r))
        } else {
            None
        }
    }
}

pub proof fn lemma_enc_facet_type_rt(t: SupportedFacetType, rest: Seq<char>)
    ensures
        spec_dec_facet_type(spec_enc_facet_type(t) + rest) == Some((t, rest)),
{
    let e = spec_enc_facet_type(t) + rest;
    assert(e[0] == spec_enc_facet_type(t)[0]);
    assert(e.skip(1) =~= rest);
}

/// The encoding of a label: a variant tag, then the label text.
pub open spec fn spec_enc_label(l: LabelView) -> Seq<char> {
    match l {
        LabelView::Custom(n) => seq!['c'] + spec_enc_str(n),
    }
}

pub open spec fn spec_dec_label(s: Seq<char>) -> Option<(LabelView, Seq<char>)> {
    if s.len() == 0 {
        None
    } else if s[0] == 'c' {
        match spec_dec_str(s.skip(1)) {
            Some(p) => Some((LabelView::Custom(p.0), p.1)),
            None => None,
        }
    } else {
        None
    }
}

pub proof fn lemma_enc_label_rt(l: LabelView, rest: Seq<char>)
    ensures
        spec_dec_label(spec_enc_label(l) + rest) == Some((l, rest)),
{
    let t = spec_enc_label(l) + rest;
    match l {
        LabelView::Custom(n) => {
            assert(t[0] == 'c');
            assert(t.skip(1) =~= spec_enc_str(n) + rest);
            lemma_enc_str_rt(n, rest);
        },
    }
}

/// The encoding of a source-file descriptor: name, path, hash.
pub open spec fn spec_enc_source_file(f: SourceFileView) -> Seq<char> {
    spec_enc_str(f.name) + spec_enc_str(f.path) + spec_enc_str(f.hash)
}

pub open spec fn spec_dec_source_file(s: Seq<char>) -> Option<(SourceFileView, Seq<char>)> {
    match spec_dec_str(s) {
        Some(p0) => match spec_dec_str(p0.1) {
            Some(p1) => match spec_dec_str(p1.1) {
                Some(p2) => Some(
                    (SourceFileView { name: p0.0, path: p1.0, hash: p2.0 }, p2.1),
                ),
                None => None,
            },
            None => None,
        },
        None => None,
    }
}

pub proof fn lemma_enc_source_file_rt(f: SourceFileView, rest: Seq<char>)
    ensures
        spec_dec_source_file(spec_enc_source_file(f) + rest) == Some((f, rest)),
{
    let t = spec_enc_source_file(f) + rest;
    assert(t =~= spec_enc_str(f.name) + (spec_enc_str(f.path) + (spec_enc_str(f.hash) + rest)));
    lemma_enc_str_rt(f.name, spec_enc_str(f.path) + (spec_enc_str(f.hash) + rest));
    lemma_enc_str_rt(f.path, spec_enc_str(f.hash) + rest);
    lemma_enc_str_rt(f.hash, rest);
}

/// The encoding of one hydrated file: its descriptor, then its content.
pub open spec fn spec_enc_content_pair(p: (SourceFileView, Seq<char>)) -> Seq<char> {
    spec_enc_source_file(p.0) + spec_enc_str(p.1)
}

pub open spec fn spec_dec_content_pair(s: Seq<char>) -> Option<
    ((SourceFileView, Seq<char>), Seq<char>),
> {
    match spec_dec_source_file(s) {
        Some(p0) => match spec_dec_str(p0.1) {
            Some(p1) => Some(((p0.0, p1.0), p1.1)),
            None => None,
        },
        None => None,
    }
}

pub proof fn lemma_enc_content_pair_rt(p: (SourceFileView, Seq<char>), rest: Seq<char>)
    ensures
        spec_dec_content_pair(spec_enc_content_pair(p) + rest) == Some((p, rest)),
{
    let t = spec_enc_content_pair(p) + rest;
    assert(t =~= spec_enc_source_file(p.0) + (spec_enc_str(p.1) + rest));
    lemma_enc_source_file_rt(p.0, spec_enc_str(p.1) + rest);
    lemma_enc_str_rt(p.1, rest);
}

/// The encoding of one recorded API call: name, URL, response.
pub open spec fn spec_enc_api(a: APIContentView) -> Seq<char> {
    spec_enc_str(a.name) + spec_enc_str(a.url) + spec_enc_str(a.response)
}

pub open spec fn spec_dec_api(s: Seq<char>) -> Option<(APIContentView, Seq<char>)> {
    match spec_dec_str(s) {
        Some(p0) => match spec_dec_str(p0.1) {
            Some(p1) => match spec_dec_str(p1.1) {
                Some(p2) => Some(
                    (APIContentView { name: p0.0, url: p1.0, response: p2.0 }, p2.1),
                ),
                None => None,
            },
            None => None,
        },
        None => None,
    }
}

pub proof fn lemma_enc_api_rt(a: APIContentView, rest: Seq<char>)
    ensures
        spec_dec_api(spec_enc_api(a) + rest) == Some((a, rest)),
{
    let t = spec_enc_api(a) + rest;
    assert(t =~= spec_enc_str(a.name) + (spec_enc_str(a.url) + (spec_enc_str(a.response) + rest)));
    lemma_enc_str_rt(a.name, spec_enc_str(a.url) + (spec_enc_str(a.response) + rest));
    lemma_enc_str_rt(a.url, spec_enc_str(a.response) + rest);
    lemma_enc_str_rt(a.response, rest);
}

/// The element codecs, as function values, so that list encodings written in
/// different places denote the same functions.
pub open spec fn enc_source_file_fn() -> spec_fn(SourceFileView) -> Seq<char> {
    |f: SourceFileView| spec_enc_source_file(f)
}

pub open spec fn dec_source_file_fn() -> spec_fn(Seq<char>) -> Option<(SourceFileView, Seq<char>)> {
    |s: Seq<char>| spec_dec_source_file(s)
}

pub open spec fn enc_content_pair_fn() -> spec_fn((SourceFileView, Seq<char>)) -> Seq<char> {
    |p: (SourceFileView, Seq<char>)| spec_enc_content_pair(p)
}

pub open spec fn dec_content_pair_fn() -> spec_fn(Seq<char>) -> Option<
    ((SourceFileView, Seq<char>), Seq<char>),
> {
    |s: Seq<char>| spec_dec_content_pair(s)
}

pub open spec fn enc_label_fn() -> spec_fn(LabelView) -> Seq<char> {
    |l: LabelView| spec_enc_label(l)
}

pub open spec fn dec_label_fn() -> spec_fn(Seq<char>) -> Option<(LabelView, Seq<char>)> {
    |s: Seq<char>| spec_dec_label(s)
}

pub open spec fn enc_api_fn() -> spec_fn(APIContentView) -> Seq<char> {
    |a: APIContentView| spec_enc_api(a)
}

pub open spec fn dec_api_fn() -> spec_fn(Seq<char>) -> Option<(APIContentView, Seq<char>)> {
    |s: Seq<char>| spec_dec_api(s)
}

/// The encoding of an optional file-descriptor list.
pub open spec fn spec_enc_opt_files(o: Option<Seq<SourceFileView>>) -> Seq<char> {
    match o {
        None => seq!['n'],
        Some(v) => seq!['x'] + spec_enc_list(v, enc_source_file_fn()),
    }
}

pub open spec fn spec_dec_opt_files(s: Seq<char>) -> Option<
    (Option<Seq<SourceFileView>>, Seq<char>),
> {
    if s.len() == 0 {
        None
    } else if s[0] == 'n' {
        Some((None, s.skip(1)))
    } else if s[0] == 'x' {
        match spec_dec_list(s.skip(1), dec_source_file_fn()) {
            Some(p) => Some((Some(p.0), p.1)),
            None => None,
        }
    } else {
        None
    }
}

pub proof fn lemma_enc_opt_files_rt(o: Option<Seq<SourceFileView>>, rest: Seq<char>)
    ensures
        spec_dec_opt_files(spec_enc_opt_files(o) + rest) == Some((o, rest)),
{
    let t = spec_enc_opt_files(o) + rest;
    match o {
        None => {
            assert(t[0] == 'n');
            assert(t.skip(1) =~= rest);
        },
        Some(v) => {
            assert(t[0] == 'x');
            assert(t.skip(1) =~= spec_enc_list(v, enc_source_file_fn()) + rest);
            assert forall|f: SourceFileView, r: Seq<char>| #[trigger] dec_source_file_fn()(
                enc_source_file_fn()(f) + r,
            ) == Some::<(SourceFileView, Seq<char>)>((f, r)) by {
                lemma_enc_source_file_rt(f, r);
            }
            lemma_enc_list_rt(v, enc_source_file_fn(), dec_source_file_fn(), rest);
        },
    }
}

/// The encoding of an optional hydrated-content list.
pub open spec fn spec_enc_opt_pairs(o: Option<Seq<(SourceFileView, Seq<char>)>>) -> Seq<char> {
    match o {
        None => seq!['n'],
        Some(v) => seq!['x'] + spec_enc_list(v, enc_content_pair_fn()),
    }
}

pub open spec fn spec_dec_opt_pairs(s: Seq<char>) -> Option<
    (Option<Seq<(SourceFileView, Seq<char>)>>, Seq<char>),
> {
    if s.len() == 0 {
        None
    } else if s[0] == 'n' {
        Some((None, s.skip(1)))
    } else if s[0] == 'x' {
        match spec_dec_list(s.skip(1), dec_content_pair_fn()) {
            Some(p) => Some((Some(p.0), p.1)),
            None => None,
        }
    } else {
        None
    }
}

pub proof fn lemma_enc_opt_pairs_rt(o: Option<Seq<(SourceFileView, Seq<char>)>>, rest: Seq<char>)
    ensures
        spec_dec_opt_pairs(spec_enc_opt_pairs(o) + rest) == Some((o, rest)),
{
    let t = spec_enc_opt_pairs(o) + rest;
    match o {
        None => {
            assert(t[0] == 'n');
            assert(t.skip(1) =~= rest);
        },
        Some(v) => {
            assert(t[0] == 'x');
            assert(t.skip(1) =~= spec_enc_list(v, enc_content_pair_fn()) + rest);
            assert forall|p: (SourceFileView, Seq<char>), r: Seq<char>| #[trigger]
                dec_content_pair_fn()(enc_content_pair_fn()(p) + r) == Some::<
                ((SourceFileView, Seq<char>), Seq<char>),
            >((p, r)) by {
                lemma_enc_content_pair_rt(p, r);
            }
            lemma_enc_list_rt(v, enc_content_pair_fn(), dec_content_pair_fn(), rest);
        },
    }
}

/// The encoding of a source-bundle facet.
pub open spec fn spec_enc_source_bundle(f: SourceBundleFacetView) -> Seq<char> {
    spec_enc_facet_type(f.facet_type) + spec_enc_opt_files(f.source_files) + spec_enc_opt_pairs(
        f.source_files_content,
    ) + spec_enc_list(f.labels, enc_label_fn())
}

pub open spec fn spec_dec_source_bundle(s: Seq<char>) -> Option<
    (SourceBundleFacetView, Seq<char>),
> {
    match spec_dec_facet_type(s) {
        Some(p0) => match spec_dec_opt_files(p0.1) {
            Some(p1) => match spec_dec_opt_pairs(p1.1) {
                Some(p2) => match spec_dec_list(p2.1, dec_label_fn()) {
                    Some(p3) => Some(
                        (
                            SourceBundleFacetView {
                                source_files: p1.0,
                                facet_type: p0.0,
                                source_files_content: p2.0,
                                labels: p3.0,
                            },
                            p3.1,
                        ),
                    ),
                    None => None,
                },
                None => None,
            },
            None => None,
        },
        None => None,
    }
}

pub proof fn lemma_enc_labels_rt_all()
    ensures
        forall|v: Seq<LabelView>, r: Seq<char>| #[trigger] spec_dec_list(
            spec_enc_list(v, enc_label_fn()) + r,
            dec_label_fn(),
        ) == Some::<(Seq<LabelView>, Seq<char>)>((v, r)),
{
    assert forall|v: Seq<LabelView>, r: Seq<char>| #[trigger] spec_dec_list(
        spec_enc_list(v, enc_label_fn()) + r,
        dec_label_fn(),
    ) == Some::<(Seq<LabelView>, Seq<char>)>((v, r)) by {
        assert forall|l: LabelView, r2: Seq<char>| #[trigger] dec_label_fn()(
            enc_label_fn()(l) + r2,
        ) == Some::<(LabelView, Seq<char>)>((l, r2)) by {
            lemma_enc_label_rt(l, r2);
        }
        lemma_enc_list_rt(v, enc_label_fn(), dec_label_fn(), r);
    }
}

pub proof fn lemma_enc_source_bundle_rt(f: SourceBundleFacetView, rest: Seq<char>)
    ensures
        spec_dec_source_bundle(spec_enc_source_bundle(f) + rest) == Some((f, rest)),
{
    let t = spec_enc_source_bundle(f) + rest;
    let r3 = spec_enc_list(f.labels, enc_label_fn()) + rest;
    let r2 = spec_enc_opt_pairs(f.source_files_content) + r3;
    let r1 = spec_enc_opt_files(f.source_files) + r2;
    assert(t =~= spec_enc_facet_type(f.facet_type) + r1);
    lemma_enc_facet_type_rt(f.facet_type, r1);
    lemma_enc_opt_files_rt(f.source_files, r2);
    lemma_enc_opt_pairs_rt(f.source_files_content, r3);
    lemma_enc_labels_rt_all();
}

/// The encoding of an API-bundle facet.
pub open spec fn spec_enc_api_bundle(f: APIBundleFacetView) -> Seq<char> {
    spec_enc_facet_type(f.facet_type) + spec_enc_list(f.apis, enc_api_fn()) + spec_enc_list(
        f.labels,
        enc_label_fn(),
    )
}

pub open spec fn spec_dec_api_bundle(s: Seq<char>) -> Option<(APIBundleFacetView, Seq<char>)> {
    match spec_dec_facet_type(s) {
        Some(p0) => match spec_dec_list(p0.1, dec_api_fn()) {
            Some(p1) => match spec_dec_list(p1.1, dec_label_fn()) {
                Some(p2) => Some(
                    (APIBundleFacetView { apis: p1.0, facet_type: p0.0, labels: p2.0 }, p2.1),
                ),
                None => None,
            },
            None => None,
        },
        None => None,
    }
}

pub proof fn lemma_enc_api_bundle_rt(f: APIBundleFacetView, rest: Seq<char>)
    ensures
        spec_dec_api_bundle(spec_enc_api_bundle(f) + rest) == Some((f, rest)),
{
    let t = spec_enc_api_bundle(f) + rest;
    let r2 = spec_enc_list(f.labels, enc_label_fn()) + rest;
    let r1 = spec_enc_list(f.apis, enc_api_fn()) + r2;
    assert(t =~= spec_enc_facet_type(f.facet_type) + r1);
    lemma_enc_facet_type_rt(f.facet_type, r1);
    assert forall|a: APIContentView, r: Seq<char>| #[trigger] dec_api_fn()(enc_api_fn()(a) + r)
        == Some::<(APIContentView, Seq<char>)>((a, r)) by {
        lemma_enc_api_rt(a, r);
    }
    lemma_enc_list_rt(f.apis, enc_api_fn(), dec_api_fn(), r2);
    lemma_enc_labels_rt_all();
}

/// The encoding of a facet: a category tag, then the facet itself.
pub open spec fn spec_enc_facet(f: InitializedFacetView) -> Seq<char> {
    match f {
        InitializedFacetView::SourceBundle(sb) => seq!['S'] + spec_enc_source_bundle(sb),
        InitializedFacetView::APIBundle(ab) => seq!['A'] + spec_enc_api_bundle(ab),
    }
}

pub open spec fn spec_dec_facet(s: Seq<char>) -> Option<(InitializedFacetView, Seq<char>)> {
    if s.len() == 0 {
        None
    } else if s[0] == 'S' {
        match spec_dec_source_bundle(s.skip(1)) {
            Some(p) => Some((InitializedFacetView::SourceBundle(p.0), p.1)),
            None => None,
        }
    } else if s[0] == 'A' {
        match spec_dec_api_bundle(s.skip(1)) {
            Some(p) => Some((InitializedFacetView::APIBundle(p.0), p.1)),
            None => None,
        }
    } else {
        None
    }
}

pub proof fn lemma_enc_facet_rt(f: InitializedFacetView, rest: Seq<char>)
    ensures
        spec_dec_facet(spec_enc_facet(f) + rest) == Some((f, rest)),
{
    let t = spec_enc_facet(f) + rest;
    match f {
        InitializedFacetView::SourceBundle(sb) => {
            assert(t[0] == 'S');
            assert(t.skip(1) =~= spec_enc_source_bundle(sb) + rest);
            lemma_enc_source_bundle_rt(sb, rest);
        },
        InitializedFacetView::APIBundle(ab) => {
            assert(t[0] == 'A');
            assert(t.skip(1) =~= spec_enc_api_bundle(ab) + rest);
            lemma_enc_api_bundle_rt(ab, rest);
        },
    }
}

/// The encoding of one facet entry: its key, then the facet.
pub open spec fn spec_enc_entry(e: FacetEntryView) -> Seq<char> {
    match e.0 {
        FacetMapKey::Type(ft) => seq!['t'] + spec_enc_facet_type(ft) + spec_enc_facet(e.1),
    }
}

pub open spec fn spec_dec_entry(s: Seq<char>) -> Option<(FacetEntryView, Seq<char>)> {
    if s.len() == 0 {
        None
    } else if s[0] == 't' {
        match spec_dec_facet_type(s.skip(1)) {
            Some(p0) => match spec_dec_facet(p0.1) {
                Some(p1) => Some(((FacetMapKey::Type(p0.0), p1.0), p1.1)),
                None => None,
            },
            None => None,
        }
    } else {
        None
    }
}

pub proof fn lemma_enc_entry_rt(e: FacetEntryView, rest: Seq<char>)
    ensures
        spec_dec_entry(spec_enc_entry(e) + rest) == Some((e, rest)),
{
    let t = spec_enc_entry(e) + rest;
    match e.0 {
        FacetMapKey::Type(ft) => {
            let r1 = spec_enc_facet(e.1) + rest;
            assert(t[0] == 't');
            assert(t.skip(1) =~= spec_enc_facet_type(ft) + r1);
            lemma_enc_facet_type_rt(ft, r1);
            lemma_enc_facet_rt(e.1, rest);
            assert((FacetMapKey::Type(ft), e.1) == e);
        },
    }
}

pub open spec fn enc_entry_fn() -> spec_fn(FacetEntryView) -> Seq<char> {
    |e: FacetEntryView| spec_enc_entry(e)
}

pub open spec fn dec_entry_fn() -> spec_fn(Seq<char>) -> Option<(FacetEntryView, Seq<char>)> {
    |s: Seq<char>| spec_dec_entry(s)
}

/// The encoding of a repository owner: an account-kind tag, then the name.
pub open spec fn spec_enc_user(u: GithubUserView) -> Seq<char> {
    match u {
        GithubUserView::User(n) => seq!['u'] + spec_enc_str(n),
        GithubUserView::Organization(n) => seq!['o'] + spec_enc_str(n),
    }
}

pub open spec fn spec_dec_user(s: Seq<char>) -> Option<(GithubUserView, Seq<char>)> {
    if s.len() == 0 {
        None
    } else if s[0] == 'u' {
        match spec_dec_str(s.skip(1)) {
            Some(p) => Some((GithubUserView::User(p.0), p.1)),
            None => None,
        }
    } else if s[0] == 'o' {
        match spec_dec_str(s.skip(1)) {
            Some(p) => Some((GithubUserView::Organization(p.0), p.1)),
            None => None,
        }
    } else {
        None
    }
}

pub proof fn lemma_enc_user_rt(u: GithubUserView, rest: Seq<char>)
    ensures
        spec_dec_user(spec_enc_user(u) + rest) == Some((u, rest)),
{
    let t = spec_enc_user(u) + rest;
    match u {
        GithubUserView::User(n) => {
            assert(t[0] == 'u');
            assert(t.skip(1) =~= spec_enc_str(n) + rest);
            lemma_enc_str_rt(n, rest);
        },
        GithubUserView::Organization(n) => {
            assert(t[0] == 'o');
            assert(t.skip(1) =~= spec_enc_str(n) + rest);
            lemma_enc_str_rt(n, rest);
        },
    }
}

/// The encoding of a repository: a host tag, the name, the owner.
pub open spec fn spec_enc_repo(r: InitializedRepoView) -> Seq<char> {
    match r {
        InitializedRepoView::Github(g) => seq!['h'] + spec_enc_str(g.name) + spec_enc_user(
            g.organization,
        ),
    }
}

pub open spec fn spec_dec_repo(s: Seq<char>) -> Option<(InitializedRepoView, Seq<char>)> {
    if s.len() == 0 {
        None
    } else if s[0] == 'h' {
        match spec_dec_str(s.skip(1)) {
            Some(p0) => match spec_dec_user(p0.1) {
                Some(p1) => Some(
                    (
                        InitializedRepoView::Github(
                            InitializedGithubRepoView { name: p0.0, organization: p1.0 },
                        ),
                        p1.1,
                    ),
                ),
                None => None,
            },
            None => None,
        }
    } else {
        None
    }
}

pub proof fn lemma_enc_repo_rt(r: InitializedRepoView, rest: Seq<char>)
    ensures
        spec_dec_repo(spec_enc_repo(r) + rest) == Some((r, rest)),
{
    let t = spec_enc_repo(r) + rest;
    match r {
        InitializedRepoView::Github(g) => {
            let r1 = spec_enc_user(g.organization) + rest;
            assert(t[0] == 'h');
            assert(t.skip(1) =~= spec_enc_str(g.name) + r1);
            lemma_enc_str_rt(g.name, r1);
            lemma_enc_user_rt(g.organization, rest);
            assert(InitializedGithubRepoView { name: g.name, organization: g.organization } == g);
        },
    }
}

/// The encoding of an ecosystem identity: a kind tag, then its two fields.
pub open spec fn spec_enc_ecosystem(e: InitializedEcosystemView) -> Seq<char> {
    match e {
        InitializedEcosystemView::Go(g) => seq!['G'] + spec_enc_str(g.name) + spec_enc_str(g.host),
        InitializedEcosystemView::Maven(m) => seq!['M'] + spec_enc_str(m.group_id) + spec_enc_str(
            m.artifact_id,
        ),
    }
}

pub open spec fn spec_dec_ecosystem(s: Seq<char>) -> Option<
    (InitializedEcosystemView, Seq<char>),
> {
    if s.len() == 0 {
        None
    } else if s[0] == 'G' {
        match spec_dec_str(s.skip(1)) {
            Some(p0) => match spec_dec_str(p0.1) {
                Some(p1) => Some(
                    (
                        InitializedEcosystemView::Go(InitializedGoView { name: p0.0, host: p1.0 }),
                        p1.1,
                    ),
                ),
                None => None,
            },
            None => None,
        }
    } else if s[0] == 'M' {
        match spec_dec_str(s.skip(1)) {
            Some(p0) => match spec_dec_str(p0.1) {
                Some(p1) => Some(
                    (
                        InitializedEcosystemView::Maven(
                            InitializedMavenView { group_id: p0.0, artifact_id: p1.0 },
                        ),
                        p1.1,
                    ),
                ),
                None => None,
            },
            None => None,
        }
    } else {
        None
    }
}

pub proof fn lemma_enc_ecosystem_rt(e: InitializedEcosystemView, rest: Seq<char>)
    ensures
        spec_dec_ecosystem(spec_enc_ecosystem(e) + rest) == Some((e, rest)),
{
    let t = spec_enc_ecosystem(e) + rest;
    match e {
        InitializedEcosystemView::Go(g) => {
            let r1 = spec_enc_str(g.host) + rest;
            assert(t[0] == 'G');
            assert(t.skip(1) =~= spec_enc_str(g.name) + r1);
            lemma_enc_str_rt(g.name, r1);
            lemma_enc_str_rt(g.host, rest);
            assert(InitializedGoView { name: g.name, host: g.host } == g);
        },
        InitializedEcosystemView::Maven(m) => {
            let r1 = spec_enc_str(m.artifact_id) + rest;
            assert(t[0] == 'M');
            assert(t.skip(1) =~= spec_enc_str(m.group_id) + r1);
            lemma_enc_str_rt(m.group_id, r1);
            lemma_enc_str_rt(m.artifact_id, rest);
            assert(InitializedMavenView { group_id: m.group_id, artifact_id: m.artifact_id } == m);
        },
    }
}

/// The encoding of a whole project: name, repository, ecosystem, source
/// path, facet entries.
pub open spec fn spec_enc_project(p: InitializedProjectView) -> Seq<char> {
    spec_enc_str(p.name) + spec_enc_repo(p.repo) + spec_enc_ecosystem(p.ecosystem) + spec_enc_str(
        p.source.path,
    ) + spec_enc_list(p.facets, enc_entry_fn())
}

pub open spec fn spec_dec_project(s: Seq<char>) -> Option<(InitializedProjectView, Seq<char>)> {
    match spec_dec_str(s) {
        Some(p0) => match spec_dec_repo(p0.1) {
            Some(p1) => match spec_dec_ecosystem(p1.1) {
                Some(p2) => match spec_dec_str(p2.1) {
                    Some(p3) => match spec_dec_list(p3.1, dec_entry_fn()) {
                        Some(p4) => Some(
                            (
                                InitializedProjectView {
                                    repo: p1.0,
                                    ecosystem: p2.0,
                                    source: InitializedSourceView { path: p3.0 },
                                    facets: p4.0,
                                    name: p0.0,
                                },
                                p4.1,
                            ),
                        ),
                        None => None,
                    },
                    None => None,
                },
                None => None,
            },
            None => None,
        },
        None => None,
    }
}

pub proof fn lemma_enc_project_rt(p: InitializedProjectView, rest: Seq<char>)
    ensures
        spec_dec_project(spec_enc_project(p) + rest) == Some((p, rest)),
{
    let t = spec_enc_project(p) + rest;
    let r4 = spec_enc_list(p.facets, enc_entry_fn()) + rest;
    let r3 = spec_enc_str(p.source.path) + r4;
    let r2 = spec_enc_ecosystem(p.ecosystem) + r3;
    let r1 = spec_enc_repo(p.repo) + r2;
    assert(t =~= spec_enc_str(p.name) + r1);
    lemma_enc_str_rt(p.name, r1);
    lemma_enc_repo_rt(p.repo, r2);
    lemma_enc_ecosystem_rt(p.ecosystem, r3);
    lemma_enc_str_rt(p.source.path, r4);
    assert forall|e: FacetEntryView, r: Seq<char>| #[trigger] dec_entry_fn()(
        enc_entry_fn()(e) + r,
    ) == Some::<(FacetEntryView, Seq<char>)>((e, r)) by {
        lemma_enc_entry_rt(e, r);
    }
    lemma_enc_list_rt(p.facets, enc_entry_fn(), dec_entry_fn(), rest);
    assert(InitializedSourceView { path: p.source.path } == p.source);
    assert(InitializedProjectView {
        repo: p.repo,
        ecosystem: p.ecosystem,
        source: p.source,
        facets: p.facets,
        name: p.name,
    } =~~= p);
}

/// What fetched manifest text denotes: the project it encodes, provided the
/// whole text is one well-formed project and nothing trails it.
pub open spec fn spec_decode_manifest(s: Seq<char>) -> Option<InitializedProjectView> {
    match spec_dec_project(s) {
        Some(p) => if p.1.len() == 0 && p.0.wf() {
            Some(p.0)
        } else {
            None
        },
        None => None,
    }
}

/// Law: a well-formed project reads back from its own manifest text exactly,
/// and re-serializing what was read reproduces that text — the round trip
/// that `get` relies on.
pub proof fn lemma_manifest_round_trip(p: InitializedProjectView)
    requires
        p.wf(),
    ensures
        spec_decode_manifest(spec_enc_project(p)) == Some(p),
        spec_enc_project(spec_decode_manifest(spec_enc_project(p))->Some_0) == spec_enc_project(p),
{
    lemma_enc_project_rt(p, Seq::empty());
    assert(spec_enc_project(p) + Seq::<char>::empty() =~= spec_enc_project(p));
}

/// Appends the encoding of a facet type to the output.
fn enc_facet_type_into(out: &mut String, t: SupportedFacetType)
    ensures
        final(out)@ == old(out)@ + spec_enc_facet_type(t),
{
    match t {
        SupportedFacetType::Readme => push_char(out, 'r'),
        SupportedFacetType::License => push_char(out, 'l'),
        SupportedFacetType::Gitignore => push_char(out, 'g'),
        SupportedFacetType::SecurityInsights => push_char(out, 's'),
        SupportedFacetType::SlsaBuild => push_char(out, 'b'),
        SupportedFacetType::SbomGenerator => push_char(out, 'm'),
        SupportedFacetType::StaticCodeAnalysis => push_char(out, 'a'),
        SupportedFacetType::BranchProtection => push_char(out, 'p'),
        SupportedFacetType::CodeReview => push_char(out, 'c'),
        SupportedFacetType::VulnerabilityReporting => push_char(out, 'v'),
    }
}

/// Appends the encoding of a label to the output.
fn enc_label_into(out: &mut String, l: &Label)
    ensures
        final(out)@ == old(out)@ + spec_enc_label(l@),
{
    match l {
        Label::Custom(n) => {
            push_char(out, 'c');
            enc_str_into(out, n.as_str());
        },
    }
}

/// Appends the encoding of a source-file descriptor to the output.
fn enc_source_file_into(out: &mut String, f: &SourceFile)
    ensures
        final(out)@ == old(out)@ + spec_enc_source_file(f@),
{
    enc_str_into(out, f.name.as_str());
    enc_str_into(out, f.path.as_str());
    enc_str_into(out, f.hash.as_str());
    proof {
        assert(final(out)@ =~= old(out)@ + spec_enc_source_file(f@));
    }
}

/// Appends the encoding of one recorded API call to the output.
fn enc_api_into(out: &mut String, a: &APIContent)
    ensures
        final(out)@ == old(out)@ + spec_enc_api(a@),
{
    enc_str_into(out, a.name.as_str());
    enc_str_into(out, a.url.as_str());
    enc_str_into(out, a.response.as_str());
    proof {
        assert(final(out)@ =~= old(out)@ + spec_enc_api(a@));
    }
}

/// Appends the encoding of a file-descriptor list to the output.
fn enc_source_files_into(out: &mut String, fs: &Vec<SourceFile>)
    ensures
        final(out)@ == old(out)@ + spec_enc_list(
            fs@.map_values(|f: SourceFile| f@),
            enc_source_file_fn(),
        ),
{
    let ghost fv = fs@.map_values(|f: SourceFile| f@);
    proof {
        assert(fv.skip(0) =~= fv);
    }
    let mut i: usize = 0;
    while i < fs.len()
        invariant
            i <= fs.len(),
            fv == fs@.map_values(|f: SourceFile| f@),
            fv.len() == fs@.len(),
            out@ + spec_enc_list(fv.skip(i as int), enc_source_file_fn()) == old(out)@
                + spec_enc_list(fv, enc_source_file_fn()),
        decreases fs.len() - i,
    {
        let ghost pre = out@;
        push_char(out, 'i');
        enc_source_file_into(out, &fs[i]);
        proof {
            assert(fv.skip(i as int)[0] == fv[i as int]);
            assert(fv.skip(i as int).skip(1) =~= fv.skip(i + 1));
            assert(enc_source_file_fn()(fv[i as int]) == spec_enc_source_file(fs@[i as int]@));
            assert(pre + spec_enc_list(fv.skip(i as int), enc_source_file_fn()) =~= out@
                + spec_enc_list(fv.skip(i + 1), enc_source_file_fn()));
        }
        i += 1;
    }
    proof {
        assert(fv.skip(fs@.len() as int) =~= Seq::<SourceFileView>::empty());
    }
    push_char(out, 'e');
    proof {
        assert(out@ =~= old(out)@ + spec_enc_list(fv, enc_source_file_fn()));
    }
}

/// Appends the encoding of a hydrated-content list to the output.
fn enc_content_pairs_into(out: &mut String, cs: &Vec<(SourceFile, String)>)
    ensures
        final(out)@ == old(out)@ + spec_enc_list(
            cs@.map_values(|c: (SourceFile, String)| (c.0@, c.1@)),
            enc_content_pair_fn(),
        ),
{
    let ghost cv = cs@.map_values(|c: (SourceFile, String)| (c.0@, c.1@));
    proof {
        assert(cv.skip(0) =~= cv);
    }
    let mut i: usize = 0;
    while i < cs.len()
        invariant
            i <= cs.len(),
            cv == cs@.map_values(|c: (SourceFile, String)| (c.0@, c.1@)),
            cv.len() == cs@.len(),
            out@ + spec_enc_list(cv.skip(i as int), enc_content_pair_fn()) == old(out)@
                + spec_enc_list(cv, enc_content_pair_fn()),
        decreases cs.len() - i,
    {
        let ghost pre = out@;
        push_char(out, 'i');
        enc_source_file_into(out, &cs[i].0);
        enc_str_into(out, cs[i].1.as_str());
        proof {
            assert(cv.skip(i as int)[0] == cv[i as int]);
            assert(cv.skip(i as int).skip(1) =~= cv.skip(i + 1));
            assert(enc_content_pair_fn()(cv[i as int]) == spec_enc_content_pair(
                (cs@[i as int].0@, cs@[i as int].1@),
            ));
            assert(pre + spec_enc_list(cv.skip(i as int), enc_content_pair_fn()) =~= out@
                + spec_enc_list(cv.skip(i + 1), enc_content_pair_fn()));
        }
        i += 1;
    }
    proof {
        assert(cv.skip(cs@.len() as int) =~= Seq::<(SourceFileView, Seq<char>)>::empty());
    }
    push_char(out, 'e');
    proof {
        assert(out@ =~= old(out)@ + spec_enc_list(cv, enc_content_pair_fn()));
    }
}

/// Appends the encoding of a label list to the output.
fn enc_labels_into(out: &mut String, labels: &Vec<Label>)
    ensures
        final(out)@ == old(out)@ + spec_enc_list(
            labels@.map_values(|l: Label| l@),
            enc_label_fn(),
        ),
{
    let ghost lv = labels@.map_values(|l: Label| l@);
    proof {
        assert(lv.skip(0) =~= lv);
    }
    let mut i: usize = 0;
    while i < labels.len()
        invariant
            i <= labels.len(),
            lv == labels@.map_values(|l: Label| l@),
            lv.len() == labels@.len(),
            out@ + spec_enc_list(lv.skip(i as int), enc_label_fn()) == old(out)@ + spec_enc_list(
                lv,
                enc_label_fn(),
            ),
        decreases labels.len() - i,
    {
        let ghost pre = out@;
        push_char(out, 'i');
        enc_label_into(out, &labels[i]);
        proof {
            assert(lv.skip(i as int)[0] == lv[i as int]);
            assert(lv.skip(i as int).skip(1) =~= lv.skip(i + 1));
            assert(enc_label_fn()(lv[i as int]) == spec_enc_label(labels@[i as int]@));
            assert(pre + spec_enc_list(lv.skip(i as int), enc_label_fn()) =~= out@
                + spec_enc_list(lv.skip(i + 1), enc_label_fn()));
        }
        i += 1;
    }
    proof {
        assert(lv.skip(labels@.len() as int) =~= Seq::<LabelView>::empty());
    }
    push_char(out, 'e');
    proof {
        assert(out@ =~= old(out)@ + spec_enc_list(lv, enc_label_fn()));
    }
}

/// Appends the encoding of a recorded-API list to the output.
fn enc_apis_into(out: &mut String, apis: &Vec<APIContent>)
    ensures
        final(out)@ == old(out)@ + spec_enc_list(
            apis@.map_values(|a: APIContent| a@),
            enc_api_fn(),
        ),
{
    let ghost av = apis@.map_values(|a: APIContent| a@);
    proof {
        assert(av.skip(0) =~= av);
    }
    let mut i: usize = 0;
    while i < apis.len()
        invariant
            i <= apis.len(),
            av == apis@.map_values(|a: APIContent| a@),
            av.len() == apis@.len(),
            out@ + spec_enc_list(av.skip(i as int), enc_api_fn()) == old(out)@ + spec_enc_list(
                av,
                enc_api_fn(),
            ),
        decreases apis.len() - i,
    {
        let ghost pre = out@;
        push_char(out, 'i');
        enc_api_into(out, &apis[i]);
        proof {
            assert(av.skip(i as int)[0] == av[i as int]);
            assert(av.skip(i as int).skip(1) =~= av.skip(i + 1));
            assert(enc_api_fn()(av[i as int]) == spec_enc_api(apis@[i as int]@));
            assert(pre + spec_enc_list(av.skip(i as int), enc_api_fn()) =~= out@ + spec_enc_list(
                av.skip(i + 1),
                enc_api_fn(),
            ));
        }
        i += 1;
    }
    proof {
        assert(av.skip(apis@.len() as int) =~= Seq::<APIContentView>::empty());
    }
    push_char(out, 'e');
    proof {
        assert(out@ =~= old(out)@ + spec_enc_list(av, enc_api_fn()));
    }
}

/// Appends the encoding of one facet to the output.
fn enc_facet_into(out: &mut String, f: &InitializedFacet)
    ensures
        final(out)@ == old(out)@ + spec_enc_facet(f@),
{
    match f {
        InitializedFacet::SourceBundle(sb) => {
            push_char(out, 'S');
            enc_facet_type_into(out, sb.facet_type);
            match &sb.source_files {
                Some(fs) => {
                    push_char(out, 'x');
                    enc_source_files_into(out, fs);
                },
                None => push_char(out, 'n'),
            };
            match &sb.source_files_content {
                Some(cs) => {
                    push_char(out, 'x');
                    enc_content_pairs_into(out, cs);
                },
                None => push_char(out, 'n'),
            };
            enc_labels_into(out, &sb.labels);
            proof {
                assert(out@ =~= old(out)@ + spec_enc_facet(f@));
            }
        },
        InitializedFacet::APIBundle(ab) => {
            push_char(out, 'A');
            enc_facet_type_into(out, ab.facet_type);
            enc_apis_into(out, &ab.apis);
            enc_labels_into(out, &ab.labels);
            proof {
                assert(out@ =~= old(out)@ + spec_enc_facet(f@));
            }
        },
    }
}

/// Appends the encoding of the facet entries to the output.
fn enc_entries_into(out: &mut String, entries: &Vec<(FacetMapKey, InitializedFacet)>)
    ensures
        final(out)@ == old(out)@ + spec_enc_list(
            entries@.map_values(|e: (FacetMapKey, InitializedFacet)| (e.0, e.1@)),
            enc_entry_fn(),
        ),
{
    let ghost ev = entries@.map_values(|e: (FacetMapKey, InitializedFacet)| (e.0, e.1@));
    proof {
        assert(ev.skip(0) =~= ev);
    }
    let mut i: usize = 0;
    while i < entries.len()
        invariant
            i <= entries.len(),
            ev == entries@.map_values(|e: (FacetMapKey, InitializedFacet)| (e.0, e.1@)),
            ev.len() == entries@.len(),
            out@ + spec_enc_list(ev.skip(i as int), enc_entry_fn()) == old(out)@ + spec_enc_list(
                ev,
                enc_entry_fn(),
            ),
        decreases entries.len() - i,
    {
        let ghost pre = out@;
        push_char(out, 'i');
        push_char(out, 't');
        let FacetMapKey::Type(ft) = entries[i].0;
        enc_facet_type_into(out, ft);
        enc_facet_into(out, &entries[i].1);
        proof {
            assert(ev.skip(i as int)[0] == ev[i as int]);
            assert(ev.skip(i as int).skip(1) =~= ev.skip(i + 1));
            assert(enc_entry_fn()(ev[i as int]) == spec_enc_entry(
                (entries@[i as int].0, entries@[i as int].1@),
            ));
            assert(out@ =~= pre + seq!['i'] + spec_enc_entry(ev[i as int]));
            assert(pre + spec_enc_list(ev.skip(i as int), enc_entry_fn()) =~= out@
                + spec_enc_list(ev.skip(i + 1), enc_entry_fn()));
        }
        i += 1;
    }
    proof {
        assert(ev.skip(entries@.len() as int) =~= Seq::<FacetEntryView>::empty());
    }
    push_char(out, 'e');
    proof {
        assert(out@ =~= old(out)@ + spec_enc_list(ev, enc_entry_fn()));
    }
}

/// Appends the encoding of the repository owner to the output.
fn enc_user_into(out: &mut String, u: &GithubUser)
    ensures
        final(out)@ == old(out)@ + spec_enc_user(u@),
{
    match u {
        GithubUser::User(n) => {
            push_char(out, 'u');
            enc_str_into(out, n.as_str());
        },
        GithubUser::Organization(n) => {
            push_char(out, 'o');
            enc_str_into(out, n.as_str());
        },
    }
}

/// Appends the encoding of the repository to the output.
fn enc_repo_into(out: &mut String, r: &InitializedRepo)
    ensures
        final(out)@ == old(out)@ + spec_enc_repo(r@),
{
    match r {
        InitializedRepo::Github(g) => {
            push_char(out, 'h');
            enc_str_into(out, g.name.as_str());
            enc_user_into(out, &g.organization);
            proof {
                assert(out@ =~= old(out)@ + spec_enc_repo(r@));
            }
        },
    }
}

/// Appends the encoding of the ecosystem identity to the output.
fn enc_ecosystem_into(out: &mut String, e: &InitializedEcosystem)
    ensures
        final(out)@ == old(out)@ + spec_enc_ecosystem(e@),
{
    match e {
        InitializedEcosystem::Go(g) => {
            push_char(out, 'G');
            enc_str_into(out, g.name.as_str());
            enc_str_into(out, g.host.as_str());
            proof {
                assert(out@ =~= old(out)@ + spec_enc_ecosystem(e@));
            }
        },
        InitializedEcosystem::Maven(m) => {
            push_char(out, 'M');
            enc_str_into(out, m.group_id.as_str());
            enc_str_into(out, m.artifact_id.as_str());
            proof {
                assert(out@ =~= old(out)@ + spec_enc_ecosystem(e@));
            }
        },
    }
}

/// Serializes a project into manifest text.
pub fn encode_project(p: &InitializedProject) -> (out: String)
    ensures
        out@ == spec_enc_project(p@),
{
    let mut out = String::new();
    enc_str_into(&mut out, p.name.as_str());
    enc_repo_into(&mut out, &p.repo);
    enc_ecosystem_into(&mut out, &p.ecosystem);
    enc_str_into(&mut out, p.source.path.as_str());
    enc_entries_into(&mut out, &p.facets.entries);
    proof {
        assert(out@ =~= spec_enc_project(p@));
    }
    out
}

/// Reads one encoded string starting at character position `i`.
fn dec_str(s: &str, i: usize) -> (r: Option<(String, usize)>)
    requires
        i <= s@.len(),
    ensures
        match r {
            Some(p) => i < p.1 <= s@.len() && spec_dec_str(s@.skip(i as int)) == Some(
                (p.0@, s@.skip(p.1 as int)),
            ),
            None => spec_dec_str(s@.skip(i as int)) is None,
        },
    decreases s@.len() - i,
{
    let n = s.unicode_len();
    if i == n {
        proof {
            assert(s@.skip(i as int) =~= Seq::<char>::empty());
        }
        return None;
    }
    let c = s.get_char(i);
    proof {
        assert(s@.skip(i as int)[0] == s@[i as int]);
    }
    if c == ';' {
        proof {
            assert(s@.skip(i as int).skip(1) =~= s@.skip(i + 1));
        }
        Some((String::new(), i + 1))
    } else if c == '\\' {
        if i + 1 == n {
            proof {
                assert(s@.skip(i as int).len() == 1);
            }
            return None;
        }
        let c2 = s.get_char(i + 1);
        proof {
            assert(s@.skip(i as int)[1] == s@[i + 1]);
            assert(s@.skip(i as int).skip(2) =~= s@.skip(i + 2));
        }
        match dec_str(s, i + 2) {
            Some(p) => {
                let (tail, j) = p;
                let mut v = String::new();
                push_char(&mut v, c2);
                v.append(tail.as_str());
                proof {
                    assert(v@ =~= seq![s@[i + 1]] + tail@);
                }
                Some((v, j))
            },
            None => None,
        }
    } else {
        proof {
            assert(s@.skip(i as int).skip(1) =~= s@.skip(i + 1));
        }
        match dec_str(s, i + 1) {
            Some(p) => {
                let (tail, j) = p;
                let mut v = String::new();
                push_char(&mut v, c);
                v.append(tail.as_str());
                proof {
                    assert(v@ =~= seq![s@[i as int]] + tail@);
                }
                Some((v, j))
            },
            None => None,
        }
    }
}

/// The deep view of a file-descriptor list.
pub open spec fn files_view(fs: Seq<SourceFile>) -> Seq<SourceFileView> {
    fs.map_values(|f: SourceFile| f@)
}

/// The deep view of a hydrated-content list.
pub open spec fn pairs_view(cs: Seq<(SourceFile, String)>) -> Seq<(SourceFileView, Seq<char>)> {
    cs.map_values(|c: (SourceFile, String)| (c.0@, c.1@))
}

/// The deep view of a label list.
pub open spec fn labels_view(ls: Seq<Label>) -> Seq<LabelView> {
    ls.map_values(|l: Label| l@)
}

/// The deep view of a recorded-API list.
pub open spec fn apis_view(apis: Seq<APIContent>) -> Seq<APIContentView> {
    apis.map_values(|a: APIContent| a@)
}

/// The deep view of a facet-entry list.
pub open spec fn raw_entries_view(es: Seq<(FacetMapKey, InitializedFacet)>) -> Seq<
    FacetEntryView,
> {
    es.map_values(|e: (FacetMapKey, InitializedFacet)| (e.0, e.1@))
}

/// Reads one facet-type tag starting at position `i`.
fn dec_facet_type(s: &str, i: usize) -> (r: Option<(SupportedFacetType, usize)>)
    requires
        i <= s@.len(),
    ensures
        match r {
            Some(p) => i < p.1 <= s@.len() && spec_dec_facet_type(s@.skip(i as int)) == Some(
                (p.0, s@.skip(p.1 as int)),
            ),
            None => spec_dec_facet_type(s@.skip(i as int)) is None,
        },
{
    let n = s.unicode_len();
    if i == n {
        proof {
            assert(s@.skip(i as int) =~= Seq::<char>::empty());
        }
        return None;
    }
    let c = s.get_char(i);
    proof {
        assert(s@.skip(i as int)[0] == s@[i as int]);
        assert(s@.skip(i as int).skip(1) =~= s@.skip(i + 1));
    }
    let t = if c == 'r' {
        SupportedFacetType::Readme
    } else if c == 'l' {
        SupportedFacetType::License
    } else if c == 'g' {
        SupportedFacetType::Gitignore
    } else if c == 's' {
        SupportedFacetType::SecurityInsights
    } else if c == 'b' {
        SupportedFacetType::SlsaBuild
    } else if c == 'm' {
        SupportedFacetType::SbomGenerator
    } else if c == 'a' {
        SupportedFacetType::StaticCodeAnalysis
    } else if c == 'p' {
        SupportedFacetType::BranchProtection
    } else if c == 'c' {
        SupportedFacetType::CodeReview
    } else if c == 'v' {
        SupportedFacetType::VulnerabilityReporting
    } else {
        return None;
    };
    Some((t, i + 1))
}

/// Reads one label starting at position `i`.
fn dec_label(s: &str, i: usize) -> (r: Option<(Label, usize)>)
    requires
        i <= s@.len(),
    ensures
        match r {
            Some(p) => i < p.1 <= s@.len() && spec_dec_label(s@.skip(i as int)) == Some(
                (p.0@, s@.skip(p.1 as int)),
            ),
            None => spec_dec_label(s@.skip(i as int)) is None,
        },
{
    let n = s.unicode_len();
    if i == n {
        proof {
            assert(s@.skip(i as int) =~= Seq::<char>::empty());
        }
        return None;
    }
    let c = s.get_char(i);
    proof {
        assert(s@.skip(i as int)[0] == s@[i as int]);
        assert(s@.skip(i as int).skip(1) =~= s@.skip(i + 1));
    }
    if c == 'c' {
        match dec_str(s, i + 1) {
            Some(p) => {
                let (v, j) = p;
                Some((Label::Custom(v), j))
            },
            None => None,
        }
    } else {
        None
    }
}

/// Reads one source-file descriptor starting at position `i`.
fn dec_source_file(s: &str, i: usize) -> (r: Option<(SourceFile, usize)>)
    requires
        i <= s@.len(),
    ensures
        match r {
            Some(p) => i < p.1 <= s@.len() && spec_dec_source_file(s@.skip(i as int)) == Some(
                (p.0@, s@.skip(p.1 as int)),
            ),
            None => spec_dec_source_file(s@.skip(i as int)) is None,
        },
{
    let (name, i1) = match dec_str(s, i) {
        Some(p) => p,
        None => {
            return None;
        },
    };
    let (path, i2) = match dec_str(s, i1) {
        Some(p) => p,
        None => {
            return None;
        },
    };
    let (hash, i3) = match dec_str(s, i2) {
        Some(p) => p,
        None => {
            return None;
        },
    };
    Some((SourceFile { name, path, hash }, i3))
}

/// Reads one recorded API call starting at position `i`.
fn dec_api(s: &str, i: usize) -> (r: Option<(APIContent, usize)>)
    requires
        i <= s@.len(),
    ensures
        match r {
            Some(p) => i < p.1 <= s@.len() && spec_dec_api(s@.skip(i as int)) == Some(
                (p.0@, s@.skip(p.1 as int)),
            ),
            None => spec_dec_api(s@.skip(i as int)) is None,
        },
{
    let (name, i1) = match dec_str(s, i) {
        Some(p) => p,
        None => {
            return None;
        },
    };
    let (url, i2) = match dec_str(s, i1) {
        Some(p) => p,
        None => {
            return None;
        },
    };
    let (response, i3) = match dec_str(s, i2) {
        Some(p) => p,
        None => {
            return None;
        },
    };
    Some((APIContent { name, url, response }, i3))
}

/// Reads a file-descriptor list starting at position `i`.
fn dec_source_files(s: &str, i: usize) -> (r: Option<(Vec<SourceFile>, usize)>)
    requires
        i <= s@.len(),
    ensures
        match r {
            Some(p) => i < p.1 <= s@.len() && spec_dec_list(
                s@.skip(i as int),
                dec_source_file_fn(),
            ) == Some((files_view(p.0@), s@.skip(p.1 as int))),
            None => spec_dec_list(s@.skip(i as int), dec_source_file_fn()) is None,
        },
    decreases s@.len() - i,
{
    let n = s.unicode_len();
    if i == n {
        proof {
            assert(s@.skip(i as int) =~= Seq::<char>::empty());
        }
        return None;
    }
    let c = s.get_char(i);
    proof {
        assert(s@.skip(i as int)[0] == s@[i as int]);
        assert(s@.skip(i as int).skip(1) =~= s@.skip(i + 1));
    }
    if c == 'e' {
        let v: Vec<SourceFile> = Vec::new();
        proof {
            assert(files_view(v@) =~= Seq::<SourceFileView>::empty());
        }
        Some((v, i + 1))
    } else if c == 'i' {
        let (x, j) = match dec_source_file(s, i + 1) {
            Some(p) => p,
            None => {
                return None;
            },
        };
        let (xs, k) = match dec_source_files(s, j) {
            Some(p) => p,
            None => {
                return None;
            },
        };
        let mut v = xs;
        v.insert(0, x);
        proof {
            assert(files_view(v@) =~= seq![x@] + files_view(v@.skip(1)));
            assert(v@.skip(1) =~= v@.subrange(1, v@.len() as int));
        }
        Some((v, k))
    } else {
        None
    }
}

/// Reads a hydrated-content list starting at position `i`.
fn dec_content_pairs(s: &str, i: usize) -> (r: Option<(Vec<(SourceFile, String)>, usize)>)
    requires
        i <= s@.len(),
    ensures
        match r {
            Some(p) => i < p.1 <= s@.len() && spec_dec_list(
                s@.skip(i as int),
                dec_content_pair_fn(),
            ) == Some((pairs_view(p.0@), s@.skip(p.1 as int))),
            None => spec_dec_list(s@.skip(i as int), dec_content_pair_fn()) is None,
        },
    decreases s@.len() - i,
{
    let n = s.unicode_len();
    if i == n {
        proof {
            assert(s@.skip(i as int) =~= Seq::<char>::empty());
        }
        return None;
    }
    let c = s.get_char(i);
    proof {
        assert(s@.skip(i as int)[0] == s@[i as int]);
        assert(s@.skip(i as int).skip(1) =~= s@.skip(i + 1));
    }
    if c == 'e' {
        let v: Vec<(SourceFile, String)> = Vec::new();
        proof {
            assert(pairs_view(v@) =~= Seq::<(SourceFileView, Seq<char>)>::empty());
        }
        Some((v, i + 1))
    } else if c == 'i' {
        let (f, j0) = match dec_source_file(s, i + 1) {
            Some(p) => p,
            None => {
                return None;
            },
        };
        let (content, j) = match dec_str(s, j0) {
            Some(p) => p,
            None => {
                return None;
            },
        };
        let (xs, k) = match dec_content_pairs(s, j) {
            Some(p) => p,
            None => {
                return None;
            },
        };
        let mut v = xs;
        v.insert(0, (f, content));
        proof {
            assert(pairs_view(v@) =~= seq![v@[0]].map_values(
                |c: (SourceFile, String)| (c.0@, c.1@),
            ) + pairs_view(v@.skip(1)));
        }
        Some((v, k))
    } else {
        None
    }
}

/// Reads a label list starting at position `i`.
fn dec_labels(s: &str, i: usize) -> (r: Option<(Vec<Label>, usize)>)
    requires
        i <= s@.len(),
    ensures
        match r {
            Some(p) => i < p.1 <= s@.len() && spec_dec_list(s@.skip(i as int), dec_label_fn())
                == Some((labels_view(p.0@), s@.skip(p.1 as int))),
            None => spec_dec_list(s@.skip(i as int), dec_label_fn()) is None,
        },
    decreases s@.len() - i,
{
    let n = s.unicode_len();
    if i == n {
        proof {
            assert(s@.skip(i as int) =~= Seq::<char>::empty());
        }
        return None;
    }
    let c = s.get_char(i);
    proof {
        assert(s@.skip(i as int)[0] == s@[i as int]);
        assert(s@.skip(i as int).skip(1) =~= s@.skip(i + 1));
    }
    if c == 'e' {
        let v: Vec<Label> = Vec::new();
        proof {
            assert(labels_view(v@) =~= Seq::<LabelView>::empty());
        }
        Some((v, i + 1))
    } else if c == 'i' {
        let (x, j) = match dec_label(s, i + 1) {
            Some(p) => p,
            None => {
                return None;
            },
        };
        let (xs, k) = match dec_labels(s, j) {
            Some(p) => p,
            None => {
                return None;
            },
        };
        let mut v = xs;
        v.insert(0, x);
        proof {
            assert(labels_view(v@) =~= seq![x@] + labels_view(v@.skip(1)));
        }
        Some((v, k))
    } else {
        None
    }
}

/// Reads a recorded-API list starting at position `i`.
fn dec_apis(s: &str, i: usize) -> (r: Option<(Vec<APIContent>, usize)>)
    requires
        i <= s@.len(),
    ensures
        match r {
            Some(p) => i < p.1 <= s@.len() && spec_dec_list(s@.skip(i as int), dec_api_fn())
                == Some((apis_view(p.0@), s@.skip(p.1 as int))),
            None => spec_dec_list(s@.skip(i as int), dec_api_fn()) is None,
        },
    decreases s@.len() - i,
{
    let n = s.unicode_len();
    if i == n {
        proof {
            assert(s@.skip(i as int) =~= Seq::<char>::empty());
        }
        return None;
    }
    let c = s.get_char(i);
    proof {
        assert(s@.skip(i as int)[0] == s@[i as int]);
        assert(s@.skip(i as int).skip(1) =~= s@.skip(i + 1));
    }
    if c == 'e' {
        let v: Vec<APIContent> = Vec::new();
        proof {
            assert(apis_view(v@) =~= Seq::<APIContentView>::empty());
        }
        Some((v, i + 1))
    } else if c == 'i' {
        let (x, j) = match dec_api(s, i + 1) {
            Some(p) => p,
            None => {
                return None;
            },
        };
        let (xs, k) = match dec_apis(s, j) {
            Some(p) => p,
            None => {
                return None;
            },
        };
        let mut v = xs;
        v.insert(0, x);
        proof {
            assert(apis_view(v@) =~= seq![x@] + apis_view(v@.skip(1)));
        }
        Some((v, k))
    } else {
        None
    }
}

/// Reads one source-bundle facet starting at position `i`.
fn dec_source_bundle(s: &str, i: usize) -> (r: Option<(SourceBundleFacet, usize)>)
    requires
        i <= s@.len(),
    ensures
        match r {
            Some(p) => i < p.1 <= s@.len() && spec_dec_source_bundle(s@.skip(i as int)) == Some(
                (p.0@, s@.skip(p.1 as int)),
            ),
            None => spec_dec_source_bundle(s@.skip(i as int)) is None,
        },
{
    let (facet_type, i1) = match dec_facet_type(s, i) {
        Some(p) => p,
        None => {
            return None;
        },
    };
    let n = s.unicode_len();
    if i1 == n {
        proof {
            assert(s@.skip(i1 as int) =~= Seq::<char>::empty());
        }
        return None;
    }
    let c1 = s.get_char(i1);
    proof {
        assert(s@.skip(i1 as int)[0] == s@[i1 as int]);
        assert(s@.skip(i1 as int).skip(1) =~= s@.skip(i1 + 1));
    }
    let (source_files, i2) = if c1 == 'n' {
        (None, i1 + 1)
    } else if c1 == 'x' {
        match dec_source_files(s, i1 + 1) {
            Some(p) => {
                let (fs, j) = p;
                (Some(fs), j)
            },
            None => {
                return None;
            },
        }
    } else {
        return None;
    };
    let n2 = s.unicode_len();
    if i2 == n2 {
        proof {
            assert(s@.skip(i2 as int) =~= Seq::<char>::empty());
        }
        return None;
    }
    let c2 = s.get_char(i2);
    proof {
        assert(s@.skip(i2 as int)[0] == s@[i2 as int]);
        assert(s@.skip(i2 as int).skip(1) =~= s@.skip(i2 + 1));
    }
    let (source_files_content, i3) = if c2 == 'n' {
        (None, i2 + 1)
    } else if c2 == 'x' {
        match dec_content_pairs(s, i2 + 1) {
            Some(p) => {
                let (cs, j) = p;
                (Some(cs), j)
            },
            None => {
                return None;
            },
        }
    } else {
        return None;
    };
    let (labels, i4) = match dec_labels(s, i3) {
        Some(p) => p,
        None => {
            return None;
        },
    };
    let sb = SourceBundleFacet { source_files, facet_type, source_files_content, labels };
    Some((sb, i4))
}

/// Reads one API-bundle facet starting at position `i`.
fn dec_api_bundle(s: &str, i: usize) -> (r: Option<(APIBundleFacet, usize)>)
    requires
        i <= s@.len(),
    ensures
        match r {
            Some(p) => i < p.1 <= s@.len() && spec_dec_api_bundle(s@.skip(i as int)) == Some(
                (p.0@, s@.skip(p.1 as int)),
            ),
            None => spec_dec_api_bundle(s@.skip(i as int)) is None,
        },
{
    let (facet_type, i1) = match dec_facet_type(s, i) {
        Some(p) => p,
        None => {
            return None;
        },
    };
    let (apis, i2) = match dec_apis(s, i1) {
        Some(p) => p,
        None => {
            return None;
        },
    };
    let (labels, i3) = match dec_labels(s, i2) {
        Some(p) => p,
        None => {
            return None;
        },
    };
    Some((APIBundleFacet { apis, facet_type, labels }, i3))
}

/// Reads one facet starting at position `i`.
fn dec_facet(s: &str, i: usize) -> (r: Option<(InitializedFacet, usize)>)
    requires
        i <= s@.len(),
    ensures
        match r {
            Some(p) => i < p.1 <= s@.len() && spec_dec_facet(s@.skip(i as int)) == Some(
                (p.0@, s@.skip(p.1 as int)),
            ),
            None => spec_dec_facet(s@.skip(i as int)) is None,
        },
{
    let n = s.unicode_len();
    if i == n {
        proof {
            assert(s@.skip(i as int) =~= Seq::<char>::empty());
        }
        return None;
    }
    let c = s.get_char(i);
    proof {
        assert(s@.skip(i as int)[0] == s@[i as int]);
        assert(s@.skip(i as int).skip(1) =~= s@.skip(i + 1));
    }
    if c == 'S' {
        match dec_source_bundle(s, i + 1) {
            Some(p) => {
                let (sb, j) = p;
                Some((InitializedFacet::SourceBundle(sb), j))
            },
            None => None,
        }
    } else if c == 'A' {
        match dec_api_bundle(s, i + 1) {
            Some(p) => {
                let (ab, j) = p;
                Some((InitializedFacet::APIBundle(ab), j))
            },
            None => None,
        }
    } else {
        None
    }
}

/// Reads one facet entry starting at position `i`.
fn dec_entry(s: &str, i: usize) -> (r: Option<((FacetMapKey, InitializedFacet), usize)>)
    requires
        i <= s@.len(),
    ensures
        match r {
            Some(p) => i < p.1 <= s@.len() && spec_dec_entry(s@.skip(i as int)) == Some(
                ((p.0.0, p.0.1@), s@.skip(p.1 as int)),
            ),
            None => spec_dec_entry(s@.skip(i as int)) is None,
        },
{
    let n = s.unicode_len();
    if i == n {
        proof {
            assert(s@.skip(i as int) =~= Seq::<char>::empty());
        }
        return None;
    }
    let c = s.get_char(i);
    proof {
        assert(s@.skip(i as int)[0] == s@[i as int]);
        assert(s@.skip(i as int).skip(1) =~= s@.skip(i + 1));
    }
    if c == 't' {
        let (ft, j0) = match dec_facet_type(s, i + 1) {
            Some(p) => p,
            None => {
                return None;
            },
        };
        let (f, j) = match dec_facet(s, j0) {
            Some(p) => p,
            None => {
                return None;
            },
        };
        Some(((FacetMapKey::Type(ft), f), j))
    } else {
        None
    }
}

/// Reads the facet-entry list starting at position `i`.
fn dec_entries(s: &str, i: usize) -> (r: Option<(Vec<(FacetMapKey, InitializedFacet)>, usize)>)
    requires
        i <= s@.len(),
    ensures
        match r {
            Some(p) => i < p.1 <= s@.len() && spec_dec_list(s@.skip(i as int), dec_entry_fn())
                == Some((raw_entries_view(p.0@), s@.skip(p.1 as int))),
            None => spec_dec_list(s@.skip(i as int), dec_entry_fn()) is None,
        },
    decreases s@.len() - i,
{
    let n = s.unicode_len();
    if i == n {
        proof {
            assert(s@.skip(i as int) =~= Seq::<char>::empty());
        }
        return None;
    }
    let c = s.get_char(i);
    proof {
        assert(s@.skip(i as int)[0] == s@[i as int]);
        assert(s@.skip(i as int).skip(1) =~= s@.skip(i + 1));
    }
    if c == 'e' {
        let v: Vec<(FacetMapKey, InitializedFacet)> = Vec::new();
        proof {
            assert(raw_entries_view(v@) =~= Seq::<FacetEntryView>::empty());
        }
        Some((v, i + 1))
    } else if c == 'i' {
        let (x, j) = match dec_entry(s, i + 1) {
            Some(p) => p,
            None => {
                return None;
            },
        };
        let (xs, k) = match dec_entries(s, j) {
            Some(p) => p,
            None => {
                return None;
            },
        };
        let mut v = xs;
        v.insert(0, x);
        proof {
            assert(raw_entries_view(v@) =~= seq![v@[0]].map_values(
                |e: (FacetMapKey, InitializedFacet)| (e.0, e.1@),
            ) + raw_entries_view(v@.skip(1)));
        }
        Some((v, k))
    } else {
        None
    }
}

/// Reads the repository owner starting at position `i`.
fn dec_user(s: &str, i: usize) -> (r: Option<(GithubUser, usize)>)
    requires
        i <= s@.len(),
    ensures
        match r {
            Some(p) => i < p.1 <= s@.len() && spec_dec_user(s@.skip(i as int)) == Some(
                (p.0@, s@.skip(p.1 as int)),
            ),
            None => spec_dec_user(s@.skip(i as int)) is None,
        },
{
    let n = s.unicode_len();
    if i == n {
        proof {
            assert(s@.skip(i as int) =~= Seq::<char>::empty());
        }
        return None;
    }
    let c = s.get_char(i);
    proof {
        assert(s@.skip(i as int)[0] == s@[i as int]);
        assert(s@.skip(i as int).skip(1) =~= s@.skip(i + 1));
    }
    if c == 'u' {
        match dec_str(s, i + 1) {
            Some(p) => {
                let (v, j) = p;
                Some((GithubUser::User(v), j))
            },
            None => None,
        }
    } else if c == 'o' {
        match dec_str(s, i + 1) {
            Some(p) => {
                let (v, j) = p;
                Some((GithubUser::Organization(v), j))
            },
            None => None,
        }
    } else {
        None
    }
}

/// Reads the repository starting at position `i`.
fn dec_repo(s: &str, i: usize) -> (r: Option<(InitializedRepo, usize)>)
    requires
        i <= s@.len(),
    ensures
        match r {
            Some(p) => i < p.1 <= s@.len() && spec_dec_repo(s@.skip(i as int)) == Some(
                (p.0@, s@.skip(p.1 as int)),
            ),
            None => spec_dec_repo(s@.skip(i as int)) is None,
        },
{
    let n = s.unicode_len();
    if i == n {
        proof {
            assert(s@.skip(i as int) =~= Seq::<char>::empty());
        }
        return None;
    }
    let c = s.get_char(i);
    proof {
        assert(s@.skip(i as int)[0] == s@[i as int]);
        assert(s@.skip(i as int).skip(1) =~= s@.skip(i + 1));
    }
    if c == 'h' {
        let (name, j0) = match dec_str(s, i + 1) {
            Some(p) => p,
            None => {
                return None;
            },
        };
        let (organization, j) = match dec_user(s, j0) {
            Some(p) => p,
            None => {
                return None;
            },
        };
        Some((InitializedRepo::Github(InitializedGithubRepo { name, organization }), j))
    } else {
        None
    }
}

/// Reads the ecosystem identity starting at position `i`.
fn dec_ecosystem(s: &str, i: usize) -> (r: Option<(InitializedEcosystem, usize)>)
    requires
        i <= s@.len(),
    ensures
        match r {
            Some(p) => i < p.1 <= s@.len() && spec_dec_ecosystem(s@.skip(i as int)) == Some(
                (p.0@, s@.skip(p.1 as int)),
            ),
            None => spec_dec_ecosystem(s@.skip(i as int)) is None,
        },
{
    let n = s.unicode_len();
    if i == n {
        proof {
            assert(s@.skip(i as int) =~= Seq::<char>::empty());
        }
        return None;
    }
    let c = s.get_char(i);
    proof {
        assert(s@.skip(i as int)[0] == s@[i as int]);
        assert(s@.skip(i as int).skip(1) =~= s@.skip(i + 1));
    }
    if c == 'G' {
        let (name, j0) = match dec_str(s, i + 1) {
            Some(p) => p,
            None => {
                return None;
            },
        };
        let (host, j) = match dec_str(s, j0) {
            Some(p) => p,
            None => {
                return None;
            },
        };
        Some((InitializedEcosystem::Go(InitializedGo { name, host }), j))
    } else if c == 'M' {
        let (group_id, j0) = match dec_str(s, i + 1) {
            Some(p) => p,
            None => {
                return None;
            },
        };
        let (artifact_id, j) = match dec_str(s, j0) {
            Some(p) => p,
            None => {
                return None;
            },
        };
        Some((InitializedEcosystem::Maven(InitializedMaven { group_id, artifact_id }), j))
    } else {
        None
    }
}

/// Whether a facet satisfies the source-bundle invariant.
fn facet_wf(f: &InitializedFacet) -> (b: bool)
    ensures
        b == f@.wf(),
{
    match f {
        InitializedFacet::SourceBundle(sb) => !(sb.source_files.is_some()
            && sb.source_files_content.is_some()),
        InitializedFacet::APIBundle(_) => true,
    }
}

/// Deserializes manifest text into a project.  It succeeds exactly when the
/// whole text is the encoding of one well-formed project; anything else is a
/// decode failure.
pub fn decode_project(s: &str) -> (r: Result<InitializedProject, SkootError>)
    ensures
        r matches Ok(p) ==> spec_decode_manifest(s@) == Some(p@) && p@.wf(),
        r is Ok <==> spec_decode_manifest(s@) is Some,
{
    proof {
        assert(s@.skip(0) =~= s@);
    }
    let n = s.unicode_len();
    let (name, i1) = match dec_str(s, 0) {
        Some(p) => p,
        None => {
            return Err(SkootError::DecodeFailure("invalid manifest".to_owned()));
        },
    };
    let (repo, i2) = match dec_repo(s, i1) {
        Some(p) => p,
        None => {
            return Err(SkootError::DecodeFailure("invalid manifest".to_owned()));
        },
    };
    let (ecosystem, i3) = match dec_ecosystem(s, i2) {
        Some(p) => p,
        None => {
            return Err(SkootError::DecodeFailure("invalid manifest".to_owned()));
        },
    };
    let (path, i4) = match dec_str(s, i3) {
        Some(p) => p,
        None => {
            return Err(SkootError::DecodeFailure("invalid manifest".to_owned()));
        },
    };
    let (entries, i5) = match dec_entries(s, i4) {
        Some(p) => p,
        None => {
            return Err(SkootError::DecodeFailure("invalid manifest".to_owned()));
        },
    };
    if i5 != n {
        proof {
            assert(s@.skip(i5 as int).len() > 0);
        }
        return Err(SkootError::DecodeFailure("manifest has trailing content".to_owned()));
    }
    proof {
        assert(s@.skip(i5 as int) =~= Seq::<char>::empty());
    }
    let ghost pv = spec_dec_project(s@)->Some_0.0;
    proof {
        assert(pv.facets == raw_entries_view(entries@));
    }
    let mut i: usize = 0;
    while i < entries.len()
        invariant
            i <= entries.len(),
            spec_dec_project(s@) is Some,
            spec_dec_project(s@)->Some_0.1.len() == 0,
            spec_dec_project(s@)->Some_0.0.facets == raw_entries_view(entries@),
            forall|j: int| 0 <= j < i ==> (#[trigger] raw_entries_view(entries@)[j]).1.wf(),
            raw_entries_view(entries@).len() == entries@.len(),
        decreases entries.len() - i,
    {
        if !facet_wf(&entries[i].1) {
            proof {
                assert(!(raw_entries_view(entries@)[i as int]).1.wf());
            }
            return Err(SkootError::DecodeFailure("manifest facet is malformed".to_owned()));
        }
        proof {
            assert((raw_entries_view(entries@)[i as int]).1.wf());
        }
        i += 1;
    }
    let facets = match FacetMap::from_entries(entries) {
        Some(m) => m,
        None => {
            return Err(SkootError::DecodeFailure("manifest repeats a facet key".to_owned()));
        },
    };
    let project = InitializedProject {
        repo,
        ecosystem,
        source: InitializedSource { path },
        facets,
        name,
    };
    proof {
        assert(project@ =~~= pv);
        assert(project@.wf());
    }
    Ok(project)
}

} // verus!
