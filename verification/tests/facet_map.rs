//! Behaviour of the facet collection: keyed storage, overwrite-on-collision,
//! removal and uniqueness checking.

use skootrs::facet::{
    APIBundleFacet, APIContent, FacetMap, FacetMapKey, InitializedFacet, SourceBundleFacet,
    SourceFile, SupportedFacetType, merge_facets,
};
use skootrs::model::Label;

fn source_facet(t: SupportedFacetType, hash: &str) -> InitializedFacet {
    InitializedFacet::SourceBundle(SourceBundleFacet {
        source_files: Some(vec![SourceFile {
            name: "file".to_string(),
            path: "./".to_string(),
            hash: hash.to_string(),
        }]),
        facet_type: t,
        source_files_content: None,
        labels: vec![Label::Custom("test".to_string())],
    })
}

fn api_facet(t: SupportedFacetType) -> InitializedFacet {
    InitializedFacet::APIBundle(APIBundleFacet {
        apis: vec![APIContent {
            name: "check".to_string(),
            url: "https://foo.bar/check".to_string(),
            response: "ok".to_string(),
        }],
        facet_type: t,
        labels: vec![],
    })
}

#[test]
fn insert_under_a_new_key_appends() {
    let mut m = FacetMap::new();
    assert_eq!(m.len(), 0);
    m.insert(
        FacetMapKey::Type(SupportedFacetType::Readme),
        source_facet(SupportedFacetType::Readme, "a"),
    );
    m.insert(
        FacetMapKey::Type(SupportedFacetType::License),
        source_facet(SupportedFacetType::License, "b"),
    );
    assert_eq!(m.len(), 2);
    assert_eq!(
        m.keys(),
        vec![
            FacetMapKey::Type(SupportedFacetType::Readme),
            FacetMapKey::Type(SupportedFacetType::License),
        ]
    );
}

#[test]
fn insert_under_an_existing_key_overwrites() {
    let mut m = FacetMap::new();
    m.insert(
        FacetMapKey::Type(SupportedFacetType::Readme),
        source_facet(SupportedFacetType::Readme, "old"),
    );
    m.insert(
        FacetMapKey::Type(SupportedFacetType::Readme),
        source_facet(SupportedFacetType::Readme, "new"),
    );
    assert_eq!(m.len(), 1);
    match m.get(&FacetMapKey::Type(SupportedFacetType::Readme)) {
        Some(InitializedFacet::SourceBundle(sb)) => {
            assert_eq!(sb.source_files.as_ref().unwrap()[0].hash, "new");
        }
        _ => panic!("facet missing"),
    }
}

#[test]
fn get_misses_an_absent_key() {
    let m = FacetMap::new();
    assert!(m.get(&FacetMapKey::Type(SupportedFacetType::Readme)).is_none());
}

#[test]
fn take_removes_the_entry() {
    let mut m = FacetMap::new();
    m.insert(
        FacetMapKey::Type(SupportedFacetType::Readme),
        source_facet(SupportedFacetType::Readme, "a"),
    );
    let taken = m.take(&FacetMapKey::Type(SupportedFacetType::Readme));
    assert!(taken.is_some());
    assert_eq!(m.len(), 0);
    assert!(m.take(&FacetMapKey::Type(SupportedFacetType::Readme)).is_none());
}

#[test]
fn from_entries_refuses_a_repeated_key() {
    let entries = vec![
        (
            FacetMapKey::Type(SupportedFacetType::Readme),
            source_facet(SupportedFacetType::Readme, "a"),
        ),
        (
            FacetMapKey::Type(SupportedFacetType::Readme),
            source_facet(SupportedFacetType::Readme, "b"),
        ),
    ];
    assert!(FacetMap::from_entries(entries).is_none());
    let distinct = vec![
        (
            FacetMapKey::Type(SupportedFacetType::Readme),
            source_facet(SupportedFacetType::Readme, "a"),
        ),
        (
            FacetMapKey::Type(SupportedFacetType::License),
            source_facet(SupportedFacetType::License, "b"),
        ),
    ];
    assert!(FacetMap::from_entries(distinct).is_some());
}

#[test]
fn merge_keeps_the_last_facet_of_a_colliding_type() {
    let merged = merge_facets(vec![
        source_facet(SupportedFacetType::Readme, "first"),
        api_facet(SupportedFacetType::BranchProtection),
        source_facet(SupportedFacetType::Readme, "second"),
    ]);
    assert_eq!(merged.len(), 2);
    match merged.get(&FacetMapKey::Type(SupportedFacetType::Readme)) {
        Some(InitializedFacet::SourceBundle(sb)) => {
            assert_eq!(sb.source_files.as_ref().unwrap()[0].hash, "second");
        }
        _ => panic!("merged facet missing"),
    }
}

#[test]
fn merge_counts_distinct_types_only() {
    let merged = merge_facets(vec![
        source_facet(SupportedFacetType::Readme, "a"),
        source_facet(SupportedFacetType::Readme, "b"),
        source_facet(SupportedFacetType::Readme, "c"),
    ]);
    assert_eq!(merged.len(), 1);
}
