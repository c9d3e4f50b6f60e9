//! Tests of the repository-created event model: field validation, wire
//! names, timestamps and the builders.

use std::collections::HashMap;
use std::str::FromStr;

use skootrs::repo_created::builder;
use skootrs::repo_created::{
    RepositoryCreatedEvent, RepositoryCreatedEventContext, RepositoryCreatedEventContextId,
    RepositoryCreatedEventContextType, RepositoryCreatedEventContextVersion,
    RepositoryCreatedEventCustomData, RepositoryCreatedEventSubject,
    RepositoryCreatedEventSubjectContent, RepositoryCreatedEventSubjectContentName,
    RepositoryCreatedEventSubjectContentUrl, RepositoryCreatedEventSubjectId,
    RepositoryCreatedEventSubjectType, Timestamp,
};

#[test]
fn context_id_rejects_empty_text() {
    assert!(RepositoryCreatedEventContextId::new(String::new()).is_err());
    let id = RepositoryCreatedEventContextId::new("271069a8-fc18-44f1-b38f-9d70a1695819".to_string())
        .unwrap();
    assert_eq!(id.as_str(), "271069a8-fc18-44f1-b38f-9d70a1695819");
}

#[test]
fn newtypes_parse_from_text() {
    assert!(RepositoryCreatedEventContextVersion::from_str("0.1.2").is_ok());
    assert_eq!(
        RepositoryCreatedEventContextVersion::from_str(""),
        Err("shorter than 1 characters")
    );
    assert!(RepositoryCreatedEventSubjectId::from_str("subject").is_ok());
    assert!(RepositoryCreatedEventSubjectContentName::from_str("repo").is_ok());
    assert!(RepositoryCreatedEventSubjectContentUrl::from_str("https://example.org/repo").is_ok());
    assert!(RepositoryCreatedEventSubjectContentUrl::from_str("").is_err());
}

#[test]
fn newtype_hands_its_text_back() {
    let url =
        RepositoryCreatedEventSubjectContentUrl::new("https://example.org/repo".to_string())
            .unwrap();
    assert_eq!(url.into_string(), "https://example.org/repo");
}

#[test]
fn from_a_reference_clones_the_value() {
    let id = RepositoryCreatedEventContextId::new("occurrence".to_string()).unwrap();
    let copy = RepositoryCreatedEventContextId::from(&id);
    assert_eq!(copy, id);
    let content = sample_content();
    let content_copy = RepositoryCreatedEventSubjectContent::from(&content);
    assert_eq!(content_copy.name.as_str(), content.name.as_str());
    assert_eq!(content_copy.owner, content.owner);
    let subject = sample_subject();
    let subject_copy = subject.clone();
    assert_eq!(subject_copy.id.as_str(), subject.id.as_str());
    assert_eq!(subject_copy.source, subject.source);
}

#[test]
fn context_type_has_its_wire_name() {
    let t = RepositoryCreatedEventContextType::default();
    assert_eq!(t.to_string(), "dev.cdevents.repository.created.0.1.1");
    assert_eq!(
        RepositoryCreatedEventContextType::from_str("dev.cdevents.repository.created.0.1.1"),
        Ok(RepositoryCreatedEventContextType::DevCdeventsRepositoryCreated011)
    );
    assert_eq!(
        RepositoryCreatedEventContextType::from_str("something else"),
        Err("invalid value")
    );
}

#[test]
fn subject_type_has_its_wire_name() {
    let t = RepositoryCreatedEventSubjectType::default();
    assert_eq!(t.to_string(), "repository");
    assert_eq!(
        RepositoryCreatedEventSubjectType::from_str("repository"),
        Ok(RepositoryCreatedEventSubjectType::Repository)
    );
    assert!(RepositoryCreatedEventSubjectType::from_str("pipeline").is_err());
}

#[test]
fn timestamp_rejects_an_overlong_nanosecond_part() {
    assert_eq!(
        Timestamp::new(1_700_000_000, 999_999_999),
        Ok(Timestamp {
            secs: 1_700_000_000,
            nanos: 999_999_999,
        })
    );
    assert!(Timestamp::new(1_700_000_000, 1_000_000_000).is_err());
}

fn sample_content() -> RepositoryCreatedEventSubjectContent {
    RepositoryCreatedEventSubjectContent::builder()
        .name(RepositoryCreatedEventSubjectContentName::new("test".to_string()).unwrap())
        .url(
            RepositoryCreatedEventSubjectContentUrl::new(
                "https://github.com/testuser/test".to_string(),
            )
            .unwrap(),
        )
        .owner(Some("testuser".to_string()))
        .build()
        .unwrap()
}

#[test]
fn subject_content_builder_assembles_all_fields() {
    let content = sample_content();
    assert_eq!(content.name.as_str(), "test");
    assert_eq!(content.url.as_str(), "https://github.com/testuser/test");
    assert_eq!(content.owner, Some("testuser".to_string()));
    assert_eq!(content.view_url, None);
}

#[test]
fn subject_content_builder_reports_the_first_missing_field() {
    let built = RepositoryCreatedEventSubjectContent::builder().build();
    assert_eq!(built.unwrap_err(), "no value supplied for name");
    let built = RepositoryCreatedEventSubjectContent::builder()
        .name(RepositoryCreatedEventSubjectContentName::new("test".to_string()).unwrap())
        .build();
    assert_eq!(built.unwrap_err(), "no value supplied for url");
}

fn sample_subject() -> RepositoryCreatedEventSubject {
    RepositoryCreatedEventSubject::builder()
        .content(sample_content())
        .id(RepositoryCreatedEventSubjectId::new("subject".to_string()).unwrap())
        .type_(RepositoryCreatedEventSubjectType::Repository)
        .build()
        .unwrap()
}

#[test]
fn subject_builder_assembles_all_fields() {
    let subject = sample_subject();
    assert_eq!(subject.id.as_str(), "subject");
    assert_eq!(subject.source, None);
    assert_eq!(subject.content.name.as_str(), "test");
}

#[test]
fn subject_builder_reports_the_first_missing_field() {
    let built = builder::RepositoryCreatedEventSubject::default().build();
    assert_eq!(built.unwrap_err(), "no value supplied for content");
    let built = RepositoryCreatedEventSubject::builder()
        .content(sample_content())
        .build();
    assert_eq!(built.unwrap_err(), "no value supplied for id");
}

#[test]
fn event_builder_assembles_a_whole_event() {
    let context = RepositoryCreatedEventContext::builder()
        .id(RepositoryCreatedEventContextId::new("occurrence".to_string()).unwrap())
        .source("/event/source".to_string())
        .timestamp(Timestamp::new(1_700_000_000, 0).unwrap())
        .type_(RepositoryCreatedEventContextType::default())
        .version(RepositoryCreatedEventContextVersion::new("0.1.2".to_string()).unwrap())
        .build()
        .unwrap();
    let mut data = HashMap::new();
    data.insert(
        "origin".to_string(),
        serde_json::Value::String("test".to_string()),
    );
    let event = RepositoryCreatedEvent::builder()
        .context(context)
        .subject(sample_subject())
        .custom_data(Some(RepositoryCreatedEventCustomData::Variant0(data)))
        .custom_data_content_type(Some("application/json".to_string()))
        .build()
        .unwrap();
    assert_eq!(event.context.id.as_str(), "occurrence");
    assert_eq!(event.context.source, "/event/source");
    assert_eq!(event.context.timestamp.secs, 1_700_000_000);
    assert_eq!(event.subject.id.as_str(), "subject");
    assert_eq!(
        event.custom_data_content_type,
        Some("application/json".to_string())
    );
    match event.custom_data {
        Some(RepositoryCreatedEventCustomData::Variant0(d)) => {
            assert_eq!(d.len(), 1);
            assert!(d.contains_key("origin"));
        }
        _ => panic!("expected structured custom data"),
    }
}

#[test]
fn event_builder_reports_the_first_missing_field() {
    let built = RepositoryCreatedEvent::builder().build();
    assert_eq!(built.unwrap_err(), "no value supplied for context");
    let built = RepositoryCreatedEvent::builder()
        .subject(sample_subject())
        .build();
    assert_eq!(built.unwrap_err(), "no value supplied for context");
}

#[test]
fn context_builder_reports_the_first_missing_field() {
    let built = RepositoryCreatedEventContext::builder().build();
    assert_eq!(built.unwrap_err(), "no value supplied for id");
}
