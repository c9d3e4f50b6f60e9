//! The repository-created event: the record emitted when a project's
//! repository has been created, with validated identifier, URL and version
//! fields, and builders for assembling an event field by field.

pub mod builder;

use std::collections::HashMap;
use vstd::prelude::*;

verus! {

/// Carries arbitrary structured custom data through an event; the event
/// logic stores it without reading it.
#[verifier::external_type_specification]
#[verifier::external_body]
pub struct ExSerdeJsonValue(serde_json::Value);

/// An instant in time: whole seconds since the Unix epoch, and the
/// nanosecond part within that second.
#[derive(Debug, PartialEq, Eq, Clone, Copy, Structural, Hash)]
pub struct Timestamp {
    pub secs: i64,
    pub nanos: u32,
}

impl Timestamp {
    /// The nanosecond part names a point inside one second.
    pub open spec fn wf(self) -> bool {
        self.nanos < 1_000_000_000
    }

    /// Builds a timestamp, refusing a nanosecond part of a second or more.
    pub fn new(secs: i64, nanos: u32) -> (r: Result<Timestamp, &'static str>)
        ensures
            nanos < 1_000_000_000 ==> r == Ok::<Timestamp, &'static str>(
                Timestamp { secs, nanos },
            ),
            nanos >= 1_000_000_000 ==> r is Err,
            r matches Ok(t) ==> t.wf(),
    {
        if nanos < 1_000_000_000 {
            Ok(Timestamp { secs, nanos })
        } else {
            Err("nanoseconds out of range")
        }
    }
}

/// The identifier of the event occurrence; never empty.
#[derive(Debug, PartialEq, Eq, Hash)]
pub struct RepositoryCreatedEventContextId(String);

impl View for RepositoryCreatedEventContextId {
    type V = Seq<char>;

    closed spec fn view(&self) -> Seq<char> {
        self.0@
    }
}

impl RepositoryCreatedEventContextId {
    /// Accepts any text of at least one character.
    pub fn new(value: String) -> (r: Result<Self, &'static str>)
        ensures
            value@.len() >= 1 ==> (r matches Ok(id) && id@ == value@),
            value@.len() == 0 ==> r is Err,
    {
        if value.as_str().is_empty() {
            Err("shorter than 1 characters")
        } else {
            Ok(RepositoryCreatedEventContextId(value))
        }
    }

    pub fn as_str(&self) -> (s: &str)
        ensures
            s@ == self@,
    {
        self.0.as_str()
    }

    pub fn into_string(self) -> (s: String)
        ensures
            s@ == self@,
    {
        self.0
    }

    /// The wrapped text, as a specification-level value.
    pub closed spec fn spec_string(self) -> String {
        self.0
    }
}

impl From<RepositoryCreatedEventContextId> for String {
    fn from(value: RepositoryCreatedEventContextId) -> Self {
        value.0
    }
}

impl vstd::std_specs::convert::FromSpecImpl<RepositoryCreatedEventContextId> for String {
    open spec fn obeys_from_spec() -> bool {
        true
    }

    open spec fn from_spec(v: RepositoryCreatedEventContextId) -> Self {
        v.spec_string()
    }
}

impl std::str::FromStr for RepositoryCreatedEventContextId {
    type Err = &'static str;

    fn from_str(value: &str) -> Result<Self, &'static str> {
        Self::new(value.to_owned())
    }
}

impl Clone for RepositoryCreatedEventContextId {
    fn clone(&self) -> (r: Self)
        ensures
            r == *self,
    {
        RepositoryCreatedEventContextId(self.0.clone())
    }
}

impl From<&RepositoryCreatedEventContextId> for RepositoryCreatedEventContextId {
    fn from(value: &RepositoryCreatedEventContextId) -> Self {
        value.clone()
    }
}

impl vstd::std_specs::convert::FromSpecImpl<&RepositoryCreatedEventContextId> for RepositoryCreatedEventContextId {
    open spec fn obeys_from_spec() -> bool {
        true
    }

    open spec fn from_spec(v: &RepositoryCreatedEventContextId) -> Self {
        *v
    }
}

/// The version of the event's context; never empty.
#[derive(Debug, PartialEq, Eq, Hash)]
pub struct RepositoryCreatedEventContextVersion(String);

impl View for RepositoryCreatedEventContextVersion {
    type V = Seq<char>;

    closed spec fn view(&self) -> Seq<char> {
        self.0@
    }
}

impl RepositoryCreatedEventContextVersion {
    /// Accepts any text of at least one character.
    pub fn new(value: String) -> (r: Result<Self, &'static str>)
        ensures
            value@.len() >= 1 ==> (r matches Ok(v) && v@ == value@),
            value@.len() == 0 ==> r is Err,
    {
        if value.as_str().is_empty() {
            Err("shorter than 1 characters")
        } else {
            Ok(RepositoryCreatedEventContextVersion(value))
        }
    }

    pub fn as_str(&self) -> (s: &str)
        ensures
            s@ == self@,
    {
        self.0.as_str()
    }

    pub fn into_string(self) -> (s: String)
        ensures
            s@ == self@,
    {
        self.0
    }

    /// The wrapped text, as a specification-level value.
    pub closed spec fn spec_string(self) -> String {
        self.0
    }
}

impl From<RepositoryCreatedEventContextVersion> for String {
    fn from(value: RepositoryCreatedEventContextVersion) -> Self {
        value.0
    }
}

impl vstd::std_specs::convert::FromSpecImpl<RepositoryCreatedEventContextVersion> for String {
    open spec fn obeys_from_spec() -> bool {
        true
    }

    open spec fn from_spec(v: RepositoryCreatedEventContextVersion) -> Self {
        v.spec_string()
    }
}

impl std::str::FromStr for RepositoryCreatedEventContextVersion {
    type Err = &'static str;

    fn from_str(value: &str) -> Result<Self, &'static str> {
        Self::new(value.to_owned())
    }
}

impl Clone for RepositoryCreatedEventContextVersion {
    fn clone(&self) -> (r: Self)
        ensures
            r == *self,
    {
        RepositoryCreatedEventContextVersion(self.0.clone())
    }
}

impl From<&RepositoryCreatedEventContextVersion> for RepositoryCreatedEventContextVersion {
    fn from(value: &RepositoryCreatedEventContextVersion) -> Self {
        value.clone()
    }
}

impl vstd::std_specs::convert::FromSpecImpl<&RepositoryCreatedEventContextVersion> for RepositoryCreatedEventContextVersion {
    open spec fn obeys_from_spec() -> bool {
        true
    }

    open spec fn from_spec(v: &RepositoryCreatedEventContextVersion) -> Self {
        *v
    }
}

/// The one event type this record can carry.
#[derive(Debug, PartialEq, Eq, Clone, Copy, Structural, Hash)]
pub enum RepositoryCreatedEventContextType {
    DevCdeventsRepositoryCreated011,
}

impl RepositoryCreatedEventContextType {
    /// The type's wire name.
    pub fn to_string(&self) -> (s: String)
        ensures
            s@ == "dev.cdevents.repository.created.0.1.1"@,
    {
        "dev.cdevents.repository.created.0.1.1".to_owned()
    }
}

impl std::str::FromStr for RepositoryCreatedEventContextType {
    type Err = &'static str;

    fn from_str(value: &str) -> Result<Self, &'static str> {
        if value.to_owned() == "dev.cdevents.repository.created.0.1.1".to_owned() {
            Ok(RepositoryCreatedEventContextType::DevCdeventsRepositoryCreated011)
        } else {
            Err("invalid value")
        }
    }
}

impl Default for RepositoryCreatedEventContextType {
    fn default() -> (r: Self)
        ensures
            r == RepositoryCreatedEventContextType::DevCdeventsRepositoryCreated011,
    {
        RepositoryCreatedEventContextType::DevCdeventsRepositoryCreated011
    }
}

impl From<&RepositoryCreatedEventContextType> for RepositoryCreatedEventContextType {
    fn from(value: &RepositoryCreatedEventContextType) -> Self {
        *value
    }
}

impl vstd::std_specs::convert::FromSpecImpl<&RepositoryCreatedEventContextType> for RepositoryCreatedEventContextType {
    open spec fn obeys_from_spec() -> bool {
        true
    }

    open spec fn from_spec(v: &RepositoryCreatedEventContextType) -> Self {
        *v
    }
}


/// Clones an optional text field.
fn clone_opt_string(o: &Option<String>) -> (r: Option<String>)
    ensures
        r == *o,
{
    match o {
        Some(s) => Some(s.clone()),
        None => None,
    }
}

/// Where and when the event occurred.
#[derive(Debug)]
pub struct RepositoryCreatedEventContext {
    pub id: RepositoryCreatedEventContextId,
    pub source: String,
    pub timestamp: Timestamp,
    pub type_: RepositoryCreatedEventContextType,
    pub version: RepositoryCreatedEventContextVersion,
}

impl RepositoryCreatedEventContext {
    /// A fresh builder with no required field supplied yet.
    pub fn builder() -> (b: builder::RepositoryCreatedEventContext)
        ensures
            b.id is Err,
            b.source is Err,
            b.timestamp is Err,
            b.type_ is Err,
            b.version is Err,
    {
        builder::RepositoryCreatedEventContext::default()
    }
}

impl Clone for RepositoryCreatedEventContext {
    fn clone(&self) -> (r: Self)
        ensures
            r == *self,
    {
        RepositoryCreatedEventContext {
            id: self.id.clone(),
            source: self.source.clone(),
            timestamp: self.timestamp,
            type_: self.type_,
            version: self.version.clone(),
        }
    }
}

impl From<&RepositoryCreatedEventContext> for RepositoryCreatedEventContext {
    fn from(value: &RepositoryCreatedEventContext) -> Self {
        value.clone()
    }
}

impl vstd::std_specs::convert::FromSpecImpl<&RepositoryCreatedEventContext> for RepositoryCreatedEventContext {
    open spec fn obeys_from_spec() -> bool {
        true
    }

    open spec fn from_spec(v: &RepositoryCreatedEventContext) -> Self {
        *v
    }
}

/// Free-form data attached to an event, either structured or raw text.
#[derive(Debug)]
pub enum RepositoryCreatedEventCustomData {
    Variant0(HashMap<String, serde_json::Value>),
    Variant1(String),
}

/// The name of the created repository; never empty.
#[derive(Debug, PartialEq, Eq, Hash)]
pub struct RepositoryCreatedEventSubjectContentName(String);

impl View for RepositoryCreatedEventSubjectContentName {
    type V = Seq<char>;

    closed spec fn view(&self) -> Seq<char> {
        self.0@
    }
}

impl RepositoryCreatedEventSubjectContentName {
    /// Accepts any text of at least one character.
    pub fn new(value: String) -> (r: Result<Self, &'static str>)
        ensures
            value@.len() >= 1 ==> (r matches Ok(v) && v@ == value@),
            value@.len() == 0 ==> r is Err,
    {
        if value.as_str().is_empty() {
            Err("shorter than 1 characters")
        } else {
            Ok(RepositoryCreatedEventSubjectContentName(value))
        }
    }

    pub fn as_str(&self) -> (s: &str)
        ensures
            s@ == self@,
    {
        self.0.as_str()
    }

    pub fn into_string(self) -> (s: String)
        ensures
            s@ == self@,
    {
        self.0
    }

    /// The wrapped text, as a specification-level value.
    pub closed spec fn spec_string(self) -> String {
        self.0
    }
}

impl From<RepositoryCreatedEventSubjectContentName> for String {
    fn from(value: RepositoryCreatedEventSubjectContentName) -> Self {
        value.0
    }
}

impl vstd::std_specs::convert::FromSpecImpl<RepositoryCreatedEventSubjectContentName> for String {
    open spec fn obeys_from_spec() -> bool {
        true
    }

    open spec fn from_spec(v: RepositoryCreatedEventSubjectContentName) -> Self {
        v.spec_string()
    }
}

impl std::str::FromStr for RepositoryCreatedEventSubjectContentName {
    type Err = &'static str;

    fn from_str(value: &str) -> Result<Self, &'static str> {
        Self::new(value.to_owned())
    }
}

impl Clone for RepositoryCreatedEventSubjectContentName {
    fn clone(&self) -> (r: Self)
        ensures
            r == *self,
    {
        RepositoryCreatedEventSubjectContentName(self.0.clone())
    }
}

impl From<&RepositoryCreatedEventSubjectContentName> for RepositoryCreatedEventSubjectContentName {
    fn from(value: &RepositoryCreatedEventSubjectContentName) -> Self {
        value.clone()
    }
}

impl vstd::std_specs::convert::FromSpecImpl<&RepositoryCreatedEventSubjectContentName> for RepositoryCreatedEventSubjectContentName {
    open spec fn obeys_from_spec() -> bool {
        true
    }

    open spec fn from_spec(v: &RepositoryCreatedEventSubjectContentName) -> Self {
        *v
    }
}

/// The URL of the created repository; never empty.
#[derive(Debug, PartialEq, Eq, Hash)]
pub struct RepositoryCreatedEventSubjectContentUrl(String);

impl View for RepositoryCreatedEventSubjectContentUrl {
    type V = Seq<char>;

    closed spec fn view(&self) -> Seq<char> {
        self.0@
    }
}

impl RepositoryCreatedEventSubjectContentUrl {
    /// Accepts any text of at least one character.
    pub fn new(value: String) -> (r: Result<Self, &'static str>)
        ensures
            value@.len() >= 1 ==> (r matches Ok(v) && v@ == value@),
            value@.len() == 0 ==> r is Err,
    {
        if value.as_str().is_empty() {
            Err("shorter than 1 characters")
        } else {
            Ok(RepositoryCreatedEventSubjectContentUrl(value))
        }
    }

    pub fn as_str(&self) -> (s: &str)
        ensures
            s@ == self@,
    {
        self.0.as_str()
    }

    pub fn into_string(self) -> (s: String)
        ensures
            s@ == self@,
    {
        self.0
    }

    /// The wrapped text, as a specification-level value.
    pub closed spec fn spec_string(self) -> String {
        self.0
    }
}

impl From<RepositoryCreatedEventSubjectContentUrl> for String {
    fn from(value: RepositoryCreatedEventSubjectContentUrl) -> Self {
        value.0
    }
}

impl vstd::std_specs::convert::FromSpecImpl<RepositoryCreatedEventSubjectContentUrl> for String {
    open spec fn obeys_from_spec() -> bool {
        true
    }

    open spec fn from_spec(v: RepositoryCreatedEventSubjectContentUrl) -> Self {
        v.spec_string()
    }
}

impl std::str::FromStr for RepositoryCreatedEventSubjectContentUrl {
    type Err = &'static str;

    fn from_str(value: &str) -> Result<Self, &'static str> {
        Self::new(value.to_owned())
    }
}

impl Clone for RepositoryCreatedEventSubjectContentUrl {
    fn clone(&self) -> (r: Self)
        ensures
            r == *self,
    {
        RepositoryCreatedEventSubjectContentUrl(self.0.clone())
    }
}

impl From<&RepositoryCreatedEventSubjectContentUrl> for RepositoryCreatedEventSubjectContentUrl {
    fn from(value: &RepositoryCreatedEventSubjectContentUrl) -> Self {
        value.clone()
    }
}

impl vstd::std_specs::convert::FromSpecImpl<&RepositoryCreatedEventSubjectContentUrl> for RepositoryCreatedEventSubjectContentUrl {
    open spec fn obeys_from_spec() -> bool {
        true
    }

    open spec fn from_spec(v: &RepositoryCreatedEventSubjectContentUrl) -> Self {
        *v
    }
}

/// The identifier of the event's subject; never empty.
#[derive(Debug, PartialEq, Eq, Hash)]
pub struct RepositoryCreatedEventSubjectId(String);

impl View for RepositoryCreatedEventSubjectId {
    type V = Seq<char>;

    closed spec fn view(&self) -> Seq<char> {
        self.0@
    }
}

impl RepositoryCreatedEventSubjectId {
    /// Accepts any text of at least one character.
    pub fn new(value: String) -> (r: Result<Self, &'static str>)
        ensures
            value@.len() >= 1 ==> (r matches Ok(v) && v@ == value@),
            value@.len() == 0 ==> r is Err,
    {
        if value.as_str().is_empty() {
            Err("shorter than 1 characters")
        } else {
            Ok(RepositoryCreatedEventSubjectId(value))
        }
    }

    pub fn as_str(&self) -> (s: &str)
        ensures
            s@ == self@,
    {
        self.0.as_str()
    }

    pub fn into_string(self) -> (s: String)
        ensures
            s@ == self@,
    {
        self.0
    }

    /// The wrapped text, as a specification-level value.
    pub closed spec fn spec_string(self) -> String {
        self.0
    }
}

impl From<RepositoryCreatedEventSubjectId> for String {
    fn from(value: RepositoryCreatedEventSubjectId) -> Self {
        value.0
    }
}

impl vstd::std_specs::convert::FromSpecImpl<RepositoryCreatedEventSubjectId> for String {
    open spec fn obeys_from_spec() -> bool {
        true
    }

    open spec fn from_spec(v: RepositoryCreatedEventSubjectId) -> Self {
        v.spec_string()
    }
}

impl std::str::FromStr for RepositoryCreatedEventSubjectId {
    type Err = &'static str;

    fn from_str(value: &str) -> Result<Self, &'static str> {
        Self::new(value.to_owned())
    }
}

impl Clone for RepositoryCreatedEventSubjectId {
    fn clone(&self) -> (r: Self)
        ensures
            r == *self,
    {
        RepositoryCreatedEventSubjectId(self.0.clone())
    }
}

impl From<&RepositoryCreatedEventSubjectId> for RepositoryCreatedEventSubjectId {
    fn from(value: &RepositoryCreatedEventSubjectId) -> Self {
        value.clone()
    }
}

impl vstd::std_specs::convert::FromSpecImpl<&RepositoryCreatedEventSubjectId> for RepositoryCreatedEventSubjectId {
    open spec fn obeys_from_spec() -> bool {
        true
    }

    open spec fn from_spec(v: &RepositoryCreatedEventSubjectId) -> Self {
        *v
    }
}

/// The one subject kind this record can carry.
#[derive(Debug, PartialEq, Eq, Clone, Copy, Structural, Hash)]
pub enum RepositoryCreatedEventSubjectType {
    Repository,
}

impl RepositoryCreatedEventSubjectType {
    /// The subject kind's wire name.
    pub fn to_string(&self) -> (s: String)
        ensures
            s@ == "repository"@,
    {
        "repository".to_owned()
    }
}

impl std::str::FromStr for RepositoryCreatedEventSubjectType {
    type Err = &'static str;

    fn from_str(value: &str) -> Result<Self, &'static str> {
        if value.to_owned() == "repository".to_owned() {
            Ok(RepositoryCreatedEventSubjectType::Repository)
        } else {
            Err("invalid value")
        }
    }
}

impl Default for RepositoryCreatedEventSubjectType {
    fn default() -> (r: Self)
        ensures
            r == RepositoryCreatedEventSubjectType::Repository,
    {
        RepositoryCreatedEventSubjectType::Repository
    }
}

impl From<&RepositoryCreatedEventSubjectType> for RepositoryCreatedEventSubjectType {
    fn from(value: &RepositoryCreatedEventSubjectType) -> Self {
        *value
    }
}

impl vstd::std_specs::convert::FromSpecImpl<&RepositoryCreatedEventSubjectType> for RepositoryCreatedEventSubjectType {
    open spec fn obeys_from_spec() -> bool {
        true
    }

    open spec fn from_spec(v: &RepositoryCreatedEventSubjectType) -> Self {
        *v
    }
}

/// What the event describes: the created repository itself.
#[derive(Debug)]
pub struct RepositoryCreatedEventSubjectContent {
    pub name: RepositoryCreatedEventSubjectContentName,
    pub owner: Option<String>,
    pub url: RepositoryCreatedEventSubjectContentUrl,
    pub view_url: Option<String>,
}

impl RepositoryCreatedEventSubjectContent {
    /// A fresh builder: the optional fields empty, the required fields not
    /// yet supplied.
    pub fn builder() -> (b: builder::RepositoryCreatedEventSubjectContent)
        ensures
            b.name is Err,
            b.owner == Ok::<Option<String>, String>(None),
            b.url is Err,
            b.view_url == Ok::<Option<String>, String>(None),
    {
        builder::RepositoryCreatedEventSubjectContent::default()
    }
}

impl Clone for RepositoryCreatedEventSubjectContent {
    fn clone(&self) -> (r: Self)
        ensures
            r == *self,
    {
        RepositoryCreatedEventSubjectContent {
            name: self.name.clone(),
            owner: clone_opt_string(&self.owner),
            url: self.url.clone(),
            view_url: clone_opt_string(&self.view_url),
        }
    }
}

impl From<&RepositoryCreatedEventSubjectContent> for RepositoryCreatedEventSubjectContent {
    fn from(value: &RepositoryCreatedEventSubjectContent) -> Self {
        value.clone()
    }
}

impl vstd::std_specs::convert::FromSpecImpl<&RepositoryCreatedEventSubjectContent> for RepositoryCreatedEventSubjectContent {
    open spec fn obeys_from_spec() -> bool {
        true
    }

    open spec fn from_spec(v: &RepositoryCreatedEventSubjectContent) -> Self {
        *v
    }
}

/// The subject of the event: its identifier, kind, origin and content.
#[derive(Debug)]
pub struct RepositoryCreatedEventSubject {
    pub content: RepositoryCreatedEventSubjectContent,
    pub id: RepositoryCreatedEventSubjectId,
    pub source: Option<String>,
    pub type_: RepositoryCreatedEventSubjectType,
}

impl RepositoryCreatedEventSubject {
    /// A fresh builder: the optional source empty, the required fields not
    /// yet supplied.
    pub fn builder() -> (b: builder::RepositoryCreatedEventSubject)
        ensures
            b.content is Err,
            b.id is Err,
            b.source == Ok::<Option<String>, String>(None),
            b.type_ is Err,
    {
        builder::RepositoryCreatedEventSubject::default()
    }
}

impl Clone for RepositoryCreatedEventSubject {
    fn clone(&self) -> (r: Self)
        ensures
            r == *self,
    {
        RepositoryCreatedEventSubject {
            content: self.content.clone(),
            id: self.id.clone(),
            source: clone_opt_string(&self.source),
            type_: self.type_,
        }
    }
}

impl From<&RepositoryCreatedEventSubject> for RepositoryCreatedEventSubject {
    fn from(value: &RepositoryCreatedEventSubject) -> Self {
        value.clone()
    }
}

impl vstd::std_specs::convert::FromSpecImpl<&RepositoryCreatedEventSubject> for RepositoryCreatedEventSubject {
    open spec fn obeys_from_spec() -> bool {
        true
    }

    open spec fn from_spec(v: &RepositoryCreatedEventSubject) -> Self {
        *v
    }
}

/// The whole repository-created event.
#[derive(Debug)]
pub struct RepositoryCreatedEvent {
    pub context: RepositoryCreatedEventContext,
    pub custom_data: Option<RepositoryCreatedEventCustomData>,
    pub custom_data_content_type: Option<String>,
    pub subject: RepositoryCreatedEventSubject,
}

impl RepositoryCreatedEvent {
    /// A fresh builder: the optional fields empty, context and subject not
    /// yet supplied.
    pub fn builder() -> (b: builder::RepositoryCreatedEvent)
        ensures
            b.context is Err,
            b.custom_data matches Ok(d) && d is None,
            b.custom_data_content_type == Ok::<Option<String>, String>(None),
            b.subject is Err,
    {
        builder::RepositoryCreatedEvent::default()
    }
}

} // verus!
