//! Builders that assemble a repository-created event field by field: each
//! required field starts out missing, and finishing the build reports the
//! first missing field.

use vstd::prelude::*;

verus! {

/// Builder for the event's context.
#[derive(Debug)]
pub struct RepositoryCreatedEventContext {
    pub id: Result<super::RepositoryCreatedEventContextId, String>,
    pub source: Result<String, String>,
    pub timestamp: Result<super::Timestamp, String>,
    pub type_: Result<super::RepositoryCreatedEventContextType, String>,
    pub version: Result<super::RepositoryCreatedEventContextVersion, String>,
}

impl Default for RepositoryCreatedEventContext {
    fn default() -> (r: Self)
        ensures
            r.id is Err,
            r.source is Err,
            r.timestamp is Err,
            r.type_ is Err,
            r.version is Err,
    {
        RepositoryCreatedEventContext {
            id: Err("no value supplied for id".to_owned()),
            source: Err("no value supplied for source".to_owned()),
            timestamp: Err("no value supplied for timestamp".to_owned()),
            type_: Err("no value supplied for type_".to_owned()),
            version: Err("no value supplied for version".to_owned()),
        }
    }
}

impl RepositoryCreatedEventContext {
    /// Supplies the occurrence identifier.
    pub fn id(self, value: super::RepositoryCreatedEventContextId) -> (r: Self)
        ensures
            r.id == Ok::<super::RepositoryCreatedEventContextId, String>(value),
            r.source == self.source,
            r.timestamp == self.timestamp,
            r.type_ == self.type_,
            r.version == self.version,
    {
        RepositoryCreatedEventContext {
            id: Ok(value),
            source: self.source,
            timestamp: self.timestamp,
            type_: self.type_,
            version: self.version,
        }
    }

    /// Supplies the source of the event.
    pub fn source(self, value: String) -> (r: Self)
        ensures
            r.source == Ok::<String, String>(value),
            r.id == self.id,
            r.timestamp == self.timestamp,
            r.type_ == self.type_,
            r.version == self.version,
    {
        RepositoryCreatedEventContext {
            id: self.id,
            source: Ok(value),
            timestamp: self.timestamp,
            type_: self.type_,
            version: self.version,
        }
    }

    /// Supplies the occurrence time.
    pub fn timestamp(self, value: super::Timestamp) -> (r: Self)
        ensures
            r.timestamp == Ok::<super::Timestamp, String>(value),
            r.id == self.id,
            r.source == self.source,
            r.type_ == self.type_,
            r.version == self.version,
    {
        RepositoryCreatedEventContext {
            id: self.id,
            source: self.source,
            timestamp: Ok(value),
            type_: self.type_,
            version: self.version,
        }
    }

    /// Supplies the event type.
    pub fn type_(self, value: super::RepositoryCreatedEventContextType) -> (r: Self)
        ensures
            r.type_ == Ok::<super::RepositoryCreatedEventContextType, String>(value),
            r.id == self.id,
            r.source == self.source,
            r.timestamp == self.timestamp,
            r.version == self.version,
    {
        RepositoryCreatedEventContext {
            id: self.id,
            source: self.source,
            timestamp: self.timestamp,
            type_: Ok(value),
            version: self.version,
        }
    }

    /// Supplies the context version.
    pub fn version(self, value: super::RepositoryCreatedEventContextVersion) -> (r: Self)
        ensures
            r.version == Ok::<super::RepositoryCreatedEventContextVersion, String>(value),
            r.id == self.id,
            r.source == self.source,
            r.timestamp == self.timestamp,
            r.type_ == self.type_,
    {
        RepositoryCreatedEventContext {
            id: self.id,
            source: self.source,
            timestamp: self.timestamp,
            type_: self.type_,
            version: Ok(value),
        }
    }

    /// Finishes the build: the context if every field was supplied, else the
    /// first missing field's message, in field order.
    pub fn build(self) -> (r: Result<super::RepositoryCreatedEventContext, String>)
        ensures
            r == (if self.id is Err {
                Err::<super::RepositoryCreatedEventContext, String>(self.id->Err_0)
            } else if self.source is Err {
                Err::<super::RepositoryCreatedEventContext, String>(self.source->Err_0)
            } else if self.timestamp is Err {
                Err::<super::RepositoryCreatedEventContext, String>(self.timestamp->Err_0)
            } else if self.type_ is Err {
                Err::<super::RepositoryCreatedEventContext, String>(self.type_->Err_0)
            } else if self.version is Err {
                Err::<super::RepositoryCreatedEventContext, String>(self.version->Err_0)
            } else {
                Ok::<super::RepositoryCreatedEventContext, String>(
                    super::RepositoryCreatedEventContext {
                        id: self.id->Ok_0,
                        source: self.source->Ok_0,
                        timestamp: self.timestamp->Ok_0,
                        type_: self.type_->Ok_0,
                        version: self.version->Ok_0,
                    },
                )
            }),
    {
        let id = match self.id {
            Ok(v) => v,
            Err(e) => {
                return Err(e);
            },
        };
        let source = match self.source {
            Ok(v) => v,
            Err(e) => {
                return Err(e);
            },
        };
        let timestamp = match self.timestamp {
            Ok(v) => v,
            Err(e) => {
                return Err(e);
            },
        };
        let type_ = match self.type_ {
            Ok(v) => v,
            Err(e) => {
                return Err(e);
            },
        };
        let version = match self.version {
            Ok(v) => v,
            Err(e) => {
                return Err(e);
            },
        };
        Ok(super::RepositoryCreatedEventContext { id, source, timestamp, type_, version })
    }
}

/// Builder for the subject's content.
#[derive(Debug)]
pub struct RepositoryCreatedEventSubjectContent {
    pub name: Result<super::RepositoryCreatedEventSubjectContentName, String>,
    pub owner: Result<Option<String>, String>,
    pub url: Result<super::RepositoryCreatedEventSubjectContentUrl, String>,
    pub view_url: Result<Option<String>, String>,
}

impl Default for RepositoryCreatedEventSubjectContent {
    fn default() -> (r: Self)
        ensures
            r.name is Err,
            r.owner == Ok::<Option<String>, String>(None),
            r.url is Err,
            r.view_url == Ok::<Option<String>, String>(None),
    {
        RepositoryCreatedEventSubjectContent {
            name: Err("no value supplied for name".to_owned()),
            owner: Ok(None),
            url: Err("no value supplied for url".to_owned()),
            view_url: Ok(None),
        }
    }
}

impl RepositoryCreatedEventSubjectContent {
    /// Supplies the repository name.
    pub fn name(self, value: super::RepositoryCreatedEventSubjectContentName) -> (r: Self)
        ensures
            r.name == Ok::<super::RepositoryCreatedEventSubjectContentName, String>(value),
            r.owner == self.owner,
            r.url == self.url,
            r.view_url == self.view_url,
    {
        RepositoryCreatedEventSubjectContent {
            name: Ok(value),
            owner: self.owner,
            url: self.url,
            view_url: self.view_url,
        }
    }

    /// Supplies the repository owner.
    pub fn owner(self, value: Option<String>) -> (r: Self)
        ensures
            r.owner == Ok::<Option<String>, String>(value),
            r.name == self.name,
            r.url == self.url,
            r.view_url == self.view_url,
    {
        RepositoryCreatedEventSubjectContent {
            name: self.name,
            owner: Ok(value),
            url: self.url,
            view_url: self.view_url,
        }
    }

    /// Supplies the repository URL.
    pub fn url(self, value: super::RepositoryCreatedEventSubjectContentUrl) -> (r: Self)
        ensures
            r.url == Ok::<super::RepositoryCreatedEventSubjectContentUrl, String>(value),
            r.name == self.name,
            r.owner == self.owner,
            r.view_url == self.view_url,
    {
        RepositoryCreatedEventSubjectContent {
            name: self.name,
            owner: self.owner,
            url: Ok(value),
            view_url: self.view_url,
        }
    }

    /// Supplies the human-readable URL.
    pub fn view_url(self, value: Option<String>) -> (r: Self)
        ensures
            r.view_url == Ok::<Option<String>, String>(value),
            r.name == self.name,
            r.owner == self.owner,
            r.url == self.url,
    {
        RepositoryCreatedEventSubjectContent {
            name: self.name,
            owner: self.owner,
            url: self.url,
            view_url: Ok(value),
        }
    }

    /// Finishes the build: the content if every required field was
    /// supplied, else the first missing field's message, in field order.
    pub fn build(self) -> (r: Result<super::RepositoryCreatedEventSubjectContent, String>)
        ensures
            r == (if self.name is Err {
                Err::<super::RepositoryCreatedEventSubjectContent, String>(self.name->Err_0)
            } else if self.owner is Err {
                Err::<super::RepositoryCreatedEventSubjectContent, String>(self.owner->Err_0)
            } else if self.url is Err {
                Err::<super::RepositoryCreatedEventSubjectContent, String>(self.url->Err_0)
            } else if self.view_url is Err {
                Err::<super::RepositoryCreatedEventSubjectContent, String>(self.view_url->Err_0)
            } else {
                Ok::<super::RepositoryCreatedEventSubjectContent, String>(
                    super::RepositoryCreatedEventSubjectContent {
                        name: self.name->Ok_0,
                        owner: self.owner->Ok_0,
                        url: self.url->Ok_0,
                        view_url: self.view_url->Ok_0,
                    },
                )
            }),
    {
        let name = match self.name {
            Ok(v) => v,
            Err(e) => {
                return Err(e);
            },
        };
        let owner = match self.owner {
            Ok(v) => v,
            Err(e) => {
                return Err(e);
            },
        };
        let url = match self.url {
            Ok(v) => v,
            Err(e) => {
                return Err(e);
            },
        };
        let view_url = match self.view_url {
            Ok(v) => v,
            Err(e) => {
                return Err(e);
            },
        };
        Ok(super::RepositoryCreatedEventSubjectContent { name, owner, url, view_url })
    }
}

/// Builder for the event's subject.
#[derive(Debug)]
pub struct RepositoryCreatedEventSubject {
    pub content: Result<super::RepositoryCreatedEventSubjectContent, String>,
    pub id: Result<super::RepositoryCreatedEventSubjectId, String>,
    pub source: Result<Option<String>, String>,
    pub type_: Result<super::RepositoryCreatedEventSubjectType, String>,
}

impl Default for RepositoryCreatedEventSubject {
    fn default() -> (r: Self)
        ensures
            r.content is Err,
            r.id is Err,
            r.source == Ok::<Option<String>, String>(None),
            r.type_ is Err,
    {
        RepositoryCreatedEventSubject {
            content: Err("no value supplied for content".to_owned()),
            id: Err("no value supplied for id".to_owned()),
            source: Ok(None),
            type_: Err("no value supplied for type_".to_owned()),
        }
    }
}

impl RepositoryCreatedEventSubject {
    /// Supplies the subject's content.
    pub fn content(self, value: super::RepositoryCreatedEventSubjectContent) -> (r: Self)
        ensures
            r.content == Ok::<super::RepositoryCreatedEventSubjectContent, String>(value),
            r.id == self.id,
            r.source == self.source,
            r.type_ == self.type_,
    {
        RepositoryCreatedEventSubject {
            content: Ok(value),
            id: self.id,
            source: self.source,
            type_: self.type_,
        }
    }

    /// Supplies the subject's identifier.
    pub fn id(self, value: super::RepositoryCreatedEventSubjectId) -> (r: Self)
        ensures
            r.id == Ok::<super::RepositoryCreatedEventSubjectId, String>(value),
            r.content == self.content,
            r.source == self.source,
            r.type_ == self.type_,
    {
        RepositoryCreatedEventSubject {
            content: self.content,
            id: Ok(value),
            source: self.source,
            type_: self.type_,
        }
    }

    /// Supplies the subject's source.
    pub fn source(self, value: Option<String>) -> (r: Self)
        ensures
            r.source == Ok::<Option<String>, String>(value),
            r.content == self.content,
            r.id == self.id,
            r.type_ == self.type_,
    {
        RepositoryCreatedEventSubject {
            content: self.content,
            id: self.id,
            source: Ok(value),
            type_: self.type_,
        }
    }

    /// Supplies the subject's kind.
    pub fn type_(self, value: super::RepositoryCreatedEventSubjectType) -> (r: Self)
        ensures
            r.type_ == Ok::<super::RepositoryCreatedEventSubjectType, String>(value),
            r.content == self.content,
            r.id == self.id,
            r.source == self.source,
    {
        RepositoryCreatedEventSubject {
            content: self.content,
            id: self.id,
            source: self.source,
            type_: Ok(value),
        }
    }

    /// Finishes the build: the subject if every required field was
    /// supplied, else the first missing field's message, in field order.
    pub fn build(self) -> (r: Result<super::RepositoryCreatedEventSubject, String>)
        ensures
            r == (if self.content is Err {
                Err::<super::RepositoryCreatedEventSubject, String>(self.content->Err_0)
            } else if self.id is Err {
                Err::<super::RepositoryCreatedEventSubject, String>(self.id->Err_0)
            } else if self.source is Err {
                Err::<super::RepositoryCreatedEventSubject, String>(self.source->Err_0)
            } else if self.type_ is Err {
                Err::<super::RepositoryCreatedEventSubject, String>(self.type_->Err_0)
            } else {
                Ok::<super::RepositoryCreatedEventSubject, String>(
                    super::RepositoryCreatedEventSubject {
                        content: self.content->Ok_0,
                        id: self.id->Ok_0,
                        source: self.source->Ok_0,
                        type_: self.type_->Ok_0,
                    },
                )
            }),
    {
        let content = match self.content {
            Ok(v) => v,
            Err(e) => {
                return Err(e);
            },
        };
        let id = match self.id {
            Ok(v) => v,
            Err(e) => {
                return Err(e);
            },
        };
        let source = match self.source {
            Ok(v) => v,
            Err(e) => {
                return Err(e);
            },
        };
        let type_ = match self.type_ {
            Ok(v) => v,
            Err(e) => {
                return Err(e);
            },
        };
        Ok(super::RepositoryCreatedEventSubject { content, id, source, type_ })
    }
}

/// Builder for the whole event.
#[derive(Debug)]
pub struct RepositoryCreatedEvent {
    pub context: Result<super::RepositoryCreatedEventContext, String>,
    pub custom_data: Result<Option<super::RepositoryCreatedEventCustomData>, String>,
    pub custom_data_content_type: Result<Option<String>, String>,
    pub subject: Result<super::RepositoryCreatedEventSubject, String>,
}

impl Default for RepositoryCreatedEvent {
    fn default() -> (r: Self)
        ensures
            r.context is Err,
            r.custom_data matches Ok(d) && d is None,
            r.custom_data_content_type == Ok::<Option<String>, String>(None),
            r.subject is Err,
    {
        RepositoryCreatedEvent {
            context: Err("no value supplied for context".to_owned()),
            custom_data: Ok(None),
            custom_data_content_type: Ok(None),
            subject: Err("no value supplied for subject".to_owned()),
        }
    }
}

impl RepositoryCreatedEvent {
    /// Supplies the event's context.
    pub fn context(self, value: super::RepositoryCreatedEventContext) -> (r: Self)
        ensures
            r.context == Ok::<super::RepositoryCreatedEventContext, String>(value),
            r.custom_data == self.custom_data,
            r.custom_data_content_type == self.custom_data_content_type,
            r.subject == self.subject,
    {
        RepositoryCreatedEvent {
            context: Ok(value),
            custom_data: self.custom_data,
            custom_data_content_type: self.custom_data_content_type,
            subject: self.subject,
        }
    }

    /// Supplies the event's custom data.
    pub fn custom_data(self, value: Option<super::RepositoryCreatedEventCustomData>) -> (r: Self)
        ensures
            r.custom_data == Ok::<Option<super::RepositoryCreatedEventCustomData>, String>(value),
            r.context == self.context,
            r.custom_data_content_type == self.custom_data_content_type,
            r.subject == self.subject,
    {
        RepositoryCreatedEvent {
            context: self.context,
            custom_data: Ok(value),
            custom_data_content_type: self.custom_data_content_type,
            subject: self.subject,
        }
    }

    /// Supplies the media type of the custom data.
    pub fn custom_data_content_type(self, value: Option<String>) -> (r: Self)
        ensures
            r.custom_data_content_type == Ok::<Option<String>, String>(value),
            r.context == self.context,
            r.custom_data == self.custom_data,
            r.subject == self.subject,
    {
        RepositoryCreatedEvent {
            context: self.context,
            custom_data: self.custom_data,
            custom_data_content_type: Ok(value),
            subject: self.subject,
        }
    }

    /// Supplies the event's subject.
    pub fn subject(self, value: super::RepositoryCreatedEventSubject) -> (r: Self)
        ensures
            r.subject == Ok::<super::RepositoryCreatedEventSubject, String>(value),
            r.context == self.context,
            r.custom_data == self.custom_data,
            r.custom_data_content_type == self.custom_data_content_type,
    {
        RepositoryCreatedEvent {
            context: self.context,
            custom_data: self.custom_data,
            custom_data_content_type: self.custom_data_content_type,
            subject: Ok(value),
        }
    }

    /// Finishes the build: the event if context and subject were supplied,
    /// else the first missing field's message, in field order.
    pub fn build(self) -> (r: Result<super::RepositoryCreatedEvent, String>)
        ensures
            r == (if self.context is Err {
                Err::<super::RepositoryCreatedEvent, String>(self.context->Err_0)
            } else if self.custom_data is Err {
                Err::<super::RepositoryCreatedEvent, String>(self.custom_data->Err_0)
            } else if self.custom_data_content_type is Err {
                Err::<super::RepositoryCreatedEvent, String>(
                    self.custom_data_content_type->Err_0,
                )
            } else if self.subject is Err {
                Err::<super::RepositoryCreatedEvent, String>(self.subject->Err_0)
            } else {
                Ok::<super::RepositoryCreatedEvent, String>(
                    super::RepositoryCreatedEvent {
                        context: self.context->Ok_0,
                        custom_data: self.custom_data->Ok_0,
                        custom_data_content_type: self.custom_data_content_type->Ok_0,
                        subject: self.subject->Ok_0,
                    },
                )
            }),
    {
        let context = match self.context {
            Ok(v) => v,
            Err(e) => {
                return Err(e);
            },
        };
        let custom_data = match self.custom_data {
            Ok(v) => v,
            Err(e) => {
                return Err(e);
            },
        };
        let custom_data_content_type = match self.custom_data_content_type {
            Ok(v) => v,
            Err(e) => {
                return Err(e);
            },
        };
        let subject = match self.subject {
            Ok(v) => v,
            Err(e) => {
                return Err(e);
            },
        };
        Ok(
            super::RepositoryCreatedEvent {
                context,
                custom_data,
                custom_data_content_type,
                subject,
            },
        )
    }
}

} // verus!
