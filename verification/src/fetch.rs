//! Object fetching: what the read collaborator hands back, and which of it
//! the pipeline accepts.
//!
//! The read itself is made by the caller. Whether a content type is
//! supported is decided from the declared type alone, never from the bytes.

use crate::config::{Config, ConfigModel};
use crate::error::{Failure, PipelineError};
use vstd::prelude::*;

verus! {

/// The outcome of one read against the source bucket.
#[derive(Clone, Debug, PartialEq, Eq)]
pub enum FetchReply {
    /// The object exists. Each part of it may still be absent.
    Found { content_length: Option<i64>, content_type: Option<String>, body: Option<Vec<u8>> },
    /// The object is absent; `cause` is what the collaborator reported.
    Missing { cause: String },
    /// The read failed for another reason, so that it is not known whether
    /// the object exists; `cause` is what the collaborator reported.
    Failed { cause: String },
}

/// Mathematical model of a [`FetchReply`].
pub enum ReplyModel {
    Found { content_length: Option<i64>, content_type: Option<Seq<char>>, body: Option<Seq<u8>> },
    Missing { cause: Seq<char> },
    Failed { cause: Seq<char> },
}

impl View for FetchReply {
    type V = ReplyModel;

    open spec fn view(&self) -> ReplyModel {
        match *self {
            FetchReply::Found { content_length, content_type, body } => ReplyModel::Found {
                content_length,
                content_type: content_type.deep_view(),
                body: match body {
                    Some(bytes) => Some(bytes@),
                    None => None,
                },
            },
            FetchReply::Missing { cause } => ReplyModel::Missing { cause: cause@ },
            FetchReply::Failed { cause } => ReplyModel::Failed { cause: cause@ },
        }
    }
}

/// An object that passed the checks of the fetch stage: its payload is not
/// empty, and its content type is one of the supported ones.
#[derive(Clone, Debug, PartialEq, Eq)]
pub struct FetchedObject {
    pub body: Vec<u8>,
    pub content_length: Option<i64>,
    pub content_type: String,
}

/// Mathematical model of a [`FetchedObject`].
pub struct ObjectModel {
    pub body: Seq<u8>,
    pub content_length: Option<i64>,
    pub content_type: Seq<char>,
}

impl View for FetchedObject {
    type V = ObjectModel;

    open spec fn view(&self) -> ObjectModel {
        ObjectModel {
            body: self.body@,
            content_length: self.content_length,
            content_type: self.content_type@,
        }
    }
}

impl ObjectModel {
    /// The payload holds at least one byte, and the content type is one
    /// that the settings support.
    pub open spec fn wf(self, config: ConfigModel) -> bool {
        &&& self.body.len() > 0
        &&& config.allowed_types.contains(self.content_type)
    }
}

/// What the fetch stage makes of a reply to the read of `key` in `bucket`.
/// The checks are made in this order: the read succeeded, the object
/// declares a content type, the type is supported, the payload is present
/// and holds at least one byte. A read that failed is a `NotFound` only
/// where the collaborator found the object absent, and a `ReadError`
/// otherwise.
pub open spec fn acceptance(
    reply: ReplyModel,
    config: ConfigModel,
    key: Seq<char>,
    bucket: Seq<char>,
) -> Result<ObjectModel, Failure> {
    match reply {
        ReplyModel::Missing { cause } => Err(Failure::NotFound { bucket, key, cause }),
        ReplyModel::Failed { cause } => Err(Failure::ReadError { bucket, key, cause }),
        ReplyModel::Found { content_length, content_type, body } => match content_type {
            None => Err(Failure::UnsupportedType { content_type: None }),
            Some(declared) => if !config.allowed_types.contains(declared) {
                Err(Failure::UnsupportedType { content_type: Some(declared) })
            } else {
                match body {
                    None => Err(Failure::EmptyBody { bucket, key }),
                    Some(bytes) => if bytes.len() == 0 {
                        Err(Failure::EmptyBody { bucket, key })
                    } else {
                        Ok(ObjectModel { body: bytes, content_length, content_type: declared })
                    },
                }
            },
        },
    }
}

/// An accepted object is well-formed: no object with an empty payload or
/// with an unsupported content type passes the fetch stage.
pub proof fn lemma_accepted_object_is_wf(
    reply: ReplyModel,
    config: ConfigModel,
    key: Seq<char>,
    bucket: Seq<char>,
)
    requires
        acceptance(reply, config, key, bucket) is Ok,
    ensures
        acceptance(reply, config, key, bucket)->Ok_0.wf(config),
        reply matches ReplyModel::Found { content_length, content_type, body } && body == Some(
            acceptance(reply, config, key, bucket)->Ok_0.body,
        ),
{
}

/// Checks the reply to the read of `key` in `bucket`.
pub fn accept_object(reply: FetchReply, config: &Config, key: &String, bucket: &String) -> (checked:
    Result<FetchedObject, PipelineError>)
    ensures
        match acceptance(reply@, config@, key@, bucket@) {
            Ok(object) => checked matches Ok(fetched) && fetched@ == object,
            Err(failure) => checked matches Err(e) && e@ == failure,
        },
        checked matches Ok(fetched) ==> fetched@.wf(config@),
{
    match reply {
        FetchReply::Missing { cause } => Err(
            PipelineError::NotFound { bucket: bucket.clone(), key: key.clone(), cause },
        ),
        FetchReply::Failed { cause } => Err(
            PipelineError::ReadError { bucket: bucket.clone(), key: key.clone(), cause },
        ),
        FetchReply::Found { content_length, content_type, body } => match content_type {
            None => Err(PipelineError::UnsupportedType { content_type: None }),
            Some(declared) => {
                if !config.supports(&declared) {
                    Err(PipelineError::UnsupportedType { content_type: Some(declared) })
                } else {
                    match body {
                        None => Err(
                            PipelineError::EmptyBody { bucket: bucket.clone(), key: key.clone() },
                        ),
                        Some(bytes) => if bytes.len() == 0 {
                            Err(
                                PipelineError::EmptyBody {
                                    bucket: bucket.clone(),
                                    key: key.clone(),
                                },
                            )
                        } else {
                            Ok(
                                FetchedObject {
                                    body: bytes,
                                    content_length,
                                    content_type: declared,
                                },
                            )
                        },
                    }
                }
            },
        },
    }
}

} // verus!
