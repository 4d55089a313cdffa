//! The failure taxonomy of the pipeline and its rendering for the host.

use vstd::prelude::*;
use vstd::string::*;

verus! {

/// Why an inbound notification could not be turned into a source location.
#[derive(Clone, Copy, Debug, PartialEq, Eq, Structural)]
pub enum EventDefect {
    /// The notification carries no record at all.
    NoRecords,
    /// The first record has no object key.
    MissingKey,
    /// The object key does not decode to valid text.
    UndecodableKey,
    /// The first record has no bucket name.
    MissingBucket,
}

/// The kinds of failure a run can end with.
#[derive(Clone, Copy, Debug, PartialEq, Eq, Structural)]
pub enum ErrorKind {
    /// The notification does not name an object.
    MalformedEvent,
    /// The object is absent from the source bucket.
    NotFound,
    /// The read failed for another reason than the absence of the object.
    ReadError,
    /// The object declares no content type, or one that is not supported.
    UnsupportedType,
    /// The object has no payload.
    EmptyBody,
    /// The object key calls for no known codec.
    UnrecognizedFormat,
    /// The payload is not an image of the format that the key calls for.
    CorruptImage,
    /// The resized image could not be encoded.
    EncodeError,
    /// The result could not be stored.
    WriteError,
    /// The source could not be removed after the result was stored.
    DeleteError,
}

/// A failure together with the context it arose in: what was being
/// attempted, on which bucket and key, and what the collaborator reported.
#[derive(Clone, Debug, PartialEq, Eq)]
pub enum PipelineError {
    MalformedEvent { defect: EventDefect },
    NotFound { bucket: String, key: String, cause: String },
    ReadError { bucket: String, key: String, cause: String },
    UnsupportedType { content_type: Option<String> },
    EmptyBody { bucket: String, key: String },
    UnrecognizedFormat { key: String, cause: String },
    CorruptImage { key: String, cause: String },
    EncodeError { key: String, cause: String },
    WriteError { bucket: String, key: String, cause: String },
    DeleteError { bucket: String, key: String, cause: String },
}

/// Mathematical model of a [`PipelineError`].
pub enum Failure {
    MalformedEvent { defect: EventDefect },
    NotFound { bucket: Seq<char>, key: Seq<char>, cause: Seq<char> },
    ReadError { bucket: Seq<char>, key: Seq<char>, cause: Seq<char> },
    UnsupportedType { content_type: Option<Seq<char>> },
    EmptyBody { bucket: Seq<char>, key: Seq<char> },
    UnrecognizedFormat { key: Seq<char>, cause: Seq<char> },
    CorruptImage { key: Seq<char>, cause: Seq<char> },
    EncodeError { key: Seq<char>, cause: Seq<char> },
    WriteError { bucket: Seq<char>, key: Seq<char>, cause: Seq<char> },
    DeleteError { bucket: Seq<char>, key: Seq<char>, cause: Seq<char> },
}

impl View for PipelineError {
    type V = Failure;

    open spec fn view(&self) -> Failure {
        match *self {
            PipelineError::MalformedEvent { defect } => Failure::MalformedEvent { defect },
            PipelineError::NotFound { bucket, key, cause } => Failure::NotFound {
                bucket: bucket@,
                key: key@,
                cause: cause@,
            },
            PipelineError::ReadError { bucket, key, cause } => Failure::ReadError {
                bucket: bucket@,
                key: key@,
                cause: cause@,
            },
            PipelineError::UnsupportedType { content_type } => Failure::UnsupportedType {
                content_type: content_type.deep_view(),
            },
            PipelineError::EmptyBody { bucket, key } => Failure::EmptyBody {
                bucket: bucket@,
                key: key@,
            },
            PipelineError::UnrecognizedFormat { key, cause } => Failure::UnrecognizedFormat {
                key: key@,
                cause: cause@,
            },
            PipelineError::CorruptImage { key, cause } => Failure::CorruptImage {
                key: key@,
                cause: cause@,
            },
            PipelineError::EncodeError { key, cause } => Failure::EncodeError {
                key: key@,
                cause: cause@,
            },
            PipelineError::WriteError { bucket, key, cause } => Failure::WriteError {
                bucket: bucket@,
                key: key@,
                cause: cause@,
            },
            PipelineError::DeleteError { bucket, key, cause } => Failure::DeleteError {
                bucket: bucket@,
                key: key@,
                cause: cause@,
            },
        }
    }
}

impl Failure {
    /// The kind of this failure.
    pub open spec fn kind(self) -> ErrorKind {
        match self {
            Failure::MalformedEvent { .. } => ErrorKind::MalformedEvent,
            Failure::NotFound { .. } => ErrorKind::NotFound,
            Failure::ReadError { .. } => ErrorKind::ReadError,
            Failure::UnsupportedType { .. } => ErrorKind::UnsupportedType,
            Failure::EmptyBody { .. } => ErrorKind::EmptyBody,
            Failure::UnrecognizedFormat { .. } => ErrorKind::UnrecognizedFormat,
            Failure::CorruptImage { .. } => ErrorKind::CorruptImage,
            Failure::EncodeError { .. } => ErrorKind::EncodeError,
            Failure::WriteError { .. } => ErrorKind::WriteError,
            Failure::DeleteError { .. } => ErrorKind::DeleteError,
        }
    }

    /// The stage-identifying line that the host is given.
    pub open spec fn headline(self) -> Seq<char> {
        match self {
            Failure::MalformedEvent { .. } =>
                "Malformed event: could not extract key or source bucket"@,
            Failure::NotFound { .. }
            | Failure::ReadError { .. }
            | Failure::UnsupportedType { .. }
            | Failure::EmptyBody { .. } => "Failed to download object"@,
            Failure::UnrecognizedFormat { .. } => "Error parsing image type"@,
            Failure::CorruptImage { .. } => "Failed to load image - is it corrupted?"@,
            Failure::EncodeError { .. } => "Failed to encode image"@,
            Failure::WriteError { .. } => "Failed to upload image to destination bucket"@,
            Failure::DeleteError { .. } => "Failed to delete source image"@,
        }
    }

    /// What went wrong, with the bucket, the key and the reported cause.
    pub open spec fn detail(self) -> Seq<char> {
        match self {
            Failure::MalformedEvent { defect } => match defect {
                EventDefect::NoRecords => "the notification holds no record"@,
                EventDefect::MissingKey => "the record names no object key"@,
                EventDefect::UndecodableKey => "the object key cannot be decoded"@,
                EventDefect::MissingBucket => "the record names no source bucket"@,
            },
            Failure::NotFound { bucket, key, cause } => "Object with key "@ + key
                + " does not exist in bucket "@ + bucket + ": "@ + cause,
            Failure::ReadError { bucket, key, cause } => "Object with key "@ + key
                + " could not be read from bucket "@ + bucket + ": "@ + cause,
            Failure::UnsupportedType { content_type } => match content_type {
                Some(given) => "Received object is not a supported image type, got "@ + given,
                None => "Object does not have content-type specified"@,
            },
            Failure::EmptyBody { bucket, key } => "Object with key "@ + key + " in bucket "@
                + bucket + " does not have a body"@,
            Failure::UnrecognizedFormat { key, cause } => key + ": "@ + cause,
            Failure::CorruptImage { key, cause } => key + ": "@ + cause,
            Failure::EncodeError { key, cause } => key + ": "@ + cause,
            Failure::WriteError { bucket, key, cause } => bucket + "/"@ + key + ": "@ + cause,
            Failure::DeleteError { bucket, key, cause } => bucket + "/"@ + key + ": "@ + cause,
        }
    }

    /// The flattened form kept for diagnostics: headline, then detail.
    pub open spec fn message(self) -> Seq<char> {
        self.headline() + ": "@ + self.detail()
    }
}

impl PipelineError {
    /// The kind of this error.
    pub fn kind(&self) -> (kind: ErrorKind)
        ensures
            kind == self@.kind(),
    {
        match self {
            PipelineError::MalformedEvent { .. } => ErrorKind::MalformedEvent,
            PipelineError::NotFound { .. } => ErrorKind::NotFound,
            PipelineError::ReadError { .. } => ErrorKind::ReadError,
            PipelineError::UnsupportedType { .. } => ErrorKind::UnsupportedType,
            PipelineError::EmptyBody { .. } => ErrorKind::EmptyBody,
            PipelineError::UnrecognizedFormat { .. } => ErrorKind::UnrecognizedFormat,
            PipelineError::CorruptImage { .. } => ErrorKind::CorruptImage,
            PipelineError::EncodeError { .. } => ErrorKind::EncodeError,
            PipelineError::WriteError { .. } => ErrorKind::WriteError,
            PipelineError::DeleteError { .. } => ErrorKind::DeleteError,
        }
    }

    /// The single line handed to the host when a run fails.
    pub fn headline(&self) -> (line: String)
        ensures
            line@ == self@.headline(),
    {
        match self {
            PipelineError::MalformedEvent { .. } => String::from_str(
                "Malformed event: could not extract key or source bucket",
            ),
            PipelineError::NotFound { .. }
            | PipelineError::ReadError { .. }
            | PipelineError::UnsupportedType { .. }
            | PipelineError::EmptyBody { .. } => String::from_str("Failed to download object"),
            PipelineError::UnrecognizedFormat { .. } => String::from_str("Error parsing image type"),
            PipelineError::CorruptImage { .. } => String::from_str(
                "Failed to load image - is it corrupted?",
            ),
            PipelineError::EncodeError { .. } => String::from_str("Failed to encode image"),
            PipelineError::WriteError { .. } => String::from_str(
                "Failed to upload image to destination bucket",
            ),
            PipelineError::DeleteError { .. } => String::from_str("Failed to delete source image"),
        }
    }

    /// What went wrong, with the bucket, the key and the reported cause.
    pub fn detail(&self) -> (text: String)
        ensures
            text@ == self@.detail(),
    {
        match self {
            PipelineError::MalformedEvent { defect } => match defect {
                EventDefect::NoRecords => String::from_str("the notification holds no record"),
                EventDefect::MissingKey => String::from_str("the record names no object key"),
                EventDefect::UndecodableKey => String::from_str("the object key cannot be decoded"),
                EventDefect::MissingBucket => String::from_str("the record names no source bucket"),
            },
            PipelineError::NotFound { bucket, key, cause } => {
                let mut text = String::from_str("Object with key ");
                text.append(key.as_str());
                text.append(" does not exist in bucket ");
                text.append(bucket.as_str());
                text.append(": ");
                text.append(cause.as_str());
                text
            },
            PipelineError::ReadError { bucket, key, cause } => {
                let mut text = String::from_str("Object with key ");
                text.append(key.as_str());
                text.append(" could not be read from bucket ");
                text.append(bucket.as_str());
                text.append(": ");
                text.append(cause.as_str());
                text
            },
            PipelineError::UnsupportedType { content_type } => match content_type {
                Some(given) => {
                    let mut text = String::from_str(
                        "Received object is not a supported image type, got ",
                    );
                    text.append(given.as_str());
                    text
                },
                None => String::from_str("Object does not have content-type specified"),
            },
            PipelineError::EmptyBody { bucket, key } => {
                let mut text = String::from_str("Object with key ");
                text.append(key.as_str());
                text.append(" in bucket ");
                text.append(bucket.as_str());
                text.append(" does not have a body");
                text
            },
            PipelineError::UnrecognizedFormat { key, cause }
            | PipelineError::CorruptImage { key, cause }
            | PipelineError::EncodeError { key, cause } => {
                let mut text = key.clone();
                text.append(": ");
                text.append(cause.as_str());
                text
            },
            PipelineError::WriteError { bucket, key, cause }
            | PipelineError::DeleteError { bucket, key, cause } => {
                let mut text = bucket.clone();
                text.append("/");
                text.append(key.as_str());
                text.append(": ");
                text.append(cause.as_str());
                text
            },
        }
    }

    /// The flattened form kept for diagnostics: headline, then detail.
    pub fn message(&self) -> (text: String)
        ensures
            text@ == self@.message(),
    {
        let mut text = self.headline();
        text.append(": ");
        let detail = self.detail();
        text.append(detail.as_str());
        text
    }
}

} // verus!
