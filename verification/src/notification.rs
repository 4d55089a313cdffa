//! Event extraction: from an inbound notification to the object it names.
//!
//! Object keys arrive url-encoded, with `+` standing for a space. A key is
//! decoded in two passes, in this order: every `+` becomes a space, then the
//! percent escapes are resolved. A key that does not decode completely is
//! never used.

use crate::error::{EventDefect, Failure, PipelineError};
use vstd::prelude::*;
use vstd::string::*;

verus! {

/// One record of a notification. Both fields may be absent on the wire; a
/// record is only usable when both are present.
#[derive(Clone, Debug, PartialEq, Eq)]
pub struct EventRecord {
    pub bucket: Option<String>,
    pub key: Option<String>,
}

/// Mathematical model of an [`EventRecord`].
pub struct RecordModel {
    pub bucket: Option<Seq<char>>,
    pub key: Option<Seq<char>>,
}

impl View for EventRecord {
    type V = RecordModel;

    open spec fn view(&self) -> RecordModel {
        RecordModel { bucket: self.bucket.deep_view(), key: self.key.deep_view() }
    }
}

/// An inbound notification: an ordered sequence of records, of which only
/// the first is consulted.
#[derive(Clone, Debug, PartialEq, Eq)]
pub struct InboundEvent {
    pub records: Vec<EventRecord>,
}

impl View for InboundEvent {
    type V = Seq<RecordModel>;

    open spec fn view(&self) -> Seq<RecordModel> {
        Seq::new(self.records@.len(), |i: int| self.records@[i]@)
    }
}

/// `urlencoding::FromUrlEncodingError`, what the decoder reports for a key
/// that is not valid text once its escapes are resolved.
#[verifier::external_type_specification]
#[verifier::external_body]
pub struct ExFromUrlEncodingError(urlencoding::FromUrlEncodingError);

/// The text that `urlencoding::decode` yields for `text`, or `None` where it
/// reports an error.
pub uninterp spec fn percent_decoded(text: Seq<char>) -> Option<Seq<char>>;

/// Resolves the percent escapes of `text` with `urlencoding::decode`.
///
/// Nothing is claimed about how escapes are resolved, only that the outcome
/// is a function of the input text: it is recorded as `percent_decoded`.
#[verifier::external_body]
fn percent_decode(text: &str) -> (decoded: Result<String, urlencoding::FromUrlEncodingError>)
    ensures
        match decoded {
            Ok(plain) => percent_decoded(text@) == Some(plain@),
            Err(_) => percent_decoded(text@) is None,
        },
{
    urlencoding::decode(text)
}

/// `text` with every `+` turned into a space.
pub open spec fn plus_as_space(text: Seq<char>) -> Seq<char> {
    Seq::new(text.len(), |i: int| if text[i] == '+' { ' ' } else { text[i] })
}

/// The source location once the decoding of the key is known: a key that
/// failed to decode is reported before a missing bucket.
pub open spec fn located(decoded: Option<Seq<char>>, bucket: Option<Seq<char>>) -> Result<
    (Seq<char>, Seq<char>),
    EventDefect,
> {
    match decoded {
        None => Err(EventDefect::UndecodableKey),
        Some(key) => match bucket {
            None => Err(EventDefect::MissingBucket),
            Some(name) => Ok((key, name)),
        },
    }
}

/// The decoded key and the source bucket that a notification names, or the
/// first defect that keeps it from naming them.
pub open spec fn extraction(event: Seq<RecordModel>) -> Result<(Seq<char>, Seq<char>), EventDefect> {
    if event.len() == 0 {
        Err(EventDefect::NoRecords)
    } else {
        match event[0].key {
            None => Err(EventDefect::MissingKey),
            Some(raw) => located(percent_decoded(plus_as_space(raw)), event[0].bucket),
        }
    }
}

/// The first pass touches nothing but `+`: the text keeps its length, no
/// `+` is left in it, and every other character stays where it was. In
/// particular an escape is handed to the decoder as it came, so that an
/// escaped `+` is not turned into a space.
pub proof fn lemma_plus_as_space_touches_only_plus(text: Seq<char>)
    ensures
        plus_as_space(text).len() == text.len(),
        forall|i: int| 0 <= i < text.len() ==> #[trigger] plus_as_space(text)[i] != '+',
        forall|i: int|
            0 <= i < text.len() && text[i] != '+' ==> #[trigger] plus_as_space(text)[i] == text[i],
        forall|i: int|
            0 <= i < text.len() && text[i] == '+' ==> #[trigger] plus_as_space(text)[i] == ' ',
        !text.contains('+') ==> plus_as_space(text) == text,
{
    if !text.contains('+') {
        assert(plus_as_space(text) =~= text);
    }
}

/// Replaces every `+` of `text` by a space and leaves the rest as it is.
///
/// Characters are fetched by position, so the work grows with the square of
/// the length; object keys are short.
pub fn plus_to_space(text: &str) -> (spaced: String)
    ensures
        spaced@ == plus_as_space(text@),
{
    let count = text.unicode_len();
    let mut spaced = String::new();
    let mut at: usize = 0;
    proof {
        reveal_strlit(" ");
    }
    while at < count
        invariant
            count == text@.len(),
            at <= count,
            spaced@ == plus_as_space(text@).subrange(0, at as int),
            " "@ == seq![' '],
        decreases count - at,
    {
        if text.get_char(at) == '+' {
            spaced.append(" ");
        } else {
            spaced.append(text.substring_char(at, at + 1));
        }
        at += 1;
    }
    spaced
}

/// Finishes extraction once the key has been through the decoder: `decoded`
/// is the decoded key, or `None` where decoding failed.
pub fn locate(decoded: Option<String>, bucket: &Option<String>) -> (found: Result<
    (String, String),
    PipelineError,
>)
    ensures
        match located(decoded.deep_view(), bucket.deep_view()) {
            Ok((key, name)) => found matches Ok(pair) && pair.0@ == key && pair.1@ == name,
            Err(defect) => found matches Err(e) && e@ == (Failure::MalformedEvent { defect }),
        },
{
    match decoded {
        None => Err(PipelineError::MalformedEvent { defect: EventDefect::UndecodableKey }),
        Some(key) => match bucket {
            None => Err(PipelineError::MalformedEvent { defect: EventDefect::MissingBucket }),
            Some(name) => Ok((key, name.clone())),
        },
    }
}

/// Extracts the decoded object key and the source bucket from the first
/// record of `event`. Further records are not looked at.
pub fn extract_key_src(event: &InboundEvent) -> (found: Result<(String, String), PipelineError>)
    ensures
        match extraction(event@) {
            Ok((key, name)) => found matches Ok(pair) && pair.0@ == key && pair.1@ == name,
            Err(defect) => found matches Err(e) && e@ == (Failure::MalformedEvent { defect }),
        },
{
    if event.records.len() == 0 {
        return Err(PipelineError::MalformedEvent { defect: EventDefect::NoRecords });
    }
    let record = &event.records[0];
    match &record.key {
        None => Err(PipelineError::MalformedEvent { defect: EventDefect::MissingKey }),
        Some(raw) => {
            let spaced = plus_to_space(raw.as_str());
            let decoded = match percent_decode(spaced.as_str()) {
                Ok(plain) => Some(plain),
                Err(_) => None,
            };
            locate(decoded, &record.bucket)
        },
    }
}

} // verus!
