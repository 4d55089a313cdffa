//! The pipeline as a state machine.
//!
//! A run is strictly linear: extract, fetch, transform, write, report. The
//! three storage operations are made by the caller. [`step`] takes the stage
//! a run is in and what the caller has to report, and returns the next stage
//! and what to do next. Each stage is attempted once; the first failure ends
//! the run, except that a failed removal of the source leaves the stored
//! result in place and is reported beside the summary.

use crate::config::{Config, ConfigModel};
use crate::destination::{
    destination_bucket,
    destination_bucket_of,
    destination_key,
    destination_key_of,
};
use crate::error::{ErrorKind, EventDefect, Failure, PipelineError};
use crate::fetch::{accept_object, acceptance, FetchReply, FetchedObject, ObjectModel, ReplyModel};
use crate::notification::{
    extract_key_src,
    extraction,
    percent_decoded,
    plus_as_space,
    InboundEvent,
    RecordModel,
};
use crate::report::{OutcomeModel, OutcomeRecord};
use crate::raster::{decoded_raster, encoded_bytes, raster_size, resized_raster};
use crate::sizing::{width_bound, MAX_HEIGHT, MAX_WIDTH};
use crate::transform::{
    codec_of_key,
    lemma_image_in_box,
    lemma_image_keeps_shape,
    outcome_model,
    transform,
    transform_failure,
    transformation_for_key,
    ImageModel,
    TransformedImage,
};
use vstd::prelude::*;

verus! {

/// How a write or a removal ended.
#[derive(Clone, Debug, PartialEq, Eq)]
pub enum Completion {
    Done,
    /// The operation did not complete; `cause` is what the collaborator
    /// reported.
    Failed { cause: String },
}

/// Mathematical model of a [`Completion`].
pub enum CompletionModel {
    Done,
    Failed { cause: Seq<char> },
}

impl View for Completion {
    type V = CompletionModel;

    open spec fn view(&self) -> CompletionModel {
        match *self {
            Completion::Done => CompletionModel::Done,
            Completion::Failed { cause } => CompletionModel::Failed { cause: cause@ },
        }
    }
}

/// Where a run stands between two steps.
#[derive(Clone, Debug, PartialEq, Eq)]
pub enum Stage {
    /// Nothing has happened yet; the notification is awaited.
    Waiting,
    /// The read of the source object is under way.
    Fetching { key: String, bucket: String },
    /// The write of the result is under way.
    Storing { record: OutcomeRecord },
    /// The removal of the source object is under way.
    Deleting { record: OutcomeRecord },
    /// The run has ended.
    Finished,
}

/// Mathematical model of a [`Stage`].
pub enum StageModel {
    Waiting,
    Fetching { key: Seq<char>, bucket: Seq<char> },
    Storing { record: OutcomeModel },
    Deleting { record: OutcomeModel },
    Finished,
}

impl View for Stage {
    type V = StageModel;

    open spec fn view(&self) -> StageModel {
        match *self {
            Stage::Waiting => StageModel::Waiting,
            Stage::Fetching { key, bucket } => StageModel::Fetching { key: key@, bucket: bucket@ },
            Stage::Storing { record } => StageModel::Storing { record: record@ },
            Stage::Deleting { record } => StageModel::Deleting { record: record@ },
            Stage::Finished => StageModel::Finished,
        }
    }
}

/// What the caller reports to the pipeline.
#[derive(Clone, Debug, PartialEq, Eq)]
pub enum Event {
    /// A notification has arrived.
    Notified(InboundEvent),
    /// The read that was asked for has ended.
    Fetched(FetchReply),
    /// The write that was asked for has ended.
    Stored(Completion),
    /// The removal that was asked for has ended.
    Deleted(Completion),
}

/// Mathematical model of an [`Event`].
pub enum EventModel {
    Notified(Seq<RecordModel>),
    Fetched(ReplyModel),
    Stored(CompletionModel),
    Deleted(CompletionModel),
}

impl View for Event {
    type V = EventModel;

    open spec fn view(&self) -> EventModel {
        match *self {
            Event::Notified(event) => EventModel::Notified(event@),
            Event::Fetched(reply) => EventModel::Fetched(reply@),
            Event::Stored(completion) => EventModel::Stored(completion@),
            Event::Deleted(completion) => EventModel::Deleted(completion@),
        }
    }
}

/// What the pipeline asks the caller to do next.
#[derive(Clone, Debug, PartialEq, Eq)]
pub enum Action {
    /// Read the object at `key` in `bucket`, once.
    Fetch { bucket: String, key: String },
    /// Write the bytes of `image` to `key` in `bucket`, once, with the given
    /// content type.
    Store { bucket: String, key: String, content_type: String, image: TransformedImage },
    /// Remove the object at `key` in `bucket`, once.
    Delete { bucket: String, key: String },
    /// The run succeeded. `warning` holds the `DeleteError` of a removal that
    /// failed after the result had been stored.
    Report { record: OutcomeRecord, warning: Option<PipelineError> },
    /// The run failed, with nothing written.
    Fail { error: PipelineError },
}

/// Mathematical model of an [`Action`].
pub enum ActionModel {
    Fetch { bucket: Seq<char>, key: Seq<char> },
    Store { bucket: Seq<char>, key: Seq<char>, content_type: Seq<char>, image: ImageModel },
    Delete { bucket: Seq<char>, key: Seq<char> },
    Report { record: OutcomeModel, warning: Option<Failure> },
    Fail { error: Failure },
}

impl View for Action {
    type V = ActionModel;

    open spec fn view(&self) -> ActionModel {
        match *self {
            Action::Fetch { bucket, key } => ActionModel::Fetch { bucket: bucket@, key: key@ },
            Action::Store { bucket, key, content_type, image } => ActionModel::Store {
                bucket: bucket@,
                key: key@,
                content_type: content_type@,
                image: image@,
            },
            Action::Delete { bucket, key } => ActionModel::Delete { bucket: bucket@, key: key@ },
            Action::Report { record, warning } => ActionModel::Report {
                record: record@,
                warning: match warning {
                    Some(error) => Some(error@),
                    None => None,
                },
            },
            Action::Fail { error } => ActionModel::Fail { error: error@ },
        }
    }
}

impl ActionModel {
    /// Whether the action is a storage operation, that is a call over the
    /// network.
    pub open spec fn touches_storage(self) -> bool {
        self is Fetch || self is Store || self is Delete
    }
}

impl StageModel {
    /// Whether `event` is the one that a run in this stage is waiting for.
    pub open spec fn awaits(self, event: EventModel) -> bool {
        match (self, event) {
            (StageModel::Waiting, EventModel::Notified(_)) => true,
            (StageModel::Fetching { .. }, EventModel::Fetched(_)) => true,
            (StageModel::Storing { .. }, EventModel::Stored(_)) => true,
            (StageModel::Deleting { .. }, EventModel::Deleted(_)) => true,
            _ => false,
        }
    }
}

/// The step taken on a notification: a read of the object it names, or the
/// end of the run where it names none.
pub open spec fn notified(event: Seq<RecordModel>) -> (StageModel, ActionModel) {
    match extraction(event) {
        Ok((key, bucket)) => (
            StageModel::Fetching { key, bucket },
            ActionModel::Fetch { bucket, key },
        ),
        Err(defect) => (
            StageModel::Finished,
            ActionModel::Fail { error: Failure::MalformedEvent { defect } },
        ),
    }
}

/// The step taken once the object from `key` in `bucket` has been accepted
/// and its transformation has ended with `transformed`: the write of the
/// result to its destination, or the end of the run.
pub open spec fn planned(
    transformed: Result<ImageModel, Failure>,
    object: ObjectModel,
    config: ConfigModel,
    key: Seq<char>,
    bucket: Seq<char>,
) -> (StageModel, ActionModel) {
    match transformed {
        Err(error) => (StageModel::Finished, ActionModel::Fail { error }),
        Ok(image) => {
            let dest_bucket = destination_bucket_of(config, bucket);
            let dest_key = destination_key_of(config, key);
            (
                StageModel::Storing {
                    record: OutcomeModel {
                        key,
                        src_bucket: bucket,
                        len: object.content_length,
                        dest_key,
                        dest_bucket,
                        output_len: image.bytes.len(),
                    },
                },
                ActionModel::Store {
                    bucket: dest_bucket,
                    key: dest_key,
                    content_type: object.content_type,
                    image,
                },
            )
        },
    }
}

/// Whether `next` is the step taken on the accepted `object` from `key` in
/// `bucket`. Where the transformation of its payload gives an image, the
/// step is the planned write of that very image, which is well-formed;
/// where it fails, the step ends the run with a failure of that kind for
/// this key.
pub open spec fn transformed(
    next: (StageModel, ActionModel),
    object: ObjectModel,
    config: ConfigModel,
    key: Seq<char>,
    bucket: Seq<char>,
) -> bool {
    match transformation_for_key(object.body, key) {
        Ok(image) => image.wf() && next == planned(
            Ok::<ImageModel, Failure>(image),
            object,
            config,
            key,
            bucket,
        ),
        Err(kind) => {
            &&& next.0 is Finished
            &&& next.1 matches ActionModel::Fail { error }
            &&& error.kind() == kind
            &&& transform_failure(error, key)
        },
    }
}

/// Whether `next` is the step taken on the reply to the read of `key` in
/// `bucket`. A reply that is not accepted ends the run with the failure of
/// the fetch stage; an accepted object is transformed.
pub open spec fn fetched(
    next: (StageModel, ActionModel),
    reply: ReplyModel,
    config: ConfigModel,
    key: Seq<char>,
    bucket: Seq<char>,
) -> bool {
    match acceptance(reply, config, key, bucket) {
        Err(error) => next == (StageModel::Finished, ActionModel::Fail { error }),
        Ok(object) => transformed(next, object, config, key, bucket),
    }
}

/// The step taken once the write of the result has ended: the end of the
/// run where it failed, the removal of the source where that is enabled,
/// and the report otherwise.
pub open spec fn stored(record: OutcomeModel, reply: CompletionModel, config: ConfigModel) -> (
    StageModel,
    ActionModel,
) {
    match reply {
        CompletionModel::Failed { cause } => (
            StageModel::Finished,
            ActionModel::Fail {
                error: Failure::WriteError {
                    bucket: record.dest_bucket,
                    key: record.dest_key,
                    cause,
                },
            },
        ),
        CompletionModel::Done => if config.delete_source {
            (
                StageModel::Deleting { record },
                ActionModel::Delete { bucket: record.src_bucket, key: record.key },
            )
        } else {
            (StageModel::Finished, ActionModel::Report { record, warning: None })
        },
    }
}

/// The step taken once the removal of the source has ended: the report,
/// with a `DeleteError` beside it where the removal failed.
pub open spec fn deleted(record: OutcomeModel, reply: CompletionModel) -> (
    StageModel,
    ActionModel,
) {
    (
        StageModel::Finished,
        ActionModel::Report {
            record,
            warning: match reply {
                CompletionModel::Done => None,
                CompletionModel::Failed { cause } => Some(
                    Failure::DeleteError { bucket: record.src_bucket, key: record.key, cause },
                ),
            },
        },
    )
}

/// Whether `next` is a step that a run in `stage` may take on `event`.
pub open spec fn follows(
    next: (StageModel, ActionModel),
    stage: StageModel,
    event: EventModel,
    config: ConfigModel,
) -> bool {
    match (stage, event) {
        (StageModel::Waiting, EventModel::Notified(event)) => next == notified(event),
        (StageModel::Fetching { key, bucket }, EventModel::Fetched(reply)) => fetched(
            next,
            reply,
            config,
            key,
            bucket,
        ),
        (StageModel::Storing { record }, EventModel::Stored(reply)) => next == stored(
            record,
            reply,
            config,
        ),
        (StageModel::Deleting { record }, EventModel::Deleted(reply)) => next == deleted(
            record,
            reply,
        ),
        _ => false,
    }
}

impl Stage {
    /// Whether `event` is the one that a run in this stage is waiting for.
    pub fn awaits(&self, event: &Event) -> (awaited: bool)
        ensures
            awaited == self@.awaits(event@),
    {
        match (self, event) {
            (Stage::Waiting, Event::Notified(_)) => true,
            (Stage::Fetching { .. }, Event::Fetched(_)) => true,
            (Stage::Storing { .. }, Event::Stored(_)) => true,
            (Stage::Deleting { .. }, Event::Deleted(_)) => true,
            _ => false,
        }
    }
}

/// Takes the first step of a run: extracts the source location from the
/// notification and asks for the object to be read.
pub fn on_notified(event: &InboundEvent) -> (next: (Stage, Action))
    ensures
        next@ == notified(event@),
{
    match extract_key_src(event) {
        Ok((key, bucket)) => (
            Stage::Fetching { key: key.clone(), bucket: bucket.clone() },
            Action::Fetch { bucket, key },
        ),
        Err(error) => (Stage::Finished, Action::Fail { error }),
    }
}

/// Plans the write of a result: `transformed` is what the transformation of
/// the accepted `object` from `key` in `bucket` ended with.
pub fn plan_store(
    transformed: Result<TransformedImage, PipelineError>,
    object: &FetchedObject,
    config: &Config,
    key: String,
    bucket: String,
) -> (next: (Stage, Action))
    ensures
        next@ == planned(outcome_model(transformed), object@, config@, key@, bucket@),
{
    match transformed {
        Err(error) => (Stage::Finished, Action::Fail { error }),
        Ok(image) => {
            let dest_bucket = destination_bucket(config, bucket.as_str());
            let dest_key = destination_key(config, key.as_str());
            let record = OutcomeRecord {
                key,
                src_bucket: bucket,
                len: object.content_length,
                dest_key: dest_key.clone(),
                dest_bucket: dest_bucket.clone(),
                output_len: image.bytes.len(),
            };
            (
                Stage::Storing { record },
                Action::Store {
                    bucket: dest_bucket,
                    key: dest_key,
                    content_type: object.content_type.clone(),
                    image,
                },
            )
        },
    }
}

/// Takes the step that follows the read of `key` in `bucket`: checks the
/// reply, transforms the object and plans the write of the result.
pub fn on_fetched(reply: FetchReply, config: &Config, key: String, bucket: String) -> (next: (
    Stage,
    Action,
))
    ensures
        fetched(next@, reply@, config@, key@, bucket@),
{
    match accept_object(reply, config, &key, &bucket) {
        Err(error) => (Stage::Finished, Action::Fail { error }),
        Ok(object) => {
            let done = transform(object.body.as_slice(), key.as_str());
            plan_store(done, &object, config, key, bucket)
        },
    }
}

/// Takes the step that follows the write of the result.
pub fn on_stored(record: OutcomeRecord, reply: Completion, config: &Config) -> (next: (
    Stage,
    Action,
))
    ensures
        next@ == stored(record@, reply@, config@),
{
    match reply {
        Completion::Failed { cause } => (
            Stage::Finished,
            Action::Fail {
                error: PipelineError::WriteError {
                    bucket: record.dest_bucket,
                    key: record.dest_key,
                    cause,
                },
            },
        ),
        Completion::Done => if config.delete_source {
            let bucket = record.src_bucket.clone();
            let key = record.key.clone();
            (Stage::Deleting { record }, Action::Delete { bucket, key })
        } else {
            (Stage::Finished, Action::Report { record, warning: None })
        },
    }
}

/// Takes the step that follows the removal of the source: the run has
/// succeeded either way, and a failed removal is reported beside the
/// summary.
pub fn on_deleted(record: OutcomeRecord, reply: Completion) -> (next: (Stage, Action))
    ensures
        next@ == deleted(record@, reply@),
{
    let warning = match reply {
        Completion::Done => None,
        Completion::Failed { cause } => Some(
            PipelineError::DeleteError {
                bucket: record.src_bucket.clone(),
                key: record.key.clone(),
                cause,
            },
        ),
    };
    (Stage::Finished, Action::Report { record, warning })
}

/// Takes one step of a run: from the stage it is in and the event that the
/// stage was waiting for, to the next stage and the action to perform.
pub fn step(stage: Stage, event: Event, config: &Config) -> (next: (Stage, Action))
    requires
        stage@.awaits(event@),
    ensures
        follows(next@, stage@, event@, config@),
{
    match stage {
        Stage::Waiting => match event {
            Event::Notified(event) => on_notified(&event),
            _ => unreached(),
        },
        Stage::Fetching { key, bucket } => match event {
            Event::Fetched(reply) => on_fetched(reply, config, key, bucket),
            _ => unreached(),
        },
        Stage::Storing { record } => match event {
            Event::Stored(reply) => on_stored(record, reply, config),
            _ => unreached(),
        },
        Stage::Deleting { record } => match event {
            Event::Deleted(reply) => on_deleted(record, reply),
            _ => unreached(),
        },
        Stage::Finished => unreached(),
    }
}

impl StageModel {
    /// How far a run in this stage has come.
    pub open spec fn progress(self) -> nat {
        match self {
            StageModel::Waiting => 0,
            StageModel::Fetching { .. } => 1,
            StageModel::Storing { .. } => 2,
            StageModel::Deleting { .. } => 3,
            StageModel::Finished => 4,
        }
    }
}

/// Whether `action` is the one that belongs to a run entering `stage`: the
/// read, the write or the removal that the stage waits for, with the
/// locations that the stage holds, and a report or a failure at the end.
pub open spec fn announces(action: ActionModel, stage: StageModel) -> bool {
    match stage {
        StageModel::Waiting => false,
        StageModel::Fetching { key, bucket } => action == (ActionModel::Fetch { bucket, key }),
        StageModel::Storing { record } => {
            &&& action matches ActionModel::Store { bucket, key, image, .. }
            &&& bucket == record.dest_bucket
            &&& key == record.dest_key
            &&& image.bytes.len() == record.output_len
            &&& image.wf()
        },
        StageModel::Deleting { record } => action == (ActionModel::Delete {
            bucket: record.src_bucket,
            key: record.key,
        }),
        StageModel::Finished => action is Report || action is Fail,
    }
}

/// Control flow is linear: every step moves a run forward, so a run takes
/// at most four steps, and the action of a step is the one that belongs to
/// the stage it enters. In particular a failure ends the run, and the
/// length that a record reports is the length of what is written.
pub proof fn lemma_step_advances(
    next: (StageModel, ActionModel),
    stage: StageModel,
    event: EventModel,
    config: ConfigModel,
)
    requires
        follows(next, stage, event, config),
    ensures
        stage.awaits(event),
        next.0.progress() > stage.progress(),
        announces(next.1, next.0),
{
}

/// Nothing is written unless every earlier stage succeeded: a write is only
/// asked for on the reply to the read, the object it is made from was
/// accepted, and it goes to the destination of the source under the
/// settings, with the content type that the source declared.
pub proof fn lemma_store_follows_accepted_fetch(
    next: (StageModel, ActionModel),
    stage: StageModel,
    event: EventModel,
    config: ConfigModel,
)
    requires
        follows(next, stage, event, config),
        next.1 is Store,
    ensures
        ({
            &&& stage matches StageModel::Fetching { key, bucket }
            &&& event matches EventModel::Fetched(reply)
            &&& acceptance(reply, config, key, bucket) matches Ok(object)
            &&& next.1 matches ActionModel::Store {
                bucket: dest_bucket,
                key: dest_key,
                content_type,
                ..
            }
            &&& dest_bucket == destination_bucket_of(config, bucket)
            &&& dest_key == destination_key_of(config, key)
            &&& content_type == object.content_type
            &&& object.wf(config)
        }),
{
}

/// What is written is the input, resized, in the format of the input: the
/// key of the source calls for a supported codec, however the payload
/// reads; the bytes of a write are what the encoder gives, under that
/// codec, for the image that resizing makes of what the payload decodes to
/// under the same codec. That image is the one whose extent the result
/// records: it lies in the box and has the shape of its source up to
/// rounding.
pub proof fn lemma_stored_bytes_encode_the_fitted_image(
    next: (StageModel, ActionModel),
    reply: ReplyModel,
    config: ConfigModel,
    key: Seq<char>,
    bucket: Seq<char>,
)
    requires
        fetched(next, reply, config, key, bucket),
        next.1 is Store,
    ensures
        ({
            let image = next.1->Store_image;
            let skew = image.width * image.source_height - image.height * image.source_width;
            let slack = if width_bound(
                image.source_width,
                image.source_height,
                MAX_WIDTH as int,
                MAX_HEIGHT as int,
            ) {
                image.source_width
            } else {
                image.source_height
            };
            &&& acceptance(reply, config, key, bucket) matches Ok(object)
            &&& codec_of_key(key) matches Some(codec)
            &&& decoded_raster(object.body, codec) matches Some(raster)
            &&& encoded_bytes(resized_raster(raster, MAX_WIDTH, MAX_HEIGHT), codec) == Some(
                image.bytes,
            )
            &&& raster_size(raster).0 == image.source_width
            &&& raster_size(raster).1 == image.source_height
            &&& raster_size(resized_raster(raster, MAX_WIDTH, MAX_HEIGHT)).0 == image.width
            &&& raster_size(resized_raster(raster, MAX_WIDTH, MAX_HEIGHT)).1 == image.height
            &&& 1 <= image.width <= MAX_WIDTH
            &&& 1 <= image.height <= MAX_HEIGHT
            &&& -slack < skew < slack
        }),
{
    let image = next.1->Store_image;
    lemma_image_in_box(image);
    lemma_image_keeps_shape(image);
}

/// A key that calls for no format, or for one outside the supported ones,
/// ends the run with `UnrecognizedFormat` whatever the payload holds, and
/// nothing is decoded or written.
pub proof fn lemma_unsupported_format_ends_run(
    next: (StageModel, ActionModel),
    reply: ReplyModel,
    config: ConfigModel,
    key: Seq<char>,
    bucket: Seq<char>,
)
    requires
        fetched(next, reply, config, key, bucket),
        acceptance(reply, config, key, bucket) is Ok,
        codec_of_key(key) is None,
    ensures
        next.0 is Finished,
        next.1 matches ActionModel::Fail { error: Failure::UnrecognizedFormat { key: subject, .. } }
            && subject == key,
        !next.1.touches_storage(),
{
}

/// Processing the same object again rewrites the same result: two runs on
/// one reply that come to a write take the same step, so the write has the
/// same destination, the same content type and the same bytes.
pub proof fn lemma_reprocessing_rewrites_the_same_bytes(
    first: (StageModel, ActionModel),
    second: (StageModel, ActionModel),
    reply: ReplyModel,
    config: ConfigModel,
    key: Seq<char>,
    bucket: Seq<char>,
)
    requires
        fetched(first, reply, config, key, bucket),
        fetched(second, reply, config, key, bucket),
        first.1 is Store,
    ensures
        second == first,
{
}

} // verus!
