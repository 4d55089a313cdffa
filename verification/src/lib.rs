//! Core of an event-triggered image resizing pipeline.
//!
//! A notification names an object in a storage bucket. The pipeline fetches
//! the object, checks that it is an acceptable image, decodes it, scales it
//! into a bounding box, encodes it again in the same format and stores the
//! result at a destination derived from the source, optionally removing the
//! source afterwards.
//!
//! The storage service only ever appears here as plain requests and replies:
//! [`pipeline::step`] decides what to ask for next, and the caller performs
//! the request and hands the reply back.

pub mod codec;
pub mod config;
pub mod destination;
pub mod error;
pub mod fetch;
pub mod notification;
pub mod pipeline;
pub mod raster;
pub mod report;
pub mod sizing;
pub mod transform;
