//! The messages that the manager and a worker exchange.
//!
//! The shapes are those of the wire: every part of a message may be absent,
//! and the type of a task is a number.

use vstd::prelude::*;

verus! {

/// The number that stands for image classification.
pub const IMAGE_CLASSIFICATION: i32 = 0;

/// The number that stands for image-to-image inference.
pub const IMAGE_TO_IMAGE: i32 = 1;

/// The number that stands for text-to-text inference.
pub const TEXT_TO_TEXT: i32 = 2;

/// The type of a task: its number, and how many classes are asked for.
#[derive(Debug, Clone, Copy, PartialEq, Eq, Structural)]
pub struct InferenceType {
    pub kind: i32,
    pub top_n: Option<u32>,
}

/// An image in base 64, with its size where it is known.
#[derive(Debug, Clone, PartialEq, Eq)]
pub struct B64Image {
    pub image: String,
    pub height: Option<u32>,
    pub width: Option<u32>,
}

/// A request for inference.
#[derive(Debug, Clone, PartialEq, Eq)]
pub struct InferenceTask {
    pub inference_type: Option<InferenceType>,
    pub image: Option<B64Image>,
    pub text: Option<String>,
}

/// One class of a classification. The probability travels as the bits of a
/// double-precision number.
#[derive(Debug, Clone, PartialEq, Eq)]
pub struct Class {
    pub probability: Option<u64>,
    pub label: Option<String>,
}

/// The classes of a classification, the likeliest first.
#[derive(Debug, Clone, PartialEq, Eq)]
pub struct Classes {
    pub classes: Vec<Class>,
}

/// The answer to a request for inference. The duration, in seconds, travels
/// as the bits of a single-precision number.
#[derive(Debug, Clone, PartialEq, Eq)]
pub struct Inference {
    pub text: Option<String>,
    pub image: Option<B64Image>,
    pub classification: Option<Classes>,
    pub duration: u32,
}

/// What a worker reports of itself.
#[derive(Debug, Clone, Copy, PartialEq, Eq, Structural)]
pub struct Stats {
    pub reqs_served: u64,
}

/// The status code under which a worker refuses a task that it cannot read.
pub const STATUS_INVALID_ARGUMENT: i32 = 3;

/// The status code under which a worker reports that its model failed.
pub const STATUS_FAILED_PRECONDITION: i32 = 9;

/// The error that ends a call in place of an answer: a status code and a text.
#[derive(Debug, Clone, PartialEq, Eq)]
pub struct Status {
    pub code: i32,
    pub message: String,
}

/// What came back from a call to a worker.
#[derive(Debug, Clone, PartialEq, Eq)]
pub enum Reply {
    /// The worker's answer.
    Answer(Inference),
    /// The call ended with a status, the worker's own or the channel's.
    Failed(Status),
}

} // verus!
