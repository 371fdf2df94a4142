//! What can go wrong between a request and its answer.

use vstd::prelude::*;

verus! {

/// The kinds of inference, without what each of them is asked with.
#[derive(Debug, Clone, Copy, PartialEq, Eq, Structural)]
pub enum TaskKind {
    ImageClassification,
    ImageToImage,
    TextToText,
}

/// What is wrong with a task or with a message that carries one.
#[derive(Debug, Clone, Copy, PartialEq, Eq, Structural)]
pub enum InputFault {
    /// The message names no inference type.
    MissingType,
    /// The message names an inference type that does not exist.
    UnknownType,
    /// Classification was asked for without the number of classes.
    MissingTopN,
    /// The message lacks what its kind of inference works on: the image, or
    /// the text.
    MissingPayload(TaskKind),
    /// The data of the task is not what its kind of inference works on.
    WrongPayload(TaskKind),
    /// The image is not valid base 64.
    MalformedImage,
}

/// Why a request was refused or failed.
#[derive(Debug, Clone, PartialEq, Eq)]
pub enum ManagerError {
    /// One more worker would exceed the largest number of workers.
    CapacityExceeded,
    /// A new worker did not open its endpoint in time.
    SpawnTimeout,
    /// No worker is idle, and no new one may be started.
    AllBusy,
    /// The channel to the worker failed while the request was under way.
    RpcFailure(String),
    /// The worker's model gave an error; the text is the worker's.
    InferenceFailure(String),
    /// The task's payload does not fit its type.
    InvalidInput(InputFault),
}

impl InputFault {
    /// What the fault reads as.
    pub open spec fn text(self) -> Seq<char> {
        match self {
            InputFault::MissingType => "must provide inference type"@,
            InputFault::UnknownType => "unknown inference type"@,
            InputFault::MissingTopN => "must provide top_n for ImageClassification inference"@,
            InputFault::MissingPayload(TaskKind::ImageClassification) =>
                "must provide image for ImageClassification inference"@,
            InputFault::MissingPayload(TaskKind::ImageToImage) =>
                "must provide image for ImageToImage inference"@,
            InputFault::MissingPayload(TaskKind::TextToText) =>
                "must provide text for TextToText inference"@,
            InputFault::WrongPayload(TaskKind::ImageClassification) =>
                "invalid input type for ImageClassification inference"@,
            InputFault::WrongPayload(TaskKind::ImageToImage) =>
                "invalid input type for ImageToImage inference"@,
            InputFault::WrongPayload(TaskKind::TextToText) =>
                "invalid input type for TextToText inference"@,
            InputFault::MalformedImage => "image is not valid base 64"@,
        }
    }

    /// What the fault reads as.
    pub fn message(&self) -> (s: String)
        ensures
            s@ == self.text(),
    {
        match self {
            InputFault::MissingType => "must provide inference type".to_owned(),
            InputFault::UnknownType => "unknown inference type".to_owned(),
            InputFault::MissingTopN =>
                "must provide top_n for ImageClassification inference".to_owned(),
            InputFault::MissingPayload(TaskKind::ImageClassification) =>
                "must provide image for ImageClassification inference".to_owned(),
            InputFault::MissingPayload(TaskKind::ImageToImage) =>
                "must provide image for ImageToImage inference".to_owned(),
            InputFault::MissingPayload(TaskKind::TextToText) =>
                "must provide text for TextToText inference".to_owned(),
            InputFault::WrongPayload(TaskKind::ImageClassification) =>
                "invalid input type for ImageClassification inference".to_owned(),
            InputFault::WrongPayload(TaskKind::ImageToImage) =>
                "invalid input type for ImageToImage inference".to_owned(),
            InputFault::WrongPayload(TaskKind::TextToText) =>
                "invalid input type for TextToText inference".to_owned(),
            InputFault::MalformedImage => "image is not valid base 64".to_owned(),
        }
    }
}

impl ManagerError {
    /// What the error reads as.
    pub open spec fn text(self) -> Seq<char> {
        match self {
            ManagerError::CapacityExceeded => "maximum number of workers exceeded. cannot allocate any more"@,
            ManagerError::SpawnTimeout => "timeout connecting to new worker process"@,
            ManagerError::AllBusy => "all workers are busy"@,
            ManagerError::RpcFailure(text) => text@,
            ManagerError::InferenceFailure(text) => text@,
            ManagerError::InvalidInput(fault) => fault.text(),
        }
    }

    /// What the error reads as.
    pub fn message(&self) -> (s: String)
        ensures
            s@ == self.text(),
    {
        match self {
            ManagerError::CapacityExceeded => "maximum number of workers exceeded. cannot allocate any more".to_owned(),
            ManagerError::SpawnTimeout => "timeout connecting to new worker process".to_owned(),
            ManagerError::AllBusy => "all workers are busy".to_owned(),
            ManagerError::RpcFailure(text) => text.clone(),
            ManagerError::InferenceFailure(text) => text.clone(),
            ManagerError::InvalidInput(fault) => fault.message(),
        }
    }
}

} // verus!
