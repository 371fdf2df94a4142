//! Tasks and their results, and how they are written to and read from the
//! messages of the wire.

use vstd::prelude::*;
use crate::error::{InputFault, ManagerError, TaskKind};
use crate::rpc;
use crate::transcode::{base64_bytes, base64_text, decode_standard, encodable, encode_standard};

verus! {

/// An image in memory, as the bytes of its file. Can be the input or the
/// output of a model.
#[derive(Debug, Clone, PartialEq, Eq)]
pub struct Image {
    pub image: Vec<u8>,
    pub height: Option<u32>,
    pub width: Option<u32>,
}

/// An image in base 64.
#[derive(Debug, Clone, PartialEq, Eq)]
pub struct B64Image {
    pub image: String,
    pub height: Option<u32>,
    pub width: Option<u32>,
}

/// What a client may send for inference.
#[derive(Debug, Clone, PartialEq, Eq)]
pub enum InferenceRequest {
    Image(B64Image),
    Text(String),
}

/// A class prediction of a classifier model. The probability is held as
/// the bits of a double-precision number.
#[derive(Debug, Clone, PartialEq, Eq)]
pub struct Class {
    pub probability: Option<u64>,
    pub label: Option<String>,
}

/// The output of a model's inference.
#[derive(Debug, Clone, PartialEq, Eq)]
pub enum Inference {
    Text(String),
    Classification(Vec<Class>),
    B64Image(B64Image),
}

/// The type of inference to compute.
#[derive(Debug, Clone, Copy, PartialEq, Eq, Structural)]
pub enum InferenceType {
    /// From an image to the `top_n` likeliest classes.
    ImageClassification { top_n: u16 },
    /// From an image to an image: object detection or segmentation.
    ImageToImage,
    /// From text to text.
    TextToText,
}

/// Input data that inference can be computed on.
#[derive(Debug, Clone, PartialEq, Eq)]
pub enum InputData {
    Text(String),
    B64Image(B64Image),
}

/// A request for inference: the data and what to compute on it.
#[derive(Debug, Clone, PartialEq, Eq)]
pub struct InferenceTask {
    pub data: InputData,
    pub inference_type: InferenceType,
}

/// What a worker's model is to do for a task.
#[derive(Debug, Clone, PartialEq, Eq)]
pub enum Job {
    /// Name the `top_n` likeliest classes of the image.
    Classify { image: Image, top_n: u16 },
    /// Turn the image into another image.
    Transform { image: Image },
}

impl Image {
    /// The image that is read from `b`: its bytes where the text is valid
    /// base 64, no bytes where it is not, and the size as it is.
    pub open spec fn read_from(self, b: B64Image) -> bool {
        &&& self.image@ == match b.bytes() {
            Some(bytes) => bytes,
            None => Seq::<u8>::empty(),
        }
        &&& self.height == b.height
        &&& self.width == b.width
    }

    /// The image in base 64, of the same size.
    pub fn into_b64(self) -> (b: B64Image)
        requires
            encodable(self.image@.len()),
        ensures
            b.image@ == base64_text(self.image@),
            b.height == self.height,
            b.width == self.width,
    {
        let image = encode_standard(&self.image);
        B64Image { image, height: self.height, width: self.width }
    }
}

impl B64Image {
    /// The bytes that the text of the image stands for, where it is valid base 64.
    pub open spec fn bytes(self) -> Option<Seq<u8>> {
        base64_bytes(self.image@)
    }

    /// The image in memory; an image without bytes where the text is not
    /// valid base 64.
    pub fn into_image(self) -> (img: Image)
        ensures
            img.read_from(self),
    {
        let image = match decode_standard(self.image.as_str()) {
            Ok(bytes) => bytes,
            Err(_) => Vec::new(),
        };
        Image { image, height: self.height, width: self.width }
    }

    /// The image in memory, or the fault where the text is not valid base 64.
    pub fn try_into_image(self) -> (r: Result<Image, InputFault>)
        ensures
            match r {
                Ok(img) => {
                    &&& self.bytes() == Some(img.image@)
                    &&& img.height == self.height
                    &&& img.width == self.width
                },
                Err(fault) => fault == InputFault::MalformedImage && self.bytes() is None,
            },
    {
        match decode_standard(self.image.as_str()) {
            Ok(image) => Ok(Image { image, height: self.height, width: self.width }),
            Err(_) => Err(InputFault::MalformedImage),
        }
    }

    /// The image as the wire carries it.
    pub open spec fn wire(self) -> rpc::B64Image {
        rpc::B64Image { image: self.image, height: self.height, width: self.width }
    }

    /// The image that the wire carried.
    pub open spec fn of_wire(w: rpc::B64Image) -> B64Image {
        B64Image { image: w.image, height: w.height, width: w.width }
    }

    /// Writes the image to the wire.
    pub fn into_rpc(self) -> (w: rpc::B64Image)
        ensures
            w == self.wire(),
    {
        rpc::B64Image { image: self.image, height: self.height, width: self.width }
    }

    /// Reads an image from the wire.
    pub fn from_rpc(w: rpc::B64Image) -> (b: B64Image)
        ensures
            b == B64Image::of_wire(w),
    {
        B64Image { image: w.image, height: w.height, width: w.width }
    }
}

impl InputData {
    /// The input that holds the image with these bytes, its size unknown.
    pub fn from_image_bytes(image: Vec<u8>) -> (d: InputData)
        requires
            encodable(image@.len()),
        ensures
            d matches InputData::B64Image(b) && b.image@ == base64_text(image@) && b.height
                is None && b.width is None,
    {
        InputData::B64Image(Image { image, height: None, width: None }.into_b64())
    }
}

impl InferenceType {
    /// Whether this type of inference works on an image.
    pub open spec fn wants_image(self) -> bool {
        self !is TextToText
    }

    /// The kind of inference.
    pub open spec fn task_kind(self) -> TaskKind {
        match self {
            InferenceType::ImageClassification { .. } => TaskKind::ImageClassification,
            InferenceType::ImageToImage => TaskKind::ImageToImage,
            InferenceType::TextToText => TaskKind::TextToText,
        }
    }

    /// The kind of inference.
    pub fn kind(&self) -> (k: TaskKind)
        ensures
            k == self.task_kind(),
    {
        match self {
            InferenceType::ImageClassification { .. } => TaskKind::ImageClassification,
            InferenceType::ImageToImage => TaskKind::ImageToImage,
            InferenceType::TextToText => TaskKind::TextToText,
        }
    }

    /// The type as the wire carries it.
    pub open spec fn wire(self) -> rpc::InferenceType {
        match self {
            InferenceType::ImageClassification { top_n } => rpc::InferenceType {
                kind: rpc::IMAGE_CLASSIFICATION,
                top_n: Some(top_n as u32),
            },
            InferenceType::ImageToImage => rpc::InferenceType {
                kind: rpc::IMAGE_TO_IMAGE,
                top_n: None,
            },
            InferenceType::TextToText => rpc::InferenceType { kind: rpc::TEXT_TO_TEXT, top_n: None },
        }
    }

    /// Writes the type to the wire.
    pub fn into_rpc(self) -> (w: rpc::InferenceType)
        ensures
            w == self.wire(),
    {
        match self {
            InferenceType::ImageClassification { top_n } => rpc::InferenceType {
                kind: rpc::IMAGE_CLASSIFICATION,
                top_n: Some(top_n as u32),
            },
            InferenceType::ImageToImage => rpc::InferenceType {
                kind: rpc::IMAGE_TO_IMAGE,
                top_n: None,
            },
            InferenceType::TextToText => rpc::InferenceType { kind: rpc::TEXT_TO_TEXT, top_n: None },
        }
    }
}

impl InferenceTask {
    /// What is wrong with the task, if anything: its data must be an image
    /// where its type works on images, and text where it works on text.
    pub open spec fn fault(self) -> Option<InputFault> {
        if self.inference_type.wants_image() == (self.data is B64Image) {
            None
        } else {
            Some(InputFault::WrongPayload(self.inference_type.task_kind()))
        }
    }

    /// Whether the task can be written to the wire.
    pub open spec fn accepted(self) -> bool {
        self.fault() is None
    }

    /// The message that carries the task.
    pub open spec fn encoded(self) -> rpc::InferenceTask {
        rpc::InferenceTask {
            inference_type: Some(self.inference_type.wire()),
            image: match self.data {
                InputData::B64Image(img) => Some(img.wire()),
                InputData::Text(_) => None,
            },
            text: match self.data {
                InputData::B64Image(_) => None,
                InputData::Text(text) => Some(text),
            },
        }
    }

    /// The task that a message carries, or what the message lacks.
    ///
    /// A number of classes beyond sixteen bits is cut to its low sixteen bits.
    pub open spec fn decoded(w: rpc::InferenceTask) -> Result<InferenceTask, InputFault> {
        match w.inference_type {
            None => Err(InputFault::MissingType),
            Some(ty) => if ty.kind == rpc::IMAGE_CLASSIFICATION {
                match (w.image, ty.top_n) {
                    (None, _) => Err(InputFault::MissingPayload(TaskKind::ImageClassification)),
                    (Some(_), None) => Err(InputFault::MissingTopN),
                    (Some(img), Some(n)) => Ok(
                        InferenceTask {
                            data: InputData::B64Image(B64Image::of_wire(img)),
                            inference_type: InferenceType::ImageClassification {
                                top_n: n as u16,
                            },
                        },
                    ),
                }
            } else if ty.kind == rpc::IMAGE_TO_IMAGE {
                match w.image {
                    None => Err(InputFault::MissingPayload(TaskKind::ImageToImage)),
                    Some(img) => Ok(
                        InferenceTask {
                            data: InputData::B64Image(B64Image::of_wire(img)),
                            inference_type: InferenceType::ImageToImage,
                        },
                    ),
                }
            } else if ty.kind == rpc::TEXT_TO_TEXT {
                match w.text {
                    None => Err(InputFault::MissingPayload(TaskKind::TextToText)),
                    Some(text) => Ok(
                        InferenceTask {
                            data: InputData::Text(text),
                            inference_type: InferenceType::TextToText,
                        },
                    ),
                }
            } else {
                Err(InputFault::UnknownType)
            },
        }
    }

    /// Checks that the data of the task fits its type.
    pub fn validate(&self) -> (r: Result<(), InputFault>)
        ensures
            r == match self.fault() {
                None => Ok::<(), InputFault>(()),
                Some(fault) => Err(fault),
            },
    {
        match self.inference_type {
            InferenceType::TextToText => match &self.data {
                InputData::Text(_) => Ok(()),
                InputData::B64Image(_) => Err(InputFault::WrongPayload(TaskKind::TextToText)),
            },
            _ => match &self.data {
                InputData::B64Image(_) => Ok(()),
                InputData::Text(_) => Err(InputFault::WrongPayload(self.inference_type.kind())),
            },
        }
    }

    /// Writes the task to the wire, or says why it cannot be written.
    pub fn into_rpc(self) -> (r: Result<rpc::InferenceTask, InputFault>)
        ensures
            r == match self.fault() {
                None => Ok::<rpc::InferenceTask, InputFault>(self.encoded()),
                Some(fault) => Err(fault),
            },
    {
        let inference_type = Some(self.inference_type.into_rpc());
        match self.inference_type {
            InferenceType::TextToText => match self.data {
                InputData::Text(text) => Ok(
                    rpc::InferenceTask { inference_type, image: None, text: Some(text) },
                ),
                InputData::B64Image(_) => Err(InputFault::WrongPayload(TaskKind::TextToText)),
            },
            _ => match self.data {
                InputData::B64Image(img) => Ok(
                    rpc::InferenceTask { inference_type, image: Some(img.into_rpc()), text: None },
                ),
                InputData::Text(_) => Err(InputFault::WrongPayload(self.inference_type.kind())),
            },
        }
    }

    /// Reads a task from the wire, or says what the message lacks.
    pub fn from_rpc(w: rpc::InferenceTask) -> (r: Result<InferenceTask, InputFault>)
        ensures
            r == InferenceTask::decoded(w),
    {
        let ty = match w.inference_type {
            Some(ty) => ty,
            None => {
                return Err(InputFault::MissingType);
            },
        };
        if ty.kind == rpc::IMAGE_CLASSIFICATION {
            let img = match w.image {
                Some(img) => img,
                None => {
                    return Err(InputFault::MissingPayload(TaskKind::ImageClassification));
                },
            };
            let n = match ty.top_n {
                Some(n) => n,
                None => {
                    return Err(InputFault::MissingTopN);
                },
            };
            Ok(
                InferenceTask {
                    data: InputData::B64Image(B64Image::from_rpc(img)),
                    inference_type: InferenceType::ImageClassification {
                        top_n: #[verifier::truncate]
                        (n as u16),
                    },
                },
            )
        } else if ty.kind == rpc::IMAGE_TO_IMAGE {
            match w.image {
                Some(img) => Ok(
                    InferenceTask {
                        data: InputData::B64Image(B64Image::from_rpc(img)),
                        inference_type: InferenceType::ImageToImage,
                    },
                ),
                None => Err(InputFault::MissingPayload(TaskKind::ImageToImage)),
            }
        } else if ty.kind == rpc::TEXT_TO_TEXT {
            match w.text {
                Some(text) => Ok(
                    InferenceTask {
                        data: InputData::Text(text),
                        inference_type: InferenceType::TextToText,
                    },
                ),
                None => Err(InputFault::MissingPayload(TaskKind::TextToText)),
            }
        } else {
            Err(InputFault::UnknownType)
        }
    }

    /// What the model is to do for the task. A task whose data is not an
    /// image is invalid input for its kind of inference; inference from
    /// text to text is not supported and fails.
    pub fn into_job(self) -> (r: Result<Job, ManagerError>)
        ensures
            match self.inference_type {
                InferenceType::ImageClassification { top_n } => match self.data {
                    InputData::B64Image(b) => {
                        &&& r matches Ok(Job::Classify { image, top_n: n })
                        &&& image.read_from(b)
                        &&& n == top_n
                    },
                    InputData::Text(_) => r == Err::<Job, ManagerError>(
                        ManagerError::InvalidInput(
                            InputFault::WrongPayload(TaskKind::ImageClassification),
                        ),
                    ),
                },
                InferenceType::ImageToImage => match self.data {
                    InputData::B64Image(b) => {
                        &&& r matches Ok(Job::Transform { image })
                        &&& image.read_from(b)
                    },
                    InputData::Text(_) => r == Err::<Job, ManagerError>(
                        ManagerError::InvalidInput(InputFault::WrongPayload(TaskKind::ImageToImage)),
                    ),
                },
                InferenceType::TextToText => {
                    &&& r matches Err(ManagerError::InferenceFailure(text))
                    &&& text@ == "that inference type is not currently supported"@
                },
            },
    {
        match self.inference_type {
            InferenceType::ImageClassification { top_n } => match self.data {
                InputData::B64Image(b) => Ok(Job::Classify { image: b.into_image(), top_n }),
                InputData::Text(_) => Err(
                    ManagerError::InvalidInput(
                        InputFault::WrongPayload(TaskKind::ImageClassification),
                    ),
                ),
            },
            InferenceType::ImageToImage => match self.data {
                InputData::B64Image(b) => Ok(Job::Transform { image: b.into_image() }),
                InputData::Text(_) => Err(
                    ManagerError::InvalidInput(InputFault::WrongPayload(TaskKind::ImageToImage)),
                ),
            },
            InferenceType::TextToText => Err(
                ManagerError::InferenceFailure(
                    "that inference type is not currently supported".to_owned(),
                ),
            ),
        }
    }

    /// A task that was written to the wire is read back as it was.
    pub proof fn lemma_round_trip(self)
        requires
            self.accepted(),
        ensures
            InferenceTask::decoded(self.encoded()) == Ok::<InferenceTask, InputFault>(self),
    {
        match self.inference_type {
            InferenceType::ImageClassification { top_n } => {
                assert((top_n as u32) as u16 == top_n);
            },
            _ => {},
        }
    }
}


impl Class {
    /// The class as the wire carries it.
    pub open spec fn wire(self) -> rpc::Class {
        rpc::Class { probability: self.probability, label: self.label }
    }

    /// The class that the wire carried.
    pub open spec fn of_wire(w: rpc::Class) -> Class {
        Class { probability: w.probability, label: w.label }
    }
}

/// The classes as the wire carries them, in their order.
pub open spec fn classes_wire(classes: Seq<Class>) -> Seq<rpc::Class> {
    Seq::new(classes.len(), |i: int| classes[i].wire())
}

/// The classes that the wire carried, in their order.
pub open spec fn classes_of_wire(classes: Seq<rpc::Class>) -> Seq<Class> {
    Seq::new(classes.len(), |i: int| Class::of_wire(classes[i]))
}

/// Writes the classes of a classification to the wire.
pub fn classes_into_rpc(classes: Vec<Class>) -> (w: rpc::Classes)
    ensures
        w.classes@ == classes_wire(classes@),
{
    let ghost all = classes@;
    let mut out: Vec<rpc::Class> = Vec::new();
    for c in it: classes
        invariant
            it.seq() == all,
            out@.len() == it.index(),
            forall|k: int| 0 <= k < it.index() ==> out@[k] == all[k].wire(),
    {
        out.push(rpc::Class { probability: c.probability, label: c.label });
    }
    rpc::Classes { classes: out }
}

/// Reads the classes of a classification from the wire.
pub fn classes_from_rpc(w: rpc::Classes) -> (classes: Vec<Class>)
    ensures
        classes@ == classes_of_wire(w.classes@),
{
    let ghost all = w.classes@;
    let mut out: Vec<Class> = Vec::new();
    for c in it: w.classes
        invariant
            it.seq() == all,
            out@.len() == it.index(),
            forall|k: int| 0 <= k < it.index() ==> out@[k] == Class::of_wire(all[k]),
    {
        out.push(Class { probability: c.probability, label: c.label });
    }
    out
}

/// A result of inference with the time that the model took: seconds, as the
/// bits of a single-precision number.
#[derive(Debug, Clone, PartialEq, Eq)]
pub struct TimedInference {
    pub inference: Inference,
    pub duration: u32,
}

impl Inference {
    /// Whether `w` is the message that carries this result with this
    /// duration.
    pub open spec fn carried_by(self, duration: u32, w: rpc::Inference) -> bool {
        &&& w.duration == duration
        &&& match self {
            Inference::Text(text) => {
                &&& w.text == Some(text)
                &&& w.image is None
                &&& w.classification is None
            },
            Inference::Classification(classes) => {
                &&& w.text is None
                &&& w.image is None
                &&& w.classification matches Some(cs)
                &&& cs.classes@ == classes_wire(classes@)
            },
            Inference::B64Image(img) => {
                &&& w.text is None
                &&& w.image == Some(img.wire())
                &&& w.classification is None
            },
        }
    }

    /// Whether this is the result that an answer `w` to a task of type
    /// `ty` carries: the classes for a classification, the image for
    /// image-to-image, the text for text-to-text.
    pub open spec fn read_from(self, ty: InferenceType, w: rpc::Inference) -> bool {
        match ty {
            InferenceType::ImageClassification { .. } => {
                &&& w.classification matches Some(cs)
                &&& self matches Inference::Classification(classes)
                &&& classes@ == classes_of_wire(cs.classes@)
            },
            InferenceType::ImageToImage => {
                &&& w.image matches Some(img)
                &&& self == Inference::B64Image(B64Image::of_wire(img))
            },
            InferenceType::TextToText => {
                &&& w.text matches Some(text)
                &&& self == Inference::Text(text)
            },
        }
    }

    /// Whether an answer `w` to a task of type `ty` holds the part that the
    /// type calls for.
    pub open spec fn readable(ty: InferenceType, w: rpc::Inference) -> bool {
        match ty {
            InferenceType::ImageClassification { .. } => w.classification is Some,
            InferenceType::ImageToImage => w.image is Some,
            InferenceType::TextToText => w.text is Some,
        }
    }

    /// Writes the result to the wire, with the time that the model took.
    pub fn into_rpc(self, duration: u32) -> (w: rpc::Inference)
        ensures
            self.carried_by(duration, w),
    {
        match self {
            Inference::Text(text) => rpc::Inference {
                text: Some(text),
                image: None,
                classification: None,
                duration,
            },
            Inference::Classification(classes) => rpc::Inference {
                text: None,
                image: None,
                classification: Some(classes_into_rpc(classes)),
                duration,
            },
            Inference::B64Image(img) => rpc::Inference {
                text: None,
                image: Some(img.into_rpc()),
                classification: None,
                duration,
            },
        }
    }

    /// Reads the result of a task of type `ty` from the worker's answer;
    /// `None` where the answer lacks the part that the type calls for.
    pub fn from_rpc(ty: InferenceType, w: rpc::Inference) -> (r: Option<TimedInference>)
        ensures
            match r {
                Some(timed) => timed.inference.read_from(ty, w) && timed.duration == w.duration,
                None => !Inference::readable(ty, w),
            },
    {
        let duration = w.duration;
        match ty {
            InferenceType::ImageClassification { .. } => match w.classification {
                Some(cs) => Some(
                    TimedInference {
                        inference: Inference::Classification(classes_from_rpc(cs)),
                        duration,
                    },
                ),
                None => None,
            },
            InferenceType::ImageToImage => match w.image {
                Some(img) => Some(
                    TimedInference {
                        inference: Inference::B64Image(B64Image::from_rpc(img)),
                        duration,
                    },
                ),
                None => None,
            },
            InferenceType::TextToText => match w.text {
                Some(text) => Some(TimedInference { inference: Inference::Text(text), duration }),
                None => None,
            },
        }
    }
}

} // verus!
