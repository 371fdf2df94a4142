use autodep::error::{InputFault, ManagerError, TaskKind};
use autodep::rpc;
use autodep::task::{
    classes_from_rpc, classes_into_rpc, B64Image, Class, Image, Inference, InferenceTask,
    InferenceType, InputData, Job, TimedInference,
};
use autodep::transcode::can_encode;

fn b64(text: &str) -> B64Image {
    B64Image { image: text.to_string(), height: Some(2), width: Some(3) }
}

#[test]
fn image_is_written_in_standard_base64() {
    let img = Image { image: b"hello".to_vec(), height: Some(1), width: None };
    let b = img.into_b64();
    assert_eq!(b.image, "aGVsbG8=");
    assert_eq!(b.height, Some(1));
    assert_eq!(b.width, None);
    let empty = Image { image: vec![], height: None, width: None }.into_b64();
    assert_eq!(empty.image, "");
    let high = Image { image: vec![0xfb, 0xff], height: None, width: None }.into_b64();
    assert_eq!(high.image, "+/8=");
}

#[test]
fn base64_image_is_read_back() {
    let img = b64("aGVsbG8=").into_image();
    assert_eq!(img.image, b"hello".to_vec());
    assert_eq!(img.height, Some(2));
    assert_eq!(img.width, Some(3));
    assert_eq!(b64("aGVsbG8=").try_into_image().unwrap().image, b"hello".to_vec());
}

#[test]
fn malformed_base64_gives_an_empty_image_or_a_fault() {
    assert_eq!(b64("not base64!").into_image().image, Vec::<u8>::new());
    assert_eq!(b64("not base64!").try_into_image(), Err(InputFault::MalformedImage));
    assert_eq!(b64("aGVsbG8").try_into_image(), Err(InputFault::MalformedImage));
}

#[test]
fn image_survives_base64_both_ways() {
    let bytes: Vec<u8> = (0..=255u8).collect();
    let there = Image { image: bytes.clone(), height: Some(16), width: Some(16) }.into_b64();
    assert_eq!(there.image.len(), 344);
    let back = there.into_image();
    assert_eq!(back, Image { image: bytes, height: Some(16), width: Some(16) });
}

#[test]
fn encodable_lengths() {
    assert!(can_encode(0));
    assert!(can_encode(1 << 20));
    assert!(can_encode(usize::MAX / 4 * 3));
    assert!(!can_encode(usize::MAX / 4 * 3 + 1));
    assert!(!can_encode(usize::MAX));
}

#[test]
fn input_from_image_bytes_has_no_size() {
    match InputData::from_image_bytes(b"hello".to_vec()) {
        InputData::B64Image(b) => {
            assert_eq!(b.image, "aGVsbG8=");
            assert_eq!(b.height, None);
            assert_eq!(b.width, None);
        }
        other => panic!("unexpected {:?}", other),
    }
}

#[test]
fn classification_task_is_written_to_the_wire() {
    let task = InferenceTask {
        data: InputData::from_image_bytes(vec![0x89, b'P', b'N', b'G']),
        inference_type: InferenceType::ImageClassification { top_n: 3 },
    };
    let wire = task.into_rpc().unwrap();
    assert_eq!(
        wire,
        rpc::InferenceTask {
            inference_type: Some(rpc::InferenceType { kind: 0, top_n: Some(3) }),
            image: Some(rpc::B64Image { image: "iVBORw==".to_string(), height: None, width: None }),
            text: None,
        }
    );
}

#[test]
fn task_types_have_their_numbers() {
    assert_eq!(rpc::IMAGE_CLASSIFICATION, 0);
    assert_eq!(rpc::IMAGE_TO_IMAGE, 1);
    assert_eq!(rpc::TEXT_TO_TEXT, 2);
    assert_eq!(
        InferenceType::ImageClassification { top_n: 5 }.into_rpc(),
        rpc::InferenceType { kind: 0, top_n: Some(5) }
    );
    assert_eq!(InferenceType::ImageToImage.into_rpc(), rpc::InferenceType { kind: 1, top_n: None });
    assert_eq!(InferenceType::TextToText.into_rpc(), rpc::InferenceType { kind: 2, top_n: None });
}

#[test]
fn accepted_tasks_survive_the_wire() {
    let tasks = vec![
        InferenceTask {
            data: InputData::B64Image(b64("aGVsbG8=")),
            inference_type: InferenceType::ImageClassification { top_n: 3 },
        },
        InferenceTask {
            data: InputData::B64Image(b64("")),
            inference_type: InferenceType::ImageClassification { top_n: 65535 },
        },
        InferenceTask {
            data: InputData::B64Image(B64Image { image: "AA==".to_string(), height: None, width: None }),
            inference_type: InferenceType::ImageToImage,
        },
        InferenceTask {
            data: InputData::Text("translate me".to_string()),
            inference_type: InferenceType::TextToText,
        },
    ];
    for task in tasks {
        assert_eq!(task.validate(), Ok(()));
        let wire = task.clone().into_rpc().unwrap();
        assert_eq!(InferenceTask::from_rpc(wire), Ok(task));
    }
}

#[test]
fn task_with_the_wrong_payload_is_invalid() {
    let no_image = InferenceTask {
        data: InputData::Text("cat".to_string()),
        inference_type: InferenceType::ImageClassification { top_n: 3 },
    };
    assert_eq!(
        no_image.validate(),
        Err(InputFault::WrongPayload(TaskKind::ImageClassification))
    );
    assert_eq!(
        no_image.into_rpc(),
        Err(InputFault::WrongPayload(TaskKind::ImageClassification))
    );
    let no_image = InferenceTask {
        data: InputData::Text("cat".to_string()),
        inference_type: InferenceType::ImageToImage,
    };
    assert_eq!(no_image.validate(), Err(InputFault::WrongPayload(TaskKind::ImageToImage)));
    assert_eq!(no_image.into_rpc(), Err(InputFault::WrongPayload(TaskKind::ImageToImage)));
    let no_text = InferenceTask {
        data: InputData::B64Image(b64("AA==")),
        inference_type: InferenceType::TextToText,
    };
    assert_eq!(no_text.validate(), Err(InputFault::WrongPayload(TaskKind::TextToText)));
    assert_eq!(no_text.into_rpc(), Err(InputFault::WrongPayload(TaskKind::TextToText)));
}

fn wire_task(kind: Option<(i32, Option<u32>)>, image: bool, text: bool) -> rpc::InferenceTask {
    rpc::InferenceTask {
        inference_type: kind.map(|(kind, top_n)| rpc::InferenceType { kind, top_n }),
        image: if image {
            Some(rpc::B64Image { image: "AA==".to_string(), height: None, width: Some(1) })
        } else {
            None
        },
        text: if text { Some("hi".to_string()) } else { None },
    }
}

#[test]
fn message_that_lacks_a_part_is_refused() {
    assert_eq!(InferenceTask::from_rpc(wire_task(None, true, true)), Err(InputFault::MissingType));
    assert_eq!(
        InferenceTask::from_rpc(wire_task(Some((0, Some(1))), false, true)),
        Err(InputFault::MissingPayload(TaskKind::ImageClassification))
    );
    assert_eq!(
        InferenceTask::from_rpc(wire_task(Some((0, None)), true, false)),
        Err(InputFault::MissingTopN)
    );
    assert_eq!(
        InferenceTask::from_rpc(wire_task(Some((0, None)), false, false)),
        Err(InputFault::MissingPayload(TaskKind::ImageClassification))
    );
    assert_eq!(
        InferenceTask::from_rpc(wire_task(Some((1, None)), false, true)),
        Err(InputFault::MissingPayload(TaskKind::ImageToImage))
    );
    assert_eq!(
        InferenceTask::from_rpc(wire_task(Some((2, None)), true, false)),
        Err(InputFault::MissingPayload(TaskKind::TextToText))
    );
    assert_eq!(
        InferenceTask::from_rpc(wire_task(Some((3, None)), true, true)),
        Err(InputFault::UnknownType)
    );
    assert_eq!(
        InferenceTask::from_rpc(wire_task(Some((-1, None)), true, true)),
        Err(InputFault::UnknownType)
    );
}

#[test]
fn message_is_read_by_its_type() {
    let read = InferenceTask::from_rpc(wire_task(Some((1, Some(9))), true, true)).unwrap();
    assert_eq!(read.inference_type, InferenceType::ImageToImage);
    assert_eq!(
        read.data,
        InputData::B64Image(B64Image { image: "AA==".to_string(), height: None, width: Some(1) })
    );
    let read = InferenceTask::from_rpc(wire_task(Some((2, None)), true, true)).unwrap();
    assert_eq!(read.data, InputData::Text("hi".to_string()));
}

#[test]
fn number_of_classes_is_cut_to_sixteen_bits() {
    let read = InferenceTask::from_rpc(wire_task(Some((0, Some(65536 + 7))), true, false)).unwrap();
    assert_eq!(read.inference_type, InferenceType::ImageClassification { top_n: 7 });
    let read = InferenceTask::from_rpc(wire_task(Some((0, Some(65535))), true, false)).unwrap();
    assert_eq!(read.inference_type, InferenceType::ImageClassification { top_n: 65535 });
}

#[test]
fn classes_cross_the_wire_in_order() {
    let classes = vec![
        Class { probability: Some(0x3fe0000000000000), label: Some("tabby".to_string()) },
        Class { probability: None, label: None },
        Class { probability: Some(0), label: Some("".to_string()) },
    ];
    let wire = classes_into_rpc(classes.clone());
    assert_eq!(wire.classes.len(), 3);
    assert_eq!(wire.classes[0].probability, Some(0x3fe0000000000000));
    assert_eq!(wire.classes[0].label, Some("tabby".to_string()));
    assert_eq!(wire.classes[1], rpc::Class { probability: None, label: None });
    assert_eq!(classes_from_rpc(wire), classes);
    assert!(classes_into_rpc(vec![]).classes.is_empty());
}

#[test]
fn results_are_written_to_the_wire() {
    assert_eq!(
        Inference::Text("hi".to_string()).into_rpc(5),
        rpc::Inference { text: Some("hi".to_string()), image: None, classification: None, duration: 5 }
    );
    assert_eq!(
        Inference::B64Image(b64("AA==")).into_rpc(6),
        rpc::Inference {
            text: None,
            image: Some(rpc::B64Image { image: "AA==".to_string(), height: Some(2), width: Some(3) }),
            classification: None,
            duration: 6,
        }
    );
    assert_eq!(
        Inference::Classification(vec![Class { probability: Some(1), label: None }]).into_rpc(7),
        rpc::Inference {
            text: None,
            image: None,
            classification: Some(rpc::Classes {
                classes: vec![rpc::Class { probability: Some(1), label: None }]
            }),
            duration: 7,
        }
    );
}

#[test]
fn results_are_read_by_the_type_of_the_task() {
    let all = rpc::Inference {
        text: Some("t".to_string()),
        image: Some(rpc::B64Image { image: "AA==".to_string(), height: Some(4), width: Some(5) }),
        classification: Some(rpc::Classes { classes: vec![] }),
        duration: 9,
    };
    assert_eq!(
        Inference::from_rpc(InferenceType::TextToText, all.clone()),
        Some(TimedInference { inference: Inference::Text("t".to_string()), duration: 9 })
    );
    assert_eq!(
        Inference::from_rpc(InferenceType::ImageToImage, all.clone()),
        Some(TimedInference {
            inference: Inference::B64Image(B64Image {
                image: "AA==".to_string(),
                height: Some(4),
                width: Some(5)
            }),
            duration: 9
        })
    );
    assert_eq!(
        Inference::from_rpc(InferenceType::ImageClassification { top_n: 1 }, all),
        Some(TimedInference { inference: Inference::Classification(vec![]), duration: 9 })
    );
    let none = rpc::Inference { text: None, image: None, classification: None, duration: 0 };
    assert_eq!(Inference::from_rpc(InferenceType::TextToText, none.clone()), None);
    assert_eq!(Inference::from_rpc(InferenceType::ImageToImage, none.clone()), None);
    assert_eq!(Inference::from_rpc(InferenceType::ImageClassification { top_n: 1 }, none), None);
}

#[test]
fn task_tells_the_model_what_to_do() {
    let classify = InferenceTask {
        data: InputData::B64Image(b64("aGVsbG8=")),
        inference_type: InferenceType::ImageClassification { top_n: 4 },
    };
    assert_eq!(
        classify.into_job(),
        Ok(Job::Classify {
            image: Image { image: b"hello".to_vec(), height: Some(2), width: Some(3) },
            top_n: 4
        })
    );
    let transform = InferenceTask {
        data: InputData::B64Image(b64("???")),
        inference_type: InferenceType::ImageToImage,
    };
    assert_eq!(
        transform.into_job(),
        Ok(Job::Transform { image: Image { image: vec![], height: Some(2), width: Some(3) } })
    );
}

#[test]
fn task_that_the_model_cannot_run_fails() {
    let text = InferenceTask {
        data: InputData::Text("hi".to_string()),
        inference_type: InferenceType::TextToText,
    };
    assert_eq!(
        text.into_job(),
        Err(ManagerError::InferenceFailure(
            "that inference type is not currently supported".to_string()
        ))
    );
    let no_image = InferenceTask {
        data: InputData::Text("hi".to_string()),
        inference_type: InferenceType::ImageToImage,
    };
    let failed = no_image.into_job().unwrap_err();
    assert_eq!(failed, ManagerError::InvalidInput(InputFault::WrongPayload(TaskKind::ImageToImage)));
    assert_eq!(failed.message(), "invalid input type for ImageToImage inference");
    let no_image = InferenceTask {
        data: InputData::Text("hi".to_string()),
        inference_type: InferenceType::ImageClassification { top_n: 3 },
    };
    let failed = no_image.into_job().unwrap_err();
    assert_eq!(
        failed,
        ManagerError::InvalidInput(InputFault::WrongPayload(TaskKind::ImageClassification))
    );
    assert_eq!(failed.message(), "invalid input type for ImageClassification inference");
}

#[test]
fn image_result_keeps_its_size_on_the_wire() {
    let result = Inference::B64Image(B64Image {
        image: "aGk=".to_string(),
        height: Some(2),
        width: Some(3),
    });
    let wire = result.clone().into_rpc(0);
    assert_eq!(wire.text, None);
    assert_eq!(wire.classification, None);
    assert_eq!(
        wire.image,
        Some(rpc::B64Image { image: "aGk=".to_string(), height: Some(2), width: Some(3) })
    );
    let back = Inference::from_rpc(InferenceType::ImageToImage, wire).unwrap();
    assert_eq!(back.inference, result);
}

#[test]
fn kinds_of_inference() {
    assert_eq!(InferenceType::ImageClassification { top_n: 9 }.kind(), TaskKind::ImageClassification);
    assert_eq!(InferenceType::ImageToImage.kind(), TaskKind::ImageToImage);
    assert_eq!(InferenceType::TextToText.kind(), TaskKind::TextToText);
}
