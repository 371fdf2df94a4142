use autodep::config::PoolConfig;
use base64::Engine;
use std::collections::HashMap;
use autodep::error::{InputFault, ManagerError, TaskKind};
use autodep::server::{bind_address, WebError};
use autodep::task::{InferenceTask, InferenceType, InputData};
use autodep::util::{join, library_path, seconds_of, time, to_decimal};

#[test]
fn errors_map_to_their_statuses() {
    assert_eq!(WebError::new(ManagerError::AllBusy).status_code(), 503);
    assert_eq!(WebError::new(ManagerError::CapacityExceeded).status_code(), 503);
    assert_eq!(WebError::new(ManagerError::SpawnTimeout).status_code(), 500);
    assert_eq!(WebError::new(ManagerError::RpcFailure("x".to_string())).status_code(), 500);
    assert_eq!(WebError::new(ManagerError::InferenceFailure("x".to_string())).status_code(), 500);
    assert_eq!(
        WebError::new(ManagerError::InvalidInput(InputFault::WrongPayload(TaskKind::ImageToImage)))
            .status_code(),
        400
    );
}

#[test]
fn errors_have_their_texts() {
    assert_eq!(WebError::new(ManagerError::AllBusy).to_string(), "all workers are busy");
    assert_eq!(
        WebError::new(ManagerError::CapacityExceeded).to_string(),
        "maximum number of workers exceeded. cannot allocate any more"
    );
    assert_eq!(
        WebError::new(ManagerError::SpawnTimeout).to_string(),
        "timeout connecting to new worker process"
    );
    assert_eq!(WebError::new(ManagerError::RpcFailure("gone".to_string())).to_string(), "gone");
    assert_eq!(
        WebError::new(ManagerError::InferenceFailure("bad tensor".to_string())).errors(),
        vec!["bad tensor".to_string()]
    );
    assert_eq!(*WebError::new(ManagerError::AllBusy).error(), ManagerError::AllBusy);
}

#[test]
fn faults_have_their_texts() {
    assert_eq!(InputFault::MissingType.message(), "must provide inference type");
    assert_eq!(InputFault::UnknownType.message(), "unknown inference type");
    assert_eq!(
        InputFault::MissingTopN.message(),
        "must provide top_n for ImageClassification inference"
    );
    assert_eq!(
        InputFault::MissingPayload(TaskKind::ImageClassification).message(),
        "must provide image for ImageClassification inference"
    );
    assert_eq!(
        InputFault::MissingPayload(TaskKind::ImageToImage).message(),
        "must provide image for ImageToImage inference"
    );
    assert_eq!(
        InputFault::MissingPayload(TaskKind::TextToText).message(),
        "must provide text for TextToText inference"
    );
    assert_eq!(
        InputFault::WrongPayload(TaskKind::ImageClassification).message(),
        "invalid input type for ImageClassification inference"
    );
    assert_eq!(
        InputFault::WrongPayload(TaskKind::ImageToImage).message(),
        "invalid input type for ImageToImage inference"
    );
    assert_eq!(
        InputFault::WrongPayload(TaskKind::TextToText).message(),
        "invalid input type for TextToText inference"
    );
    assert_eq!(InputFault::MalformedImage.message(), "image is not valid base 64");
    assert_eq!(
        ManagerError::InvalidInput(InputFault::MalformedImage).message(),
        "image is not valid base 64"
    );
}

#[test]
fn classification_without_an_image_is_a_bad_request() {
    let task = InferenceTask {
        data: InputData::Text(String::new()),
        inference_type: InferenceType::ImageClassification { top_n: 3 },
    };
    let fault = task.validate().unwrap_err();
    let e = WebError::new(ManagerError::InvalidInput(fault));
    assert_eq!(e.status_code(), 400);
    assert_eq!(e.errors(), vec!["invalid input type for ImageClassification inference".to_string()]);
}

#[test]
fn undecodable_image_is_a_bad_request() {
    let err = base64::engine::general_purpose::STANDARD.decode("***").unwrap_err();
    let e = WebError::from_decode_error(err);
    assert_eq!(e.status_code(), 400);
    assert_eq!(*e.error(), ManagerError::InvalidInput(InputFault::MalformedImage));
}

#[test]
fn front_end_listens_on_every_interface() {
    assert_eq!(bind_address(8080), "0.0.0.0:8080");
    assert_eq!(bind_address(0), "0.0.0.0:0");
    assert_eq!(bind_address(65535), "0.0.0.0:65535");
}

#[test]
fn numbers_are_written_in_decimal() {
    assert_eq!(to_decimal(0), "0");
    assert_eq!(to_decimal(9), "9");
    assert_eq!(to_decimal(10), "10");
    assert_eq!(to_decimal(1234567890), "1234567890");
    assert_eq!(to_decimal(u64::MAX), "18446744073709551615");
    for n in [1u64, 99, 100, 101, 65535, 4294967296] {
        assert_eq!(to_decimal(n), n.to_string());
    }
}

#[test]
fn texts_are_joined() {
    assert_eq!(join("ab", "cd"), "abcd");
    assert_eq!(join("", ""), "");
    assert_eq!(library_path("/opt/libtorch/lib", "/usr/lib"), "/opt/libtorch/lib:/usr/lib");
}

#[test]
fn clock_before_the_epoch_counts_as_zero() {
    assert_eq!(seconds_of(None), 0);
    assert_eq!(seconds_of(Some(0)), 0);
    assert_eq!(seconds_of(Some(1700000000)), 1700000000);
    assert_eq!(seconds_of(Some(u64::MAX)), u64::MAX);
}

#[test]
fn clock_reads_after_the_epoch() {
    let a = time();
    let b = time();
    assert!(a > 0);
    assert!(b >= a);
}

#[test]
fn default_policy() {
    let c = PoolConfig::default();
    assert_eq!(c.num_init_workers, 15);
    assert_eq!(c.max_workers, 20);
    assert_eq!(c.worker_timeout, 2000);
    assert!(c.fast_workers);
    assert!(!c.auto_scale);
    assert!(!c.spot_workers);
}

#[test]
fn policy_from_the_numbers_of_a_file() {
    assert_eq!(
        PoolConfig::from_values(2, 4, 2000, false, true, false),
        Some(PoolConfig {
            num_init_workers: 2,
            max_workers: 4,
            worker_timeout: 2000,
            fast_workers: false,
            auto_scale: true,
            spot_workers: false,
        })
    );
    assert_eq!(PoolConfig::from_values(-1, 4, 2000, false, false, false), None);
    assert_eq!(PoolConfig::from_values(65536, 4, 2000, false, false, false), None);
    assert_eq!(PoolConfig::from_values(2, -4, 2000, false, false, false), None);
    assert_eq!(PoolConfig::from_values(2, 4, -1, false, false, false), None);
    assert!(PoolConfig::from_values(65535, 0, 0, true, true, true).is_some());
}

#[test]
fn refusal_body_lists_the_error() {
    let e = WebError::new(ManagerError::AllBusy);
    let body = serde_json::to_string(&HashMap::from([("errors", e.errors())])).unwrap();
    assert_eq!(body, "{\"errors\":[\"all workers are busy\"]}");
    assert!(body.contains("busy"));
}
