use autodep::error::InputFault;
use autodep::rpc;
use autodep::task::{B64Image, Inference, InferenceTask, InferenceType, InputData};
use autodep::worker::{Worker, WorkerStatus};

#[test]
fn new_worker_has_served_nothing() {
    let w = Worker::new("model", 9001);
    assert_eq!(w.get_stats(), rpc::Stats { reqs_served: 0 });
    assert_eq!(w.port(), 9001);
    assert_eq!(*w.model(), "model");
    assert_eq!(w.address(), "[::1]:9001");
}

#[test]
fn worker_counts_the_requests_that_gave_a_result() {
    let mut w = Worker::new((), 9001);
    let answer = w.compute_inference(Ok(Inference::Text("a".to_string())), 3).unwrap();
    assert_eq!(
        answer,
        rpc::Inference { text: Some("a".to_string()), image: None, classification: None, duration: 3 }
    );
    assert_eq!(w.get_stats().reqs_served, 1);
    let refused = w.compute_inference(Err("model failed".to_string()), 0);
    assert_eq!(
        refused,
        Err(rpc::Status { code: rpc::STATUS_FAILED_PRECONDITION, message: "model failed".to_string() })
    );
    assert_eq!(w.get_stats().reqs_served, 1);
    w.compute_inference(Ok(Inference::Text("b".to_string())), 0).unwrap();
    w.compute_inference(Ok(Inference::Text("c".to_string())), 0).unwrap();
    assert_eq!(w.get_stats().reqs_served, 3);
}

#[test]
fn worker_reads_the_task_or_refuses_the_request() {
    let w = Worker::new((), 9001);
    let task = InferenceTask {
        data: InputData::B64Image(B64Image { image: "AA==".to_string(), height: None, width: None }),
        inference_type: InferenceType::ImageClassification { top_n: 2 },
    };
    assert_eq!(w.read_task(task.clone().into_rpc().unwrap()), Ok(task));
    let empty = rpc::InferenceTask { inference_type: None, image: None, text: None };
    assert_eq!(
        w.read_task(empty),
        Err(rpc::Status {
            code: rpc::STATUS_INVALID_ARGUMENT,
            message: InputFault::MissingType.message()
        })
    );
    assert_eq!(w.get_stats().reqs_served, 0);
}

#[test]
fn status_codes_of_the_worker() {
    assert_eq!(rpc::STATUS_INVALID_ARGUMENT, 3);
    assert_eq!(rpc::STATUS_FAILED_PRECONDITION, 9);
}

#[test]
fn statuses_have_their_names() {
    assert_eq!(WorkerStatus::Working.name(), "Working");
    assert_eq!(WorkerStatus::Idle.name(), "Idle");
    assert_eq!(WorkerStatus::ShuttingDown.name(), "ShuttingDown");
    assert_eq!(WorkerStatus::Error.name(), "Error");
}

#[test]
fn only_idle_workers_are_dispatchable() {
    assert!(WorkerStatus::Idle.is_dispatchable());
    assert!(!WorkerStatus::Working.is_dispatchable());
    assert!(!WorkerStatus::ShuttingDown.is_dispatchable());
    assert!(!WorkerStatus::Error.is_dispatchable());
}
