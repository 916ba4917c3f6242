use failure_core::adapt::from_panic_payload;
use failure_core::error::{FailureKind, Outcome};

fn decode_report(text: &str) -> Outcome<serde_json::Value> {
    let value = serde_json::from_str(text)?;
    Ok(value)
}

#[test]
fn filesystem_error_yields_wrong_file_preserving_cause() {
    let e = std::io::Error::new(std::io::ErrorKind::NotFound, "missing.rs not found");
    let cause = e.to_string();
    let k = FailureKind::from(e);
    assert!(matches!(k, FailureKind::WrongFile(_)));
    let rendered = k.render();
    assert!(rendered.starts_with("Error while reading Files from project folder"));
    assert!(rendered.contains(&cause));
}

#[test]
fn reading_missing_path_yields_wrong_file() {
    let read_failure = std::io::Error::from(std::io::ErrorKind::NotFound);
    let outcome: Result<Vec<u8>, FailureKind> = Err(FailureKind::from(read_failure));
    let k = outcome.unwrap_err();
    assert!(matches!(k, FailureKind::WrongFile(_)));
    assert!(k
        .render()
        .starts_with("Error while reading Files from project folder"));
}

#[test]
fn strip_prefix_error_yields_strip_prefix_preserving_cause() {
    let e = std::path::Path::new("/alpha/beta")
        .strip_prefix("/gamma")
        .unwrap_err();
    let cause = e.to_string();
    let k = FailureKind::from(e);
    assert!(matches!(k, FailureKind::StripPrefix(_)));
    let rendered = k.render();
    assert!(rendered.starts_with("Error while stripping the prefix"));
    assert!(rendered.contains(&cause));
}

#[test]
fn json_decode_error_yields_wrong_json_file_preserving_cause() {
    let e = serde_json::from_str::<serde_json::Value>("{\"open\": ").unwrap_err();
    let cause = e.to_string();
    let k = FailureKind::from(e);
    assert!(matches!(k, FailureKind::WrongJSONFile(_)));
    let rendered = k.render();
    assert!(rendered.starts_with("Error while reading json"));
    assert!(rendered.contains(&cause));
}

#[test]
fn decoding_garbage_report_yields_wrong_json_file() {
    let outcome = decode_report("{not json");
    let k = outcome.unwrap_err();
    assert!(matches!(k, FailureKind::WrongJSONFile(_)));
    assert!(k.render().starts_with("Error while reading json"));
}

#[test]
fn csv_write_error_yields_writing_preserving_cause() {
    let mut writer = csv::Writer::from_writer(vec![]);
    writer.write_record(&["name", "count"]).unwrap();
    let e = writer
        .write_record(&["one", "two", "three"])
        .unwrap_err();
    let cause = e.to_string();
    let k = FailureKind::from(e);
    assert!(matches!(k, FailureKind::Writing(_)));
    let rendered = k.render();
    assert!(rendered.starts_with("Error while writing on csv"));
    assert!(rendered.contains(&cause));
}

#[test]
fn template_render_error_yields_html_preserving_cause() {
    let env = minijinja::Environment::new();
    let e = env.template_from_str("{{ unclosed").unwrap_err();
    let cause = e.to_string();
    let k = FailureKind::from(e);
    assert!(matches!(k, FailureKind::Html(_)));
    let rendered = k.render();
    assert!(rendered.starts_with("Error while creating HTML file"));
    assert!(rendered.contains(&cause));
}

#[test]
fn poisoned_lock_yields_mutex_for_any_guarded_type() {
    let from_int = FailureKind::from(std::sync::PoisonError::new(7i32));
    assert!(matches!(from_int, FailureKind::Mutex));
    let from_string = FailureKind::from(std::sync::PoisonError::new(String::from("guarded")));
    assert!(matches!(from_string, FailureKind::Mutex));
    let from_vec = FailureKind::from(std::sync::PoisonError::new(vec![1u8, 2, 3]));
    assert!(matches!(from_vec, FailureKind::Mutex));
}

#[test]
fn panic_payload_yields_concurrent_for_any_payload_shape() {
    let from_str_payload = from_panic_payload("worker panicked");
    assert!(matches!(from_str_payload, FailureKind::Concurrent));
    let from_string_payload = from_panic_payload(String::from("worker panicked"));
    assert!(matches!(from_string_payload, FailureKind::Concurrent));
    let from_structured_payload = from_panic_payload((3usize, "context"));
    assert!(matches!(from_structured_payload, FailureKind::Concurrent));
    let boxed: Box<dyn std::any::Any + Send> = Box::new(41u64);
    let from_opaque_payload = from_panic_payload(boxed);
    assert!(matches!(from_opaque_payload, FailureKind::Concurrent));
}

#[test]
fn channel_send_failure_yields_sender_for_any_payload_type() {
    let (tx, rx) = crossbeam::channel::unbounded::<u32>();
    drop(rx);
    let e = tx.send(5).unwrap_err();
    let k = FailureKind::from(e);
    assert!(matches!(k, FailureKind::Sender));

    let (tx, rx) = crossbeam::channel::unbounded::<String>();
    drop(rx);
    let e = tx.send(String::from("job")).unwrap_err();
    let k = FailureKind::from(e);
    assert!(matches!(k, FailureKind::Sender));
}

#[test]
fn decoding_valid_report_succeeds() {
    let outcome = decode_report("{\"coverage\": 81}");
    let value = outcome.unwrap();
    assert_eq!(value["coverage"], serde_json::Value::from(81));
}

#[test]
fn outcome_crosses_channel_boundary_unchanged() {
    let (tx, rx) = crossbeam::channel::unbounded::<Outcome<u64>>();
    let tx_ok = tx.clone();
    let tx_err = tx.clone();
    crossbeam::thread::scope(|s| {
        s.spawn(move |_| {
            tx_ok.send(Ok(42)).unwrap();
        });
        s.spawn(move |_| {
            tx_err.send(Err(FailureKind::Metrics)).unwrap();
        });
    })
    .unwrap();
    drop(tx);

    let mut saw_value = false;
    let mut saw_failure = false;
    for outcome in rx.iter() {
        match outcome {
            Ok(v) => {
                assert_eq!(v, 42);
                saw_value = true;
            }
            Err(k) => {
                assert!(matches!(k, FailureKind::Metrics));
                saw_failure = true;
            }
        }
    }
    assert!(saw_value);
    assert!(saw_failure);
}

#[test]
fn aggregator_observes_both_worker_failures() {
    let (tx, rx) = crossbeam::channel::unbounded::<FailureKind>();
    let tx_metrics = tx.clone();
    let tx_language = tx.clone();
    crossbeam::thread::scope(|s| {
        s.spawn(move |_| {
            tx_metrics.send(FailureKind::Metrics).unwrap();
        });
        s.spawn(move |_| {
            tx_language.send(FailureKind::Language).unwrap();
        });
    })
    .unwrap();
    drop(tx);

    let mut observed = 0u32;
    let mut saw_metrics = false;
    let mut saw_language = false;
    for k in rx.iter() {
        observed += 1;
        if matches!(k, FailureKind::Metrics) {
            saw_metrics = true;
        } else if matches!(k, FailureKind::Language) {
            saw_language = true;
        } else {
            panic!("unexpected failure kind: {}", k.render());
        }
    }
    assert_eq!(observed, 2);
    assert!(saw_metrics);
    assert!(saw_language);
}
