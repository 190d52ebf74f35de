use ocr_core::dispatch::{deliver_all, process_batch, submit, JobUnit};
use ocr_core::event::{error_message, event_for, OCREvent, TranscriptionOutcome};
use ocr_core::sink::EventSink;

fn drain(sink: &mut EventSink) -> Vec<OCREvent> {
    let mut out = Vec::new();
    while let Some(e) = sink.recv() {
        out.push(e);
    }
    out
}

#[test]
fn success_event_mapping() {
    let path = String::from("a.png");
    let outcome = TranscriptionOutcome::Text(String::from("HELLO"));
    let event = event_for(&path, &outcome);
    match event {
        OCREvent::Success { path, ocr_text } => {
            assert_eq!(path, "a.png");
            assert_eq!(ocr_text, "HELLO");
        }
        OCREvent::Error { .. } => panic!("recognized text must map to a success event"),
    }
}

#[test]
fn failure_event_mapping_message() {
    let path = String::from("b.png");
    let outcome = TranscriptionOutcome::Failure(String::from("corrupt image"));
    let event = event_for(&path, &outcome);
    match event {
        OCREvent::Error { path, message } => {
            assert_eq!(path, "b.png");
            assert_eq!(message, "transcription failed for b.png: corrupt image");
            assert!(message.contains("corrupt image"));
        }
        OCREvent::Success { .. } => panic!("a failure must map to an error event"),
    }
}

#[test]
fn error_message_exact() {
    let msg = error_message("x.png", "decode error");
    assert_eq!(msg, "transcription failed for x.png: decode error");
}

#[test]
fn mapping_is_deterministic() {
    let path = String::from("p.png");
    let ok = TranscriptionOutcome::Text(String::from("same text"));
    let bad = TranscriptionOutcome::Failure(String::from("same reason"));
    for outcome in [ok, bad] {
        let first = event_for(&path, &outcome);
        let second = event_for(&path, &outcome);
        match (first, second) {
            (
                OCREvent::Success { path: p1, ocr_text: t1 },
                OCREvent::Success { path: p2, ocr_text: t2 },
            ) => {
                assert_eq!(p1, p2);
                assert_eq!(t1, t2);
            }
            (
                OCREvent::Error { path: p1, message: m1 },
                OCREvent::Error { path: p2, message: m2 },
            ) => {
                assert_eq!(p1, p2);
                assert_eq!(m1, m2);
            }
            _ => panic!("the same outcome must map to the same event variant"),
        }
    }
}

#[test]
fn scenario_two_paths() {
    let paths = vec![String::from("a.png"), String::from("b.png")];
    let outcomes = vec![
        TranscriptionOutcome::Text(String::from("HELLO")),
        TranscriptionOutcome::Failure(String::from("corrupt image")),
    ];
    // The slow good file finishes last: b.png's event arrives first.
    let order = vec![1usize, 0usize];
    let mut sink = EventSink::new();
    process_batch(&paths, &outcomes, &order, &mut sink);
    let events = drain(&mut sink);
    assert_eq!(events.len(), 2);

    let mut saw_success = false;
    let mut saw_error = false;
    for event in events {
        match event {
            OCREvent::Success { path, ocr_text } => {
                assert_eq!(path, "a.png");
                assert_eq!(ocr_text, "HELLO");
                saw_success = true;
            }
            OCREvent::Error { path, message } => {
                assert_eq!(path, "b.png");
                assert!(message.contains("corrupt image"));
                saw_error = true;
            }
        }
    }
    assert!(saw_success && saw_error);
}

#[test]
fn one_failure_leaves_siblings_intact() {
    let paths = vec![
        String::from("one.png"),
        String::from("two.png"),
        String::from("three.png"),
    ];
    let outcomes = vec![
        TranscriptionOutcome::Text(String::from("first text")),
        TranscriptionOutcome::Failure(String::from("engine fault")),
        TranscriptionOutcome::Text(String::from("third text")),
    ];
    for order in [vec![0usize, 1, 2], vec![2usize, 1, 0], vec![1usize, 2, 0]] {
        let mut sink = EventSink::new();
        process_batch(&paths, &outcomes, &order, &mut sink);
        let events = drain(&mut sink);
        assert_eq!(events.len(), 3);
        for event in events {
            match event {
                OCREvent::Success { path, ocr_text } => {
                    if path == "one.png" {
                        assert_eq!(ocr_text, "first text");
                    } else {
                        assert_eq!(path, "three.png");
                        assert_eq!(ocr_text, "third text");
                    }
                }
                OCREvent::Error { path, message } => {
                    assert_eq!(path, "two.png");
                    assert!(message.contains("engine fault"));
                }
            }
        }
    }
}

#[test]
fn every_path_reported_exactly_once() {
    let paths: Vec<String> = (0..6).map(|i| format!("img-{}.png", i)).collect();
    let outcomes: Vec<TranscriptionOutcome> = (0..6)
        .map(|i| TranscriptionOutcome::Text(format!("text {}", i)))
        .collect();
    let order = vec![3usize, 0, 5, 1, 4, 2];
    let mut sink = EventSink::new();
    process_batch(&paths, &outcomes, &order, &mut sink);
    let events = drain(&mut sink);
    assert_eq!(events.len(), 6);
    for path in &paths {
        let count = events
            .iter()
            .filter(|e| match e {
                OCREvent::Success { path: p, .. } => p == path,
                OCREvent::Error { path: p, .. } => p == path,
            })
            .count();
        assert_eq!(count, 1);
    }
}

#[test]
fn submit_pairs_jobs_with_paths() {
    let paths = vec![String::from("x.png"), String::from("y.png")];
    let jobs = submit(&paths);
    assert_eq!(jobs.len(), 2);
    assert_eq!(jobs[0].path, "x.png");
    assert_eq!(jobs[1].path, "y.png");

    let none: Vec<String> = Vec::new();
    assert_eq!(submit(&none).len(), 0);
}

#[test]
fn deliver_all_in_completion_order() {
    let paths = vec![String::from("p.png"), String::from("q.png")];
    let jobs = submit(&paths);
    let outcomes = vec![
        TranscriptionOutcome::Text(String::from("P")),
        TranscriptionOutcome::Text(String::from("Q")),
    ];
    let order = vec![1usize, 0usize];
    let mut sink = EventSink::new();
    deliver_all(&jobs, &outcomes, &order, &mut sink);
    let events = drain(&mut sink);
    assert_eq!(events.len(), 2);
    assert!(matches!(&events[0], OCREvent::Success { path, .. } if path == "q.png"));
    assert!(matches!(&events[1], OCREvent::Success { path, .. } if path == "p.png"));
}

#[test]
fn sink_is_fifo() {
    let mut sink = EventSink::new();
    let a = event_for(
        &String::from("a.png"),
        &TranscriptionOutcome::Text(String::from("A")),
    );
    let b = event_for(
        &String::from("b.png"),
        &TranscriptionOutcome::Text(String::from("B")),
    );
    assert!(sink.send(a).is_ok());
    assert!(sink.send(b).is_ok());
    assert_eq!(sink.len(), 2);
    assert!(matches!(sink.recv(), Some(OCREvent::Success { path, .. }) if path == "a.png"));
    assert!(matches!(sink.recv(), Some(OCREvent::Success { path, .. }) if path == "b.png"));
    assert!(sink.recv().is_none());
}

#[test]
fn send_after_close_fails_and_keeps_queue() {
    let mut sink = EventSink::new();
    let first = event_for(
        &String::from("kept.png"),
        &TranscriptionOutcome::Text(String::from("kept")),
    );
    assert!(sink.send(first).is_ok());
    sink.close();
    let refused = event_for(
        &String::from("late.png"),
        &TranscriptionOutcome::Text(String::from("late")),
    );
    assert!(sink.send(refused).is_err());
    assert_eq!(sink.len(), 1);
    assert!(matches!(sink.recv(), Some(OCREvent::Success { path, .. }) if path == "kept.png"));
}

#[test]
fn complete_reports_refused_send_as_data() {
    let job = JobUnit {
        path: String::from("solo.png"),
    };
    let outcome = TranscriptionOutcome::Text(String::from("solo text"));

    let mut open_sink = EventSink::new();
    assert!(job.complete(&outcome, &mut open_sink).is_ok());
    assert_eq!(open_sink.len(), 1);
    assert!(
        matches!(open_sink.recv(), Some(OCREvent::Success { path, ocr_text }) if path == "solo.png" && ocr_text == "solo text")
    );

    let mut closed_sink = EventSink::new();
    closed_sink.close();
    assert!(job.complete(&outcome, &mut closed_sink).is_err());
    assert_eq!(closed_sink.len(), 0);
}
