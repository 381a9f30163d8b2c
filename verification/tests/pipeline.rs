use telemetry_sqs_to_s3::error::{ParseError, SinkError};
use telemetry_sqs_to_s3::message::RawMessage;
use telemetry_sqs_to_s3::outcome::{BatchResult, ItemOutcome, Status};
use telemetry_sqs_to_s3::parser::TelemetryRecord;
use telemetry_sqs_to_s3::processor::BatchProcessor;
use telemetry_sqs_to_s3::sink::{Diagnostics, Recorded, Silent, Sink};

/// A sink that keeps what it is given and fails on the calls it is told to.
struct ScriptedSink {
    answers: Vec<Result<(), SinkError>>,
    stored: Vec<serde_json::Map<String, serde_json::Value>>,
    calls: usize,
}

impl ScriptedSink {
    fn always_ok() -> ScriptedSink {
        ScriptedSink { answers: Vec::new(), stored: Vec::new(), calls: 0 }
    }

    fn answering(answers: Vec<Result<(), SinkError>>) -> ScriptedSink {
        ScriptedSink { answers, stored: Vec::new(), calls: 0 }
    }
}

impl Sink for ScriptedSink {
    fn store(&mut self, record: TelemetryRecord) -> Result<(), SinkError> {
        let answer = if self.calls < self.answers.len() {
            self.answers[self.calls].clone()
        } else {
            Ok(())
        };
        self.calls += 1;
        if answer.is_ok() {
            self.stored.push(record.fields);
        }
        answer
    }
}

/// A diagnostics receiver that remembers what it was told.
struct Recorder {
    seen: Vec<ItemOutcome>,
}

impl Diagnostics for Recorder {
    fn emit(&mut self, outcome: &ItemOutcome) {
        self.seen.push(outcome.clone());
    }
}

fn message(id: &str, body: Option<&str>) -> RawMessage {
    RawMessage::new(id.to_string(), body.map(|text| text.to_string()))
}

fn scenario_batch() -> Vec<RawMessage> {
    vec![
        message("a", Some("{\"x\":1}")),
        message("b", None),
        message("c", Some("not-json")),
    ]
}

fn run(sink: ScriptedSink, batch: &Vec<RawMessage>) -> (BatchResult, ScriptedSink) {
    let mut processor = BatchProcessor::new(sink, Silent);
    let result = processor.process(batch);
    (result, processor.sink.into_inner())
}

fn object(members: Vec<(&str, serde_json::Value)>) -> serde_json::Map<String, serde_json::Value> {
    let mut map = serde_json::Map::new();
    for (key, value) in members {
        map.insert(key.to_string(), value);
    }
    map
}

fn ids(result: &BatchResult) -> Vec<String> {
    result.outcomes.iter().map(|outcome| outcome.id.clone()).collect()
}

#[test]
fn test_event_handler() {
    let (result, sink) = run(ScriptedSink::always_ok(), &Vec::new());
    assert_eq!(result.outcomes.len(), 0);
    assert_eq!(result.failed_ids(), Vec::<String>::new());
    assert!(result.all_succeeded());
    assert_eq!(sink.calls, 0);
}

#[test]
fn scenario_sink_always_succeeds() {
    let (result, sink) = run(ScriptedSink::always_ok(), &scenario_batch());
    assert_eq!(result.outcomes.len(), 3);
    assert_eq!(
        result.outcomes[0],
        ItemOutcome { id: "a".to_string(), status: Status::Success, detail: None }
    );
    assert_eq!(
        result.outcomes[1],
        ItemOutcome {
            id: "b".to_string(),
            status: Status::ParseFailure(ParseError::Missing),
            detail: Some("message body is missing".to_string()),
        }
    );
    assert_eq!(
        result.outcomes[2],
        ItemOutcome {
            id: "c".to_string(),
            status: Status::ParseFailure(ParseError::Malformed(
                "expected ident at line 1 column 2".to_string()
            )),
            detail: Some("expected ident at line 1 column 2".to_string()),
        }
    );
    assert_eq!(result.failed_ids(), vec!["b".to_string(), "c".to_string()]);
    assert!(!result.all_succeeded());
    assert_eq!(sink.calls, 1);
    assert_eq!(sink.stored, vec![object(vec![("x", serde_json::Value::from(1))])]);
}

#[test]
fn array_body_is_not_stored_next_to_an_empty_object() {
    let batch = vec![message("k", Some("[1]")), message("o", Some("{}"))];
    let (result, sink) = run(ScriptedSink::always_ok(), &batch);
    assert_eq!(result.outcomes.len(), 2);
    assert_eq!(result.outcomes[0].id, "k");
    assert!(matches!(
        result.outcomes[0].status,
        Status::ParseFailure(ParseError::Malformed(_))
    ));
    assert_eq!(
        result.outcomes[1],
        ItemOutcome { id: "o".to_string(), status: Status::Success, detail: None }
    );
    assert_eq!(sink.calls, 1);
    assert_eq!(sink.stored, vec![object(vec![])]);
}

#[test]
fn records_reach_the_sink_in_batch_order() {
    let batch = vec![
        message("1", Some("{\"n\":1}")),
        message("2", Some("nope")),
        message("3", Some("{\"n\":3}")),
        message("4", None),
        message("5", Some("{\"n\":5}")),
    ];
    let (result, sink) = run(ScriptedSink::always_ok(), &batch);
    assert_eq!(sink.calls, 3);
    assert_eq!(
        sink.stored,
        vec![
            object(vec![("n", serde_json::Value::from(1))]),
            object(vec![("n", serde_json::Value::from(3))]),
            object(vec![("n", serde_json::Value::from(5))]),
        ]
    );
    assert_eq!(result.failed_ids(), vec!["2".to_string(), "4".to_string()]);
}

#[test]
fn recorded_sink_passes_records_and_answers_through() {
    let sink = ScriptedSink::answering(vec![Ok(()), Err(SinkError::Timeout)]);
    let mut recorded = Recorded::new(sink);
    let first = TelemetryRecord { fields: object(vec![("a", serde_json::Value::from(true))]) };
    let second = TelemetryRecord { fields: object(vec![("b", serde_json::Value::Null)]) };
    assert_eq!(recorded.store(first), Ok(()));
    assert_eq!(recorded.get().calls, 1);
    assert_eq!(recorded.store(second), Err(SinkError::Timeout));
    let sink = recorded.into_inner();
    assert_eq!(sink.calls, 2);
    assert_eq!(sink.stored, vec![object(vec![("a", serde_json::Value::from(true))])]);
}

#[test]
fn scenario_sink_fails_for_first_message() {
    let sink = ScriptedSink::answering(vec![Err(SinkError::Unavailable)]);
    let (result, sink) = run(sink, &scenario_batch());
    assert_eq!(result.outcomes.len(), 3);
    assert_eq!(
        result.outcomes[0],
        ItemOutcome {
            id: "a".to_string(),
            status: Status::SinkFailure(SinkError::Unavailable),
            detail: Some("sink is unavailable".to_string()),
        }
    );
    assert_eq!(result.outcomes[1].status, Status::ParseFailure(ParseError::Missing));
    assert!(matches!(
        result.outcomes[2].status,
        Status::ParseFailure(ParseError::Malformed(_))
    ));
    assert_eq!(
        result.failed_ids(),
        vec!["a".to_string(), "b".to_string(), "c".to_string()]
    );
    assert_eq!(sink.calls, 1);
    assert_eq!(sink.stored.len(), 0);
}

#[test]
fn one_outcome_per_message_in_batch_order() {
    let batch = vec![
        message("m1", Some("{}")),
        message("m2", Some("[]")),
        message("m3", None),
        message("m4", Some("{\"k\":\"v\"}")),
    ];
    let (result, _) = run(ScriptedSink::always_ok(), &batch);
    assert_eq!(result.outcomes.len(), batch.len());
    assert_eq!(
        ids(&result),
        vec!["m1".to_string(), "m2".to_string(), "m3".to_string(), "m4".to_string()]
    );
}

#[test]
fn repeated_identifiers_are_reported_as_often_as_they_came() {
    let batch = vec![message("same", Some("{}")), message("same", None)];
    let (result, _) = run(ScriptedSink::always_ok(), &batch);
    assert_eq!(ids(&result), vec!["same".to_string(), "same".to_string()]);
    assert_eq!(result.outcomes[0].status, Status::Success);
    assert_eq!(result.outcomes[1].status, Status::ParseFailure(ParseError::Missing));
    assert_eq!(result.failed_ids(), vec!["same".to_string()]);
}

#[test]
fn missing_body_is_a_parse_failure_among_any_siblings() {
    let alone = vec![message("x", None)];
    let (result, sink) = run(ScriptedSink::always_ok(), &alone);
    assert_eq!(result.outcomes[0].status, Status::ParseFailure(ParseError::Missing));
    assert_eq!(sink.calls, 0);

    let among = vec![
        message("p", Some("{\"a\":[1,2,3]}")),
        message("x", None),
        message("q", Some("{broken")),
    ];
    let sink = ScriptedSink::answering(vec![Err(SinkError::Timeout)]);
    let (result, _) = run(sink, &among);
    assert_eq!(
        result.outcomes[1],
        ItemOutcome {
            id: "x".to_string(),
            status: Status::ParseFailure(ParseError::Missing),
            detail: Some("message body is missing".to_string()),
        }
    );
}

#[test]
fn decoded_message_succeeds_exactly_when_the_sink_does() {
    let batch = vec![message("ok", Some("{\"x\":1}")), message("ko", Some("{\"x\":2}"))];
    let sink = ScriptedSink::answering(vec![
        Ok(()),
        Err(SinkError::Rejected("quota exceeded".to_string())),
    ]);
    let (result, sink) = run(sink, &batch);
    assert_eq!(
        result.outcomes[0],
        ItemOutcome { id: "ok".to_string(), status: Status::Success, detail: None }
    );
    assert_eq!(
        result.outcomes[1],
        ItemOutcome {
            id: "ko".to_string(),
            status: Status::SinkFailure(SinkError::Rejected("quota exceeded".to_string())),
            detail: Some("quota exceeded".to_string()),
        }
    );
    // One store per decoded message, none repeated.
    assert_eq!(sink.calls, 2);
    assert_eq!(sink.stored, vec![object(vec![("x", serde_json::Value::from(1))])]);
}

#[test]
fn sink_timeout_is_a_sink_failure() {
    let batch = vec![message("slow", Some("{}")), message("fast", Some("{}"))];
    let sink = ScriptedSink::answering(vec![Err(SinkError::Timeout), Ok(())]);
    let (result, _) = run(sink, &batch);
    assert_eq!(
        result.outcomes[0],
        ItemOutcome {
            id: "slow".to_string(),
            status: Status::SinkFailure(SinkError::Timeout),
            detail: Some("sink timed out".to_string()),
        }
    );
    assert_eq!(result.outcomes[1].status, Status::Success);
    assert_eq!(result.failed_ids(), vec!["slow".to_string()]);
}

#[test]
fn malformed_body_has_a_diagnostic() {
    let batch = vec![message("bad", Some("{not json"))];
    let (result, sink) = run(ScriptedSink::always_ok(), &batch);
    let outcome = &result.outcomes[0];
    assert!(matches!(outcome.status, Status::ParseFailure(ParseError::Malformed(_))));
    let detail = outcome.detail.clone().expect("a malformed body has a detail");
    assert!(!detail.is_empty());
    assert_eq!(detail, "key must be a string at line 1 column 2");
    assert_eq!(outcome.status, Status::ParseFailure(ParseError::Malformed(detail)));
    assert_eq!(sink.calls, 0);
}

fn five(third_body: Option<&str>) -> Vec<RawMessage> {
    vec![
        message("1", Some("{\"n\":1}")),
        message("2", None),
        message("3", third_body),
        message("4", Some("{\"n\":4}")),
        message("5", Some("[4]")),
    ]
}

#[test]
fn poisoned_message_leaves_its_siblings_alone() {
    let (clean, clean_sink) = run(ScriptedSink::always_ok(), &five(Some("{\"n\":3}")));
    let (poisoned, poisoned_sink) = run(ScriptedSink::always_ok(), &five(Some("{not json")));
    for i in [0usize, 1, 3, 4] {
        assert_eq!(clean.outcomes[i], poisoned.outcomes[i]);
    }
    assert_eq!(clean.outcomes[2].status, Status::Success);
    assert!(matches!(
        poisoned.outcomes[2].status,
        Status::ParseFailure(ParseError::Malformed(_))
    ));
    assert_eq!(poisoned.outcomes[3].status, Status::Success);
    assert_eq!(clean_sink.calls, 3);
    assert_eq!(poisoned_sink.calls, 2);
    assert_eq!(
        poisoned.failed_ids(),
        vec!["2".to_string(), "3".to_string(), "5".to_string()]
    );
}

#[test]
fn a_failing_store_does_not_stop_the_batch() {
    let batch = five(Some("{\"n\":3}"));
    let sink = ScriptedSink::answering(vec![Err(SinkError::Unavailable)]);
    let (result, sink) = run(sink, &batch);
    assert_eq!(result.outcomes[0].status, Status::SinkFailure(SinkError::Unavailable));
    assert_eq!(result.outcomes[2].status, Status::Success);
    assert_eq!(result.outcomes[3].status, Status::Success);
    assert_eq!(sink.calls, 3);
    assert_eq!(sink.stored.len(), 2);
}

#[test]
fn processing_twice_repeats_the_parse_outcomes() {
    let batch = scenario_batch();
    let (first, _) = run(ScriptedSink::always_ok(), &batch);
    let (second, _) = run(ScriptedSink::answering(vec![Err(SinkError::Timeout)]), &batch);
    assert_eq!(first.outcomes[1], second.outcomes[1]);
    assert_eq!(first.outcomes[2], second.outcomes[2]);
    assert_eq!(first.outcomes[0].status, Status::Success);
    assert_eq!(second.outcomes[0].status, Status::SinkFailure(SinkError::Timeout));

    let (third, _) = run(ScriptedSink::always_ok(), &batch);
    assert_eq!(first, third);
}

#[test]
fn process_message_reports_to_diagnostics() {
    let mut processor = BatchProcessor::new(ScriptedSink::always_ok(), Recorder { seen: Vec::new() });
    let result = processor.process(&scenario_batch());
    assert_eq!(processor.diagnostics.seen, result.outcomes);

    let outcome = processor.process_message(&message("d", Some("{}")));
    assert_eq!(outcome, ItemOutcome { id: "d".to_string(), status: Status::Success, detail: None });
    assert_eq!(processor.diagnostics.seen.len(), 4);
    assert_eq!(processor.diagnostics.seen[3], outcome);
    assert_eq!(processor.sink.get().calls, 2);
}

#[test]
fn all_succeeded_only_without_failures() {
    let good = vec![message("1", Some("{}")), message("2", Some(" { \"a\" : null } "))];
    let (result, _) = run(ScriptedSink::always_ok(), &good);
    assert!(result.all_succeeded());
    assert_eq!(result.failed_ids(), Vec::<String>::new());

    let (result, _) = run(ScriptedSink::answering(vec![Ok(()), Err(SinkError::Timeout)]), &good);
    assert!(!result.all_succeeded());
    assert_eq!(result.failed_ids(), vec!["2".to_string()]);
}
