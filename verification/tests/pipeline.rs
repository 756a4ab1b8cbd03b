use img_optimizer::batch::{empty_note, emptiness_of_batch, emptiness_of_text, BatchOutcome};
use img_optimizer::processor::{Action, Event, ProcessingResult, RecordJob};
use img_optimizer::record::Record;
use img_optimizer::scheduler::{Dispatch, Scheduler};
use img_optimizer::value::{FieldValue, Numeral};

const PREFIX: &str = "https://cdn.free2aitools.com";

/// Reads the records of a JSON document the way the program does: strings stay
/// texts, numbers become numerals, lists of strings stay lists, and every other
/// value is kept as its serialized form.
fn field(value: Option<&serde_json::Value>) -> FieldValue {
    match value {
        None | Some(serde_json::Value::Null) => FieldValue::Null,
        Some(serde_json::Value::String(text)) => FieldValue::Text(text.clone()),
        Some(serde_json::Value::Number(number)) => match number.as_f64() {
            Some(float) => match Numeral::parse(&float.to_string()) {
                Some(numeral) => FieldValue::Number(numeral),
                None => FieldValue::Json(number.to_string()),
            },
            None => FieldValue::Json(number.to_string()),
        },
        Some(serde_json::Value::Array(items)) if items.iter().all(|item| item.is_string()) => {
            FieldValue::TextList(
                items.iter().map(|item| item.as_str().unwrap_or("").to_string()).collect(),
            )
        }
        Some(other) => FieldValue::Json(serde_json::to_string(other).unwrap_or_default()),
    }
}

fn records_of(input: &str) -> Vec<Record> {
    let document: serde_json::Value = serde_json::from_str(input).expect("valid JSON");
    let mut records = Vec::new();
    for entry in document.as_array().expect("a list") {
        let text = |key: &str| entry.get(key).and_then(|v| v.as_str()).map(|s| s.to_string());
        let mut record = Record::new(text("id").unwrap_or_default());
        record.author = text("author");
        record.name = text("name");
        record.source = text("source");
        record.likes = entry.get("likes").and_then(|v| v.as_i64());
        record.downloads = entry.get("downloads").and_then(|v| v.as_i64());
        record.tags = field(entry.get("tags"));
        record.description = field(entry.get("description"));
        record.raw_image_url = text("raw_image_url");
        record.extra.velocity_score = field(entry.get("velocity_score"));
        record.extra.meta_json = field(entry.get("meta_json"));
        records.push(record);
    }
    records
}

/// Drives a job to its end with an image host that answers as told.
fn process(record: Record, fetch_succeeds: bool) -> ProcessingResult {
    let mut job = RecordJob::start(record, PREFIX);
    loop {
        let event = match job.pending() {
            Action::SaveDocument { .. } => Event::DocumentSaved,
            Action::FetchImage { .. } => {
                if fetch_succeeds {
                    Event::Response { status: 200, status_text: "200 OK".to_string() }
                } else {
                    Event::NoResponse
                }
            }
            Action::ReadBody => Event::BodyRead,
            Action::ConvertImage { .. } => Event::ImageStored,
            Action::Finish => break,
        };
        job = job.step(event);
    }
    job.into_result().expect("a finished job")
}

fn run(input: &str, fetch_succeeds: impl Fn(usize) -> bool) -> BatchOutcome {
    let mut outcome = BatchOutcome::new("");
    for (index, record) in records_of(input).into_iter().enumerate() {
        outcome.absorb(process(record, fetch_succeeds(index)));
    }
    outcome
}

#[test]
fn one_record_whose_image_fetch_fails() {
    let input = "[{\"id\":\"acme/widget\",\"likes\":5,\"downloads\":10,\"raw_image_url\":\"https://example.org/w.png\"}]";
    let outcome = run(input, |_| false);
    assert_eq!(outcome.total(), 1);
    assert_eq!(outcome.with_image(), 0);
    assert_eq!(outcome.metadata().matches("INSERT OR REPLACE INTO models").count(), 1);
    assert!(outcome.metadata().contains(
        " VALUES ('huggingface-acme-widget', 'huggingface--acme--widget', 'widget', 'acme', '', '[]', 'other', 5, 10, NULL, "
    ));
    assert_eq!(outcome.image_updates().matches("UPDATE models").count(), 0);
    assert!(outcome.image_updates().contains("Network request failed"));
}

#[test]
fn one_record_without_any_image_address() {
    let outcome = run("[{\"id\":\"acme/widget\",\"likes\":5,\"downloads\":10}]", |_| true);
    assert_eq!(outcome.total(), 1);
    assert_eq!(outcome.with_image(), 0);
    assert!(outcome.metadata().contains("'huggingface-acme-widget', 'huggingface--acme--widget'"));
    assert!(outcome.metadata().contains(", 5, 10, NULL, "));
    assert_eq!(outcome.image_updates().matches("UPDATE models").count(), 0);
}

#[test]
fn empty_list_gives_placeholders_and_no_statement() {
    assert_eq!(emptiness_of_text("[]"), None);
    let records = records_of("[]");
    let why = emptiness_of_batch(records.len()).expect("an empty batch");
    let artifact = empty_note(why);
    assert_eq!(artifact, "-- Empty: 0 models in array\n");
    assert!(!artifact.contains("INSERT"));
    assert!(!artifact.contains("UPDATE"));
    assert_eq!(artifact.lines().count(), 1);
    assert!(artifact.starts_with("--"));
}

#[test]
fn blank_input_gives_placeholders_and_no_statement() {
    let why = emptiness_of_text(" \n").expect("a blank input");
    assert_eq!(empty_note(why), "-- Empty: No models in input\n");
}

#[test]
fn tags_given_as_an_object_are_stored_serialized() {
    let input = "[{\"id\":\"acme/widget\",\"tags\":{\"kind\":\"it's\",\"n\":[1,2]}}]";
    let outcome = run(input, |_| true);
    assert_eq!(outcome.total(), 1);
    let object: serde_json::Value =
        serde_json::from_str("{\"kind\":\"it's\",\"n\":[1,2]}").expect("valid JSON");
    let serialized = serde_json::to_string(&object).expect("serializable");
    let stored = format!("'{}'", serialized.replace('\'', "''"));
    assert!(outcome.metadata().contains(&format!(", '', {}, 'other', ", stored)));
}

#[test]
fn oddly_typed_fields_do_not_fail_the_record() {
    let input = "[{\"id\":\"a/b\",\"tags\":[\"x\",1],\"description\":{\"k\":true},\"velocity_score\":0.5,\"meta_json\":42}]";
    let outcome = run(input, |_| true);
    assert_eq!(outcome.total(), 1);
    assert!(outcome.metadata().contains(", '{\"k\":true}', '[\"x\",1]', 'other', "));
    assert!(outcome.metadata().contains(", NULL, NULL, NULL, 0.5, NULL, 'model', "));
    assert!(outcome.metadata().contains(", NULL, 42, NULL, "));
}

#[test]
fn failed_images_cost_no_record_its_statement() {
    let mut input = String::from("[");
    for index in 0..6 {
        if index > 0 {
            input.push(',');
        }
        input.push_str(&format!(
            "{{\"id\":\"org/model{}\",\"raw_image_url\":\"https://example.org/{}.png\"}}",
            index, index
        ));
    }
    input.push(']');
    let outcome = run(&input, |index| index % 2 == 0);
    assert_eq!(outcome.total(), 6);
    assert_eq!(outcome.with_image(), 3);
    assert_eq!(outcome.without_image(), 3);
    assert_eq!(outcome.metadata().matches("INSERT OR REPLACE INTO models").count(), 6);
    assert_eq!(outcome.image_updates().matches("UPDATE models SET").count(), 3);
    for index in [0, 2, 4] {
        assert!(outcome.image_updates().contains(&format!("WHERE id = 'huggingface-org-model{}'", index)));
    }
    for index in [1, 3, 5] {
        assert!(!outcome.image_updates().contains(&format!("WHERE id = 'huggingface-org-model{}'", index)));
    }
}

#[test]
fn two_runs_on_the_same_input_agree() {
    let input = "[{\"id\":\"acme/widget\",\"likes\":5,\"description\":\"it's a widget\",\"raw_image_url\":\"https://example.org/w.png\"},{\"id\":\"solo\"}]";
    let first = run(input, |_| true);
    let second = run(input, |_| true);
    assert_eq!(first.metadata(), second.metadata());
    assert_eq!(first.image_updates(), second.image_updates());
    // The upserts do not depend on whether the images could be fetched.
    let third = process(records_of(input).remove(0), false);
    let fourth = process(records_of(input).remove(0), true);
    assert_eq!(third.statement, fourth.statement);
}

#[test]
fn scheduler_drives_a_batch_to_its_end() {
    let input = "[{\"id\":\"a/1\"},{\"id\":\"a/2\"},{\"id\":\"a/3\"},{\"id\":\"a/4\"},{\"id\":\"a/5\"}]";
    let mut waiting: Vec<Option<Record>> = records_of(input).into_iter().map(Some).collect();
    let mut in_flight: Vec<Record> = Vec::new();
    let mut scheduler = Scheduler::new(waiting.len(), 2).expect("a scheduler");
    let mut outcome = BatchOutcome::new("");
    loop {
        match scheduler.next() {
            Dispatch::Start(index) => in_flight.push(waiting[index].take().expect("not yet started")),
            Dispatch::Wait => {
                // The record started last is the first to finish.
                let record = in_flight.pop().expect("a record in flight");
                outcome.absorb(process(record, true));
                assert!(scheduler.record_finished());
            }
            Dispatch::Complete => break,
        }
        assert!(in_flight.len() <= 2);
        assert_eq!(in_flight.len(), scheduler.in_flight());
    }
    assert_eq!(outcome.total(), 5);
    assert!(waiting.iter().all(|record| record.is_none()));
    let positions: Vec<usize> = (1..=5)
        .map(|n| outcome.metadata().find(&format!("'huggingface-a-{}'", n)).expect("a statement"))
        .collect();
    // Out of input order: 2 was started after 1 and finished before it.
    assert!(positions[1] < positions[0]);
}
