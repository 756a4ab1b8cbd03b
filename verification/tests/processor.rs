use img_optimizer::processor::{Action, Event, RecordJob, Stage};
use img_optimizer::record::Record;
use img_optimizer::statement::upsert_statement;

const PREFIX: &str = "https://cdn.free2aitools.com";

fn record_with_image() -> Record {
    let mut record = Record::new("acme/widget".to_string());
    record.raw_image_url = Some("https://example.org/w.png".to_string());
    record
}

fn ok() -> Event {
    Event::Response { status: 200, status_text: "200 OK".to_string() }
}

fn expect_fetch(job: &RecordJob, expected: &str) {
    match job.pending() {
        Action::FetchImage { url } => assert_eq!(url, expected),
        _ => panic!("the job does not ask for the image"),
    }
}

#[test]
fn record_without_image_address_is_done_at_once() {
    let job = RecordJob::start(Record::new("acme/widget".to_string()), PREFIX);
    assert_eq!(job.stage(), Stage::Done);
    assert!(job.is_done());
    assert!(matches!(job.pending(), Action::Finish));
    let result = job.into_result().expect("a finished job");
    assert_eq!(result.image_update, None);
    assert_eq!(result.log, vec!["No image URL available, skipping".to_string()]);
    assert!(result.statement.contains("'huggingface-acme-widget'"));
}

#[test]
fn github_record_asks_for_the_avatar() {
    let mut record = Record::new("ann/tool".to_string());
    record.source = Some("github".to_string());
    let job = RecordJob::start(record, PREFIX);
    assert_eq!(job.stage(), Stage::Fetching);
    expect_fetch(&job, "https://github.com/ann.png");
}

#[test]
fn image_is_fetched_read_converted_and_stored() {
    let job = RecordJob::start(record_with_image(), PREFIX);
    assert_eq!(job.stage(), Stage::Fetching);
    expect_fetch(&job, "https://example.org/w.png");
    let job = job.step(ok());
    assert_eq!(job.stage(), Stage::ReadingBody);
    assert!(matches!(job.pending(), Action::ReadBody));
    let job = job.step(Event::BodyRead);
    assert_eq!(job.stage(), Stage::Converting);
    match job.pending() {
        Action::ConvertImage { path } => {
            assert_eq!(path, "data/images/huggingface-acme-widget.webp")
        }
        _ => panic!("the job does not ask for the conversion"),
    }
    let job = job.step(Event::ImageStored);
    assert!(job.is_done());
    let result = job.into_result().expect("a finished job");
    assert_eq!(
        result.image_update,
        Some(
            "UPDATE models SET cover_image_url = 'https://cdn.free2aitools.com/models/huggingface-acme-widget.webp' WHERE id = 'huggingface-acme-widget';\n"
                .to_string()
        )
    );
    assert_eq!(
        result.log,
        vec![
            "Downloading image for huggingface-acme-widget from https://example.org/w.png"
                .to_string(),
            "Image converted to WebP: data/images/huggingface-acme-widget.webp".to_string(),
        ]
    );
}

#[test]
fn failed_fetch_ends_the_job_without_image() {
    let job = RecordJob::start(record_with_image(), PREFIX).step(Event::NoResponse);
    assert!(job.is_done());
    let result = job.into_result().expect("a finished job");
    assert_eq!(result.image_update, None);
    assert_eq!(result.log.len(), 2);
    assert_eq!(result.log[1], "Network request failed");
}

#[test]
fn refused_fetch_is_logged_with_its_status() {
    let refused = Event::Response { status: 404, status_text: "404 Not Found".to_string() };
    let job = RecordJob::start(record_with_image(), PREFIX).step(refused);
    assert!(job.is_done());
    let result = job.into_result().expect("a finished job");
    assert_eq!(result.image_update, None);
    assert_eq!(result.log[1], "HTTP error: 404 Not Found");
}

#[test]
fn only_statuses_from_200_to_299_go_on() {
    for (status, goes_on) in [(199, false), (200, true), (204, true), (299, true), (300, false)] {
        let event = Event::Response { status, status_text: status.to_string() };
        let job = RecordJob::start(record_with_image(), PREFIX).step(event);
        assert_eq!(job.stage() == Stage::ReadingBody, goes_on, "{}", status);
        assert_eq!(job.is_done(), !goes_on, "{}", status);
    }
}

#[test]
fn unreadable_body_ends_the_job_without_image() {
    let job = RecordJob::start(record_with_image(), PREFIX).step(ok()).step(Event::BodyUnreadable);
    let result = job.into_result().expect("a finished job");
    assert_eq!(result.image_update, None);
    assert_eq!(result.log[1], "Failed to read image bytes");
}

#[test]
fn failed_conversion_ends_the_job_without_image() {
    let failed = Event::ImageFailed { reason: "unsupported format".to_string() };
    let job =
        RecordJob::start(record_with_image(), PREFIX).step(ok()).step(Event::BodyRead).step(failed);
    let result = job.into_result().expect("a finished job");
    assert_eq!(result.image_update, None);
    assert_eq!(result.log[1], "WebP conversion failed: unsupported format");
}

#[test]
fn document_is_stored_before_the_fields_are_normalized() {
    let mut record = Record::new("acme/widget".to_string());
    record.body_content = Some("# Widget".to_string());
    let job = RecordJob::start(record, "https://files.example");
    assert_eq!(job.stage(), Stage::SavingDocument);
    assert!(job.into_result().is_none());

    let mut record = Record::new("acme/widget".to_string());
    record.body_content = Some("# Widget".to_string());
    let job = RecordJob::start(record, "https://files.example");
    match job.pending() {
        Action::SaveDocument { path, content } => {
            assert_eq!(path, "data/docs/huggingface-acme-widget.md");
            assert_eq!(content, "# Widget");
        }
        _ => panic!("the job does not ask for the document to be stored"),
    }
    let job = job.step(Event::DocumentSaved);
    assert!(job.is_done());
    let result = job.into_result().expect("a finished job");
    assert!(result
        .statement
        .contains("'# Widget', 'https://files.example/docs/huggingface-acme-widget.md', "));
    assert_eq!(
        result.log,
        vec![
            "Saved full README to data/docs/huggingface-acme-widget.md".to_string(),
            "No image URL available, skipping".to_string(),
        ]
    );
}

#[test]
fn failed_document_leaves_the_reference_out() {
    let mut record = Record::new("acme/widget".to_string());
    record.body_content = Some("# Widget".to_string());
    let failed = Event::DocumentFailed { reason: "disk full".to_string() };
    let job = RecordJob::start(record, PREFIX).step(failed);
    let result = job.into_result().expect("a finished job");
    assert!(result.statement.contains("'# Widget', NULL, "));
    assert_eq!(
        result.log[0],
        "Failed to write doc data/docs/huggingface-acme-widget.md: disk full"
    );
}

#[test]
fn blank_document_is_not_stored() {
    let mut record = Record::new("acme/widget".to_string());
    record.body_content = Some("  \n ".to_string());
    let job = RecordJob::start(record, PREFIX);
    assert!(job.is_done());
    let result = job.into_result().expect("a finished job");
    assert!(result.statement.contains(", 'model', '', NULL, "));
}

#[test]
fn events_that_answer_nothing_change_nothing() {
    let job = RecordJob::start(record_with_image(), PREFIX);
    let job = job.step(Event::ImageStored).step(Event::BodyRead).step(Event::DocumentSaved);
    assert_eq!(job.stage(), Stage::Fetching);
    expect_fetch(&job, "https://example.org/w.png");
    let job = job.step(Event::NoResponse);
    assert!(job.is_done());
    let job = job.step(ok()).step(Event::ImageStored);
    assert!(job.is_done());
    let result = job.into_result().expect("a finished job");
    assert_eq!(result.image_update, None);
    assert_eq!(result.log.len(), 2);
}

#[test]
fn statement_does_not_depend_on_what_happens_to_the_image() {
    let expected = upsert_statement(&record_with_image(), &record_with_image().identity(), &None);
    let stored = RecordJob::start(record_with_image(), PREFIX)
        .step(ok())
        .step(Event::BodyRead)
        .step(Event::ImageStored)
        .into_result()
        .expect("a finished job");
    let failed = RecordJob::start(record_with_image(), PREFIX)
        .step(Event::NoResponse)
        .into_result()
        .expect("a finished job");
    assert_eq!(stored.statement, expected);
    assert_eq!(failed.statement, expected);
    assert!(stored.image_update.is_some());
    assert!(failed.image_update.is_none());
}

#[test]
fn job_knows_the_identity_of_its_record() {
    let job = RecordJob::start(record_with_image(), PREFIX);
    assert_eq!(job.identity().internal_id, "huggingface-acme-widget");
    assert_eq!(job.identity().slug, "huggingface--acme--widget");
}
