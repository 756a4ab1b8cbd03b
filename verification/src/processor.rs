//! The work on one record, as a state machine.
//!
//! Storing a document, fetching an image and converting it are done by the
//! caller. A job says what is to be done next, takes the outcome as an event,
//! and decides what follows. No outcome makes a job fail: a failure becomes a
//! line of the job's log, and the record goes on without its image.

use vstd::prelude::*;
use vstd::string::StringExecFns;
use crate::document::{
    document_path, document_path_of, document_url, document_url_of, has_document, wants_document,
};
use crate::identity::{Identity, IdentityView};
use crate::image::{
    image_path, image_path_of, image_source, image_source_of, image_update_of,
    image_update_statement, is_success, is_success_status,
};
use crate::record::{Record, RecordView};
use crate::statement::{upsert_statement, upsert_statement_of};

verus! {

/// The log line for a stored document begins so; the file's path follows.
pub const LOG_DOCUMENT_SAVED: &'static str = "Saved full README to ";

/// The log line for a document that could not be stored begins so; the
/// file's path, a colon and the reason follow.
pub const LOG_DOCUMENT_FAILED: &'static str = "Failed to write doc ";

/// What stands between the path and the reason in that line.
pub const LOG_REASON_SEPARATOR: &'static str = ": ";

/// The log line for an image fetch begins so; the record's id follows.
pub const LOG_DOWNLOADING: &'static str = "Downloading image for ";

/// What stands between the id and the address in that line.
pub const LOG_DOWNLOADING_FROM: &'static str = " from ";

/// The log line of a record without any image address.
pub const LOG_NO_IMAGE: &'static str = "No image URL available, skipping";

/// The log line of a fetch that got no reply.
pub const LOG_NO_RESPONSE: &'static str = "Network request failed";

/// The log line for a reply that reports no success begins so; the status
/// follows.
pub const LOG_HTTP_ERROR: &'static str = "HTTP error: ";

/// The log line of a reply whose body could not be read.
pub const LOG_BODY_UNREADABLE: &'static str = "Failed to read image bytes";

/// The log line for a stored image begins so; the file's path follows.
pub const LOG_IMAGE_STORED: &'static str = "Image converted to WebP: ";

/// The log line for an image that could not be converted or stored begins
/// so; the reason follows.
pub const LOG_IMAGE_FAILED: &'static str = "WebP conversion failed: ";

/// What a job is waiting for.
#[derive(Clone, Copy, Debug, PartialEq, Eq, Structural)]
pub enum Stage {
    /// The identity is resolved; the record's document is being stored.
    SavingDocument,
    /// The fields are normalized; the image has been asked for.
    Fetching,
    /// The image host has replied with success; the body is being read.
    ReadingBody,
    /// The body is read; the image is being converted and stored.
    Converting,
    /// Nothing is left to do.
    Done,
}

/// What the caller is to do next for a job.
pub enum Action {
    /// Store the record's document in the given file.
    SaveDocument { path: String, content: String },
    /// Ask for the image at the given address.
    FetchImage { url: String },
    /// Read the body of the reply.
    ReadBody,
    /// Convert the image and store it in the given file.
    ConvertImage { path: String },
    /// Nothing: the job is done, its result can be taken.
    Finish,
}

/// An action as plain values.
pub enum ActionView {
    SaveDocument { path: Seq<char>, content: Seq<char> },
    FetchImage { url: Seq<char> },
    ReadBody,
    ConvertImage { path: Seq<char> },
    Finish,
}

impl View for Action {
    type V = ActionView;

    open spec fn view(&self) -> ActionView {
        match self {
            Action::SaveDocument { path, content } => ActionView::SaveDocument {
                path: path@,
                content: content@,
            },
            Action::FetchImage { url } => ActionView::FetchImage { url: url@ },
            Action::ReadBody => ActionView::ReadBody,
            Action::ConvertImage { path } => ActionView::ConvertImage { path: path@ },
            Action::Finish => ActionView::Finish,
        }
    }
}

/// How an action ended.
pub enum Event {
    /// The document is stored.
    DocumentSaved,
    /// The document could not be stored.
    DocumentFailed { reason: String },
    /// The fetch got no reply.
    NoResponse,
    /// The image host replied; `status_text` is the status as it is shown.
    Response { status: u16, status_text: String },
    /// The body of the reply could not be read.
    BodyUnreadable,
    /// The body of the reply is read.
    BodyRead,
    /// The image is converted and stored.
    ImageStored,
    /// The image could not be converted or stored.
    ImageFailed { reason: String },
}

/// An event as plain values.
pub enum EventView {
    DocumentSaved,
    DocumentFailed { reason: Seq<char> },
    NoResponse,
    Response { status: u16, status_text: Seq<char> },
    BodyUnreadable,
    BodyRead,
    ImageStored,
    ImageFailed { reason: Seq<char> },
}

impl View for Event {
    type V = EventView;

    open spec fn view(&self) -> EventView {
        match self {
            Event::DocumentSaved => EventView::DocumentSaved,
            Event::DocumentFailed { reason } => EventView::DocumentFailed { reason: reason@ },
            Event::NoResponse => EventView::NoResponse,
            Event::Response { status, status_text } => EventView::Response {
                status: *status,
                status_text: status_text@,
            },
            Event::BodyUnreadable => EventView::BodyUnreadable,
            Event::BodyRead => EventView::BodyRead,
            Event::ImageStored => EventView::ImageStored,
            Event::ImageFailed { reason } => EventView::ImageFailed { reason: reason@ },
        }
    }
}

/// What a record comes to: its upsert, the update that sets its image where
/// one was stored, and the lines that tell what happened on the way.
pub struct ProcessingResult {
    pub statement: String,
    pub image_update: Option<String>,
    pub log: Vec<String>,
}

/// A result as plain values.
pub struct ResultView {
    pub statement: Seq<char>,
    pub image_update: Option<Seq<char>>,
    pub log: Seq<Seq<char>>,
}

impl View for ProcessingResult {
    type V = ResultView;

    open spec fn view(&self) -> ResultView {
        ResultView {
            statement: self.statement@,
            image_update: self.image_update.deep_view(),
            log: self.log.deep_view(),
        }
    }
}

/// How far a stage is from the start.
pub open spec fn rank(stage: Stage) -> nat {
    match stage {
        Stage::SavingDocument => 0,
        Stage::Fetching => 1,
        Stage::ReadingBody => 2,
        Stage::Converting => 3,
        Stage::Done => 4,
    }
}

/// Whether an event tells how the action ended that a stage is waiting for.
pub open spec fn answers(stage: Stage, event: EventView) -> bool {
    match stage {
        Stage::SavingDocument => event is DocumentSaved || event is DocumentFailed,
        Stage::Fetching => event is NoResponse || event is Response,
        Stage::ReadingBody => event is BodyUnreadable || event is BodyRead,
        Stage::Converting => event is ImageStored || event is ImageFailed,
        Stage::Done => false,
    }
}

/// The state of a job as plain values.
pub struct JobView {
    pub stage: Stage,
    pub record: RecordView,
    pub identity: IdentityView,
    pub url_prefix: Seq<char>,
    /// Where the record's document can be read, once it is stored.
    pub document_url: Option<Seq<char>>,
    /// The record's upsert, once its fields are normalized.
    pub statement: Seq<char>,
    pub image_update: Option<Seq<char>>,
    pub log: Seq<Seq<char>>,
}

impl JobView {
    /// Where the record's image is fetched from.
    pub open spec fn image_source(self) -> Option<Seq<char>> {
        image_source_of(self.record.raw_image_url, self.identity.source, self.identity.author)
    }

    /// What holds of every job.
    pub open spec fn wf(self) -> bool {
        &&& self.identity == self.record.identity()
        &&& self.stage is SavingDocument ==> {
            &&& has_document(self.record.body_content)
            &&& self.document_url is None
            &&& self.log.len() == 0
        }
        &&& !(self.stage is SavingDocument) ==> self.statement == upsert_statement_of(
            self.record,
            self.identity,
            self.document_url,
        )
        &&& self.document_url matches Some(url) ==> url == document_url_of(
            self.url_prefix,
            self.identity.internal_id,
        )
        &&& (self.stage is Fetching || self.stage is ReadingBody || self.stage is Converting)
            ==> self.image_source() is Some
        &&& match self.image_update {
            Some(update) => self.stage is Done && update == image_update_of(
                self.identity.internal_id,
            ),
            None => true,
        }
    }

    /// The action that the job is waiting for.
    pub open spec fn pending(self) -> ActionView {
        match self.stage {
            Stage::SavingDocument => ActionView::SaveDocument {
                path: document_path_of(self.identity.internal_id),
                content: self.record.body_content->0,
            },
            Stage::Fetching => ActionView::FetchImage { url: self.image_source()->0 },
            Stage::ReadingBody => ActionView::ReadBody,
            Stage::Converting => ActionView::ConvertImage {
                path: image_path_of(self.identity.internal_id),
            },
            Stage::Done => ActionView::Finish,
        }
    }

    /// The job with one more line in its log and nothing left to do.
    pub open spec fn closed_with(self, line: Seq<char>) -> JobView {
        JobView { stage: Stage::Done, log: self.log.push(line), ..self }
    }

    /// The job once its fields are normalized: its upsert is built, and it
    /// either asks for the record's image or, where the record has no image
    /// address, is done.
    pub open spec fn normalized(self, document_url: Option<Seq<char>>) -> JobView {
        let built = JobView {
            document_url,
            statement: upsert_statement_of(self.record, self.identity, document_url),
            ..self
        };
        match self.image_source() {
            Some(url) => JobView {
                stage: Stage::Fetching,
                log: built.log.push(
                    LOG_DOWNLOADING@ + self.identity.internal_id + LOG_DOWNLOADING_FROM@ + url,
                ),
                ..built
            },
            None => built.closed_with(LOG_NO_IMAGE@),
        }
    }

    /// The job after an event. An event that does not answer what the job
    /// is waiting for leaves the job as it is.
    pub open spec fn step(self, event: EventView) -> JobView {
        let id = self.identity.internal_id;
        match (self.stage, event) {
            (Stage::SavingDocument, EventView::DocumentSaved) => JobView {
                log: self.log.push(LOG_DOCUMENT_SAVED@ + document_path_of(id)),
                ..self
            }.normalized(Some(document_url_of(self.url_prefix, id))),
            (Stage::SavingDocument, EventView::DocumentFailed { reason }) => JobView {
                log: self.log.push(
                    LOG_DOCUMENT_FAILED@ + document_path_of(id) + LOG_REASON_SEPARATOR@ + reason,
                ),
                ..self
            }.normalized(None),
            (Stage::Fetching, EventView::NoResponse) => self.closed_with(LOG_NO_RESPONSE@),
            (Stage::Fetching, EventView::Response { status, status_text }) => {
                if is_success_status(status) {
                    JobView { stage: Stage::ReadingBody, ..self }
                } else {
                    self.closed_with(LOG_HTTP_ERROR@ + status_text)
                }
            },
            (Stage::ReadingBody, EventView::BodyUnreadable) => self.closed_with(
                LOG_BODY_UNREADABLE@,
            ),
            (Stage::ReadingBody, EventView::BodyRead) => JobView {
                stage: Stage::Converting,
                ..self
            },
            (Stage::Converting, EventView::ImageStored) => JobView {
                image_update: Some(image_update_of(id)),
                ..self
            }.closed_with(LOG_IMAGE_STORED@ + image_path_of(id)),
            (Stage::Converting, EventView::ImageFailed { reason }) => self.closed_with(
                LOG_IMAGE_FAILED@ + reason,
            ),
            _ => self,
        }
    }

    /// The job after a run of events, taken one after the other.
    pub open spec fn run(self, events: Seq<EventView>) -> JobView
        decreases events.len(),
    {
        if events.len() == 0 {
            self
        } else {
            self.run(events.drop_last()).step(events.last())
        }
    }

    /// Whether each event of a run answers what the job is waiting for when
    /// the event comes.
    pub open spec fn all_answer(self, events: Seq<EventView>) -> bool
        decreases events.len(),
    {
        if events.len() == 0 {
            true
        } else {
            self.all_answer(events.drop_last()) && answers(
                self.run(events.drop_last()).stage,
                events.last(),
            )
        }
    }

    /// The result of the job.
    pub open spec fn result(self) -> ResultView {
        ResultView { statement: self.statement, image_update: self.image_update, log: self.log }
    }
}

/// The job for a record, before anything is done for it: it waits for the
/// record's document to be stored where there is one, and has its fields
/// normalized already where there is none.
pub open spec fn start_of(record: RecordView, url_prefix: Seq<char>) -> JobView {
    let fresh = JobView {
        stage: Stage::SavingDocument,
        record,
        identity: record.identity(),
        url_prefix,
        document_url: None,
        statement: Seq::empty(),
        image_update: None,
        log: Seq::empty(),
    };
    if has_document(record.body_content) {
        fresh
    } else {
        fresh.normalized(None)
    }
}

/// Every job is well formed from the start.
pub proof fn lemma_start_is_well_formed(record: RecordView, url_prefix: Seq<char>)
    ensures
        start_of(record, url_prefix).wf(),
{
}

/// No event breaks a job.
pub proof fn lemma_step_keeps_well_formed(job: JobView, event: EventView)
    requires
        job.wf(),
    ensures
        job.step(event).wf(),
{
}

/// A job never goes back: the event that answers what the job is waiting
/// for takes it to a later stage, and any other event leaves it as it is.
pub proof fn lemma_step_moves_forward(job: JobView, event: EventView)
    ensures
        answers(job.stage, event) ==> rank(job.step(event).stage) > rank(job.stage),
        !answers(job.stage, event) ==> job.step(event) == job,
{
}

/// Every job comes to its end: each answer takes it at least one stage
/// further, so no run of answers is longer than the four stages that lie
/// before the end.
pub proof fn lemma_run_is_bounded(job: JobView, events: Seq<EventView>)
    requires
        job.all_answer(events),
    ensures
        rank(job.run(events).stage) >= rank(job.stage) + events.len(),
        events.len() <= 4,
    decreases events.len(),
{
    if events.len() > 0 {
        lemma_run_is_bounded(job, events.drop_last());
        lemma_step_moves_forward(job.run(events.drop_last()), events.last());
    }
}

/// A job that is waiting can always be answered, however its action ended:
/// each outcome of the pending action is an event that the job takes, so
/// nothing can leave it stuck.
pub proof fn lemma_waiting_job_takes_every_outcome(
    job: JobView,
    reason: Seq<char>,
    status: u16,
    status_text: Seq<char>,
)
    ensures
        job.stage is SavingDocument ==> answers(job.stage, EventView::DocumentSaved) && answers(
            job.stage,
            EventView::DocumentFailed { reason },
        ),
        job.stage is Fetching ==> answers(job.stage, EventView::NoResponse) && answers(
            job.stage,
            EventView::Response { status, status_text },
        ),
        job.stage is ReadingBody ==> answers(job.stage, EventView::BodyUnreadable) && answers(
            job.stage,
            EventView::BodyRead,
        ),
        job.stage is Converting ==> answers(job.stage, EventView::ImageStored) && answers(
            job.stage,
            EventView::ImageFailed { reason },
        ),
{
}

/// No run of events breaks a job.
pub proof fn lemma_run_keeps_well_formed(job: JobView, events: Seq<EventView>)
    requires
        job.wf(),
    ensures
        job.run(events).wf(),
    decreases events.len(),
{
    if events.len() > 0 {
        lemma_run_keeps_well_formed(job, events.drop_last());
        lemma_step_keeps_well_formed(job.run(events.drop_last()), events.last());
    }
}

/// Once the fields of a record are normalized its upsert stands: whatever
/// happens to the image, whether it is fetched, refused, unreadable or
/// stored, the upsert stays what it was.
pub proof fn lemma_statement_ignores_image(job: JobView, events: Seq<EventView>)
    requires
        !(job.stage is SavingDocument),
    ensures
        job.run(events).statement == job.statement,
        !(job.run(events).stage is SavingDocument),
    decreases events.len(),
{
    if events.len() > 0 {
        lemma_statement_ignores_image(job, events.drop_last());
    }
}

/// Processing is reproducible: two jobs for the same record under the same
/// configuration hold the same upsert once their fields are normalized,
/// provided the record's document was stored for both or for neither.
/// Nothing else that happened to either job matters.
pub proof fn lemma_statement_is_reproducible(a: JobView, b: JobView)
    requires
        a.wf(),
        b.wf(),
        !(a.stage is SavingDocument),
        !(b.stage is SavingDocument),
        a.record == b.record,
        a.url_prefix == b.url_prefix,
        a.document_url is Some == b.document_url is Some,
    ensures
        a.statement == b.statement,
{
}

/// A job holds an image update exactly when its image was stored: no job
/// starts with one, only a finished job holds one, and the only event that
/// brings one is the report that the image is stored, heard while the job
/// waits for it.
pub proof fn lemma_image_update_only_on_success(job: JobView, event: EventView)
    requires
        job.wf(),
    ensures
        start_of(job.record, job.url_prefix).image_update is None,
        job.image_update is Some ==> job.stage is Done,
        job.step(event).image_update is Some <==> job.image_update is Some || (job.stage
            is Converting && event is ImageStored),
{
}

/// The work on one record.
pub struct RecordJob {
    stage: Stage,
    record: Record,
    identity: Identity,
    url_prefix: String,
    document_url: Option<String>,
    statement: String,
    image_update: Option<String>,
    log: Vec<String>,
}

impl View for RecordJob {
    type V = JobView;

    closed spec fn view(&self) -> JobView {
        JobView {
            stage: self.stage,
            record: self.record@,
            identity: self.identity@,
            url_prefix: self.url_prefix@,
            document_url: self.document_url.deep_view(),
            statement: self.statement@,
            image_update: self.image_update.deep_view(),
            log: self.log.deep_view(),
        }
    }
}

impl RecordJob {
    #[verifier::type_invariant]
    spec fn well_formed(self) -> bool {
        self@.wf()
    }

    /// Adds a line to the log.
    fn note(log: &mut Vec<String>, line: String)
        ensures
            final(log).deep_view() == old(log).deep_view().push(line@),
    {
        let ghost text = line@;
        log.push(line);
        assert(log.deep_view() =~= old(log).deep_view().push(text));
    }

    /// Normalizes the fields of the record and turns to its image.
    fn normalize(
        record: Record,
        identity: Identity,
        url_prefix: String,
        document_url: Option<String>,
        log: Vec<String>,
    ) -> (job: RecordJob)
        requires
            identity@ == record@.identity(),
            document_url.deep_view() matches Some(url) ==> url == document_url_of(
                url_prefix@,
                identity@.internal_id,
            ),
        ensures
            job@ == (JobView {
                stage: Stage::SavingDocument,
                record: record@,
                identity: identity@,
                url_prefix: url_prefix@,
                document_url: None,
                statement: Seq::empty(),
                image_update: None,
                log: log.deep_view(),
            }).normalized(document_url.deep_view()),
    {
        let statement = upsert_statement(&record, &identity, &document_url);
        let source = image_source(
            &record.raw_image_url,
            identity.source.as_str(),
            identity.author.as_str(),
        );
        let mut log = log;
        match source {
            Some(url) => {
                let mut line = String::from_str(LOG_DOWNLOADING);
                line.append(identity.internal_id.as_str());
                line.append(LOG_DOWNLOADING_FROM);
                line.append(url.as_str());
                Self::note(&mut log, line);
                RecordJob {
                    stage: Stage::Fetching,
                    record,
                    identity,
                    url_prefix,
                    document_url,
                    statement,
                    image_update: None,
                    log,
                }
            },
            None => {
                Self::note(&mut log, String::from_str(LOG_NO_IMAGE));
                RecordJob {
                    stage: Stage::Done,
                    record,
                    identity,
                    url_prefix,
                    document_url,
                    statement,
                    image_update: None,
                    log,
                }
            },
        }
    }

    /// Begins the work on a record. `url_prefix` is the address under which
    /// stored documents are published.
    pub fn start(record: Record, url_prefix: &str) -> (job: RecordJob)
        ensures
            job@ == start_of(record@, url_prefix@),
            job@.wf(),
    {
        let identity = record.identity();
        let log: Vec<String> = Vec::new();
        assert(log.deep_view() =~= Seq::<Seq<char>>::empty());
        if wants_document(&record.body_content) {
            RecordJob {
                stage: Stage::SavingDocument,
                record,
                identity,
                url_prefix: String::from_str(url_prefix),
                document_url: None,
                statement: String::new(),
                image_update: None,
                log,
            }
        } else {
            Self::normalize(record, identity, String::from_str(url_prefix), None, log)
        }
    }

    /// What the job is waiting for.
    pub fn stage(&self) -> (stage: Stage)
        ensures
            stage == self@.stage,
    {
        self.stage
    }

    /// Whether nothing is left to do.
    pub fn is_done(&self) -> (done: bool)
        ensures
            done == (self@.stage is Done),
    {
        matches!(self.stage, Stage::Done)
    }

    /// The identity of the record.
    pub fn identity(&self) -> (identity: &Identity)
        ensures
            identity@ == self@.identity,
            identity@ == self@.record.identity(),
    {
        proof {
            use_type_invariant(self);
        }
        &self.identity
    }

    /// What the caller is to do next.
    pub fn pending(&self) -> (action: Action)
        ensures
            action@ == self@.pending(),
    {
        proof {
            use_type_invariant(self);
        }
        match self.stage {
            Stage::SavingDocument => {
                let content = match &self.record.body_content {
                    Some(text) => text.clone(),
                    None => String::new(),
                };
                Action::SaveDocument {
                    path: document_path(self.identity.internal_id.as_str()),
                    content,
                }
            },
            Stage::Fetching => {
                let source = image_source(
                    &self.record.raw_image_url,
                    self.identity.source.as_str(),
                    self.identity.author.as_str(),
                );
                let url = match source {
                    Some(url) => url,
                    None => String::new(),
                };
                Action::FetchImage { url }
            },
            Stage::ReadingBody => Action::ReadBody,
            Stage::Converting => Action::ConvertImage {
                path: image_path(self.identity.internal_id.as_str()),
            },
            Stage::Done => Action::Finish,
        }
    }

    /// Closes the job with one more line in its log.
    fn close(self, line: String, image_update: Option<String>) -> (job: RecordJob)
        requires
            !(self@.stage is SavingDocument),
            self@.image_update is None,
            image_update.deep_view() matches Some(update) ==> update == image_update_of(
                self@.identity.internal_id,
            ),
        ensures
            job@ == (JobView { image_update: image_update.deep_view(), ..self@ }).closed_with(
                line@,
            ),
    {
        proof {
            use_type_invariant(&self);
        }
        let RecordJob { stage: _, record, identity, url_prefix, document_url, statement, image_update: _, log } = self;
        let mut log = log;
        Self::note(&mut log, line);
        RecordJob {
            stage: Stage::Done,
            record,
            identity,
            url_prefix,
            document_url,
            statement,
            image_update,
            log,
        }
    }

    /// Moves the job to a later stage of the image's way.
    fn advance(self, stage: Stage) -> (job: RecordJob)
        requires
            self@.stage is Fetching || self@.stage is ReadingBody,
            stage is ReadingBody || stage is Converting,
        ensures
            job@ == (JobView { stage, ..self@ }),
    {
        proof {
            use_type_invariant(&self);
        }
        let RecordJob { stage: _, record, identity, url_prefix, document_url, statement, image_update, log } = self;
        RecordJob { stage, record, identity, url_prefix, document_url, statement, image_update, log }
    }

    /// Takes the outcome of the pending action and decides what follows. An
    /// event that does not answer the pending action changes nothing.
    pub fn step(self, event: Event) -> (job: RecordJob)
        ensures
            job@ == self@.step(event@),
            job@.wf(),
    {
        proof {
            use_type_invariant(&self);
            lemma_step_keeps_well_formed(self@, event@);
        }
        match self.stage {
            Stage::SavingDocument => match event {
                Event::DocumentSaved => {
                    let RecordJob { stage: _, record, identity, url_prefix, document_url: _, statement: _, image_update: _, log } = self;
                    let mut log = log;
                    let mut line = String::from_str(LOG_DOCUMENT_SAVED);
                    line.append(document_path(identity.internal_id.as_str()).as_str());
                    Self::note(&mut log, line);
                    let url = document_url(url_prefix.as_str(), identity.internal_id.as_str());
                    Self::normalize(record, identity, url_prefix, Some(url), log)
                },
                Event::DocumentFailed { reason } => {
                    let RecordJob { stage: _, record, identity, url_prefix, document_url: _, statement: _, image_update: _, log } = self;
                    let mut log = log;
                    let mut line = String::from_str(LOG_DOCUMENT_FAILED);
                    line.append(document_path(identity.internal_id.as_str()).as_str());
                    line.append(LOG_REASON_SEPARATOR);
                    line.append(reason.as_str());
                    Self::note(&mut log, line);
                    Self::normalize(record, identity, url_prefix, None, log)
                },
                _ => self,
            },
            Stage::Fetching => match event {
                Event::NoResponse => self.close(String::from_str(LOG_NO_RESPONSE), None),
                Event::Response { status, status_text } => {
                    if is_success(status) {
                        self.advance(Stage::ReadingBody)
                    } else {
                        let mut line = String::from_str(LOG_HTTP_ERROR);
                        line.append(status_text.as_str());
                        self.close(line, None)
                    }
                },
                _ => self,
            },
            Stage::ReadingBody => match event {
                Event::BodyUnreadable => self.close(String::from_str(LOG_BODY_UNREADABLE), None),
                Event::BodyRead => self.advance(Stage::Converting),
                _ => self,
            },
            Stage::Converting => match event {
                Event::ImageStored => {
                    let mut line = String::from_str(LOG_IMAGE_STORED);
                    line.append(image_path(self.identity.internal_id.as_str()).as_str());
                    let update = image_update_statement(self.identity.internal_id.as_str());
                    self.close(line, Some(update))
                },
                Event::ImageFailed { reason } => {
                    let mut line = String::from_str(LOG_IMAGE_FAILED);
                    line.append(reason.as_str());
                    self.close(line, None)
                },
                _ => self,
            },
            Stage::Done => self,
        }
    }

    /// Hands out the result of the job once nothing is left to do.
    pub fn into_result(self) -> (result: Option<ProcessingResult>)
        ensures
            result is Some == (self@.stage is Done),
            result matches Some(r) ==> r@ == self@.result(),
    {
        match self.stage {
            Stage::Done => Some(
                ProcessingResult {
                    statement: self.statement,
                    image_update: self.image_update,
                    log: self.log,
                },
            ),
            _ => None,
        }
    }
}

} // verus!
