//! The outcome of a batch: the two streams of statements that its records
//! add up to, and the counts that the final report is made of.
//!
//! Results are absorbed one at a time, in the order in which they become
//! available. That order need not be the order of the input.

use vstd::prelude::*;
use vstd::string::StringExecFns;
use crate::processor::{ProcessingResult, ResultView};
use crate::text::{is_blank, is_blank_text};

verus! {

/// The first line of the stream of upserts.
pub const METADATA_TITLE: &'static str = "-- Auto-generated upsert SQL\n";

/// The first line of the stream of image updates.
pub const IMAGE_UPDATES_TITLE: &'static str = "-- Auto-generated update URLs SQL\n";

/// How a line of the header begins.
pub const HEADER_LINE_HEAD: &'static str = "-- ";

/// What stands between the label and the value in a line of the header.
pub const HEADER_LINE_MIDDLE: &'static str = ": ";

/// How a line ends.
pub const LINE_END: &'static str = "\n";

/// The label of the header line that shows the arguments of the run.
pub const LABEL_ARGS: &'static str = "Args";

/// The label of the header line that shows the storage bucket.
pub const LABEL_BUCKET: &'static str = "R2_BUCKET env";

/// The label of the header line that shows the storage account.
pub const LABEL_ACCOUNT: &'static str = "CLOUDFLARE_ACCOUNT_ID env";

/// The label of the header line that shows the public address prefix.
pub const LABEL_URL_PREFIX: &'static str = "R2_PUBLIC_URL_PREFIX env";

/// How the comment begins that carries the log of a record.
pub const LOG_BLOCK_HEAD: &'static str = "/* LOGS:\n";

/// How that comment ends.
pub const LOG_BLOCK_TAIL: &'static str = "\n*/\n";

/// All that an artifact holds when the input has no content.
pub const EMPTY_INPUT_NOTE: &'static str = "-- Empty: No models in input\n";

/// All that an artifact holds when the input is an empty list.
pub const EMPTY_BATCH_NOTE: &'static str = "-- Empty: 0 models in array\n";

/// Why a run has nothing to process.
#[derive(Clone, Copy, Debug, PartialEq, Eq, Structural)]
pub enum Emptiness {
    /// The input holds nothing but white space.
    NoContent,
    /// The input is a list without records.
    NoRecords,
}

/// One line of the header: a label and what it stands for.
pub open spec fn header_line_of(label: Seq<char>, value: Seq<char>) -> Seq<char> {
    HEADER_LINE_HEAD@ + label + HEADER_LINE_MIDDLE@ + value + LINE_END@
}

/// The header that both artifacts carry below their title: the arguments of
/// the run and the three settings of the storage, each as it is shown.
pub open spec fn header_of(
    args: Seq<char>,
    bucket: Seq<char>,
    account: Seq<char>,
    url_prefix: Seq<char>,
) -> Seq<char> {
    header_line_of(LABEL_ARGS@, args) + header_line_of(LABEL_BUCKET@, bucket) + header_line_of(
        LABEL_ACCOUNT@,
        account,
    ) + header_line_of(LABEL_URL_PREFIX@, url_prefix)
}

/// The lines of a log, each with a line end after it.
pub open spec fn log_text(log: Seq<Seq<char>>) -> Seq<char>
    decreases log.len(),
{
    if log.len() == 0 {
        Seq::empty()
    } else {
        log_text(log.drop_last()) + log.last() + LINE_END@
    }
}

/// The comment that carries the log of a record; nothing for an empty log.
pub open spec fn log_block(log: Seq<Seq<char>>) -> Seq<char> {
    if log.len() == 0 {
        Seq::empty()
    } else {
        LOG_BLOCK_HEAD@ + log_text(log) + LOG_BLOCK_TAIL@
    }
}

/// What an artifact holds when there is nothing to process.
pub open spec fn empty_note_of(why: Emptiness) -> Seq<char> {
    match why {
        Emptiness::NoContent => EMPTY_INPUT_NOTE@,
        Emptiness::NoRecords => EMPTY_BATCH_NOTE@,
    }
}

/// The image update of a result as it goes into the stream: the statement,
/// or nothing.
pub open spec fn image_update_text(update: Option<Seq<char>>) -> Seq<char> {
    match update {
        Some(statement) => statement,
        None => Seq::empty(),
    }
}

/// How many of the results hold an image update.
pub open spec fn count_with_image(results: Seq<ResultView>) -> nat
    decreases results.len(),
{
    if results.len() == 0 {
        0
    } else {
        count_with_image(results.drop_last()) + if results.last().image_update is Some {
            1nat
        } else {
            0nat
        }
    }
}

/// The outcome of a batch as plain values.
pub struct BatchView {
    pub metadata: Seq<char>,
    pub image_updates: Seq<char>,
    pub total: nat,
    pub with_image: nat,
}

impl BatchView {
    /// The outcome before any result is in: each stream holds its title and
    /// the header.
    pub open spec fn opened(header: Seq<char>) -> BatchView {
        BatchView {
            metadata: METADATA_TITLE@ + header,
            image_updates: IMAGE_UPDATES_TITLE@ + header,
            total: 0,
            with_image: 0,
        }
    }

    /// The outcome with one more result. The upsert goes to the stream of
    /// upserts, the image update, where there is one, to the stream of image
    /// updates, and the log follows in both.
    pub open spec fn absorb(self, result: ResultView) -> BatchView {
        BatchView {
            metadata: self.metadata + result.statement + log_block(result.log),
            image_updates: self.image_updates + image_update_text(result.image_update) + log_block(
                result.log,
            ),
            total: self.total + 1,
            with_image: if result.image_update is Some {
                self.with_image + 1
            } else {
                self.with_image
            },
        }
    }

    /// The outcome with a run of results, absorbed one after the other.
    pub open spec fn absorb_all(self, results: Seq<ResultView>) -> BatchView
        decreases results.len(),
    {
        if results.len() == 0 {
            self
        } else {
            self.absorb_all(results.drop_last()).absorb(results.last())
        }
    }

    /// How many records went without an image.
    pub open spec fn without_image(self) -> nat {
        if self.with_image <= self.total {
            (self.total - self.with_image) as nat
        } else {
            0
        }
    }
}

/// No failure of an image costs a record its upsert: a batch counts every
/// result that it absorbs, and counts as records with an image exactly those
/// whose result holds an image update.
pub proof fn lemma_batch_counts(header: Seq<char>, results: Seq<ResultView>)
    ensures
        BatchView::opened(header).absorb_all(results).total == results.len(),
        BatchView::opened(header).absorb_all(results).with_image == count_with_image(results),
        count_with_image(results) <= results.len(),
    decreases results.len(),
{
    if results.len() > 0 {
        lemma_batch_counts(header, results.drop_last());
    }
}

/// The outcome of a batch.
pub struct BatchOutcome {
    metadata: String,
    image_updates: String,
    total: usize,
    with_image: usize,
}

impl View for BatchOutcome {
    type V = BatchView;

    closed spec fn view(&self) -> BatchView {
        BatchView {
            metadata: self.metadata@,
            image_updates: self.image_updates@,
            total: self.total as nat,
            with_image: self.with_image as nat,
        }
    }
}

/// Renders the lines of a log, each with a line end after it.
fn render_log(log: &Vec<String>) -> (out: String)
    ensures
        out@ == log_text(log.deep_view()),
{
    let mut out = String::new();
    let ghost all = log.deep_view();
    for i in 0..log.len()
        invariant
            all == log.deep_view(),
            out@ == log_text(all.take(i as int)),
    {
        proof {
            assert(all.take(i + 1).drop_last() =~= all.take(i as int));
            assert(all.take(i + 1).last() == log[i as int]@);
        }
        out.append(log[i].as_str());
        out.append(LINE_END);
    }
    assert(all.take(log.len() as int) =~= all);
    out
}

/// Renders the comment that carries the log of a record.
pub fn render_log_block(log: &Vec<String>) -> (out: String)
    ensures
        out@ == log_block(log.deep_view()),
{
    if log.len() == 0 {
        String::new()
    } else {
        let mut out = String::from_str(LOG_BLOCK_HEAD);
        out.append(render_log(log).as_str());
        out.append(LOG_BLOCK_TAIL);
        out
    }
}

/// Renders one line of the header.
pub fn header_line(label: &str, value: &str) -> (out: String)
    ensures
        out@ == header_line_of(label@, value@),
{
    let mut out = String::from_str(HEADER_LINE_HEAD);
    out.append(label);
    out.append(HEADER_LINE_MIDDLE);
    out.append(value);
    out.append(LINE_END);
    out
}

/// Renders the header that both artifacts carry below their title. Each
/// argument is a setting as it is to be shown.
pub fn debug_header(args: &str, bucket: &str, account: &str, url_prefix: &str) -> (out: String)
    ensures
        out@ == header_of(args@, bucket@, account@, url_prefix@),
{
    let mut out = header_line(LABEL_ARGS, args);
    out.append(header_line(LABEL_BUCKET, bucket).as_str());
    out.append(header_line(LABEL_ACCOUNT, account).as_str());
    out.append(header_line(LABEL_URL_PREFIX, url_prefix).as_str());
    out
}

/// Whether the text of an input leaves nothing to process: it does when it
/// holds white space only.
pub fn emptiness_of_text(data: &str) -> (why: Option<Emptiness>)
    ensures
        why == if is_blank_text(data@) {
            Some(Emptiness::NoContent)
        } else {
            None
        },
{
    if is_blank(data) {
        Some(Emptiness::NoContent)
    } else {
        None
    }
}

/// Whether a batch of the given size leaves nothing to process: it does when
/// it holds no record.
pub fn emptiness_of_batch(records: usize) -> (why: Option<Emptiness>)
    ensures
        why == if records == 0 {
            Some(Emptiness::NoRecords)
        } else {
            None
        },
{
    if records == 0 {
        Some(Emptiness::NoRecords)
    } else {
        None
    }
}

/// What each artifact holds when there is nothing to process: one line of
/// comment and no statement.
pub fn empty_note(why: Emptiness) -> (out: String)
    ensures
        out@ == empty_note_of(why),
{
    match why {
        Emptiness::NoContent => String::from_str(EMPTY_INPUT_NOTE),
        Emptiness::NoRecords => String::from_str(EMPTY_BATCH_NOTE),
    }
}

impl BatchOutcome {
    /// Opens the outcome of a batch: each stream gets its title and the
    /// header.
    pub fn new(header: &str) -> (outcome: BatchOutcome)
        ensures
            outcome@ == BatchView::opened(header@),
    {
        let mut metadata = String::from_str(METADATA_TITLE);
        metadata.append(header);
        let mut image_updates = String::from_str(IMAGE_UPDATES_TITLE);
        image_updates.append(header);
        BatchOutcome { metadata, image_updates, total: 0, with_image: 0 }
    }

    /// Takes in the result of one record.
    pub fn absorb(&mut self, result: ProcessingResult)
        requires
            old(self)@.total < usize::MAX,
            old(self)@.with_image < usize::MAX,
        ensures
            final(self)@ == old(self)@.absorb(result@),
    {
        let block = render_log_block(&result.log);
        self.metadata.append(result.statement.as_str());
        self.metadata.append(block.as_str());
        match &result.image_update {
            Some(update) => {
                self.image_updates.append(update.as_str());
                self.with_image = self.with_image + 1;
            },
            None => {
                assert(self.image_updates@ + Seq::<char>::empty() =~= self.image_updates@);
            },
        }
        self.image_updates.append(block.as_str());
        self.total = self.total + 1;
    }

    /// The stream of upserts.
    pub fn metadata(&self) -> (text: &str)
        ensures
            text@ == self@.metadata,
    {
        self.metadata.as_str()
    }

    /// The stream of image updates.
    pub fn image_updates(&self) -> (text: &str)
        ensures
            text@ == self@.image_updates,
    {
        self.image_updates.as_str()
    }

    /// How many records were processed.
    pub fn total(&self) -> (n: usize)
        ensures
            n == self@.total,
    {
        self.total
    }

    /// How many records got an image.
    pub fn with_image(&self) -> (n: usize)
        ensures
            n == self@.with_image,
    {
        self.with_image
    }

    /// How many records went without an image.
    pub fn without_image(&self) -> (n: usize)
        ensures
            n == self@.without_image(),
    {
        if self.with_image <= self.total {
            self.total - self.with_image
        } else {
            0
        }
    }
}

} // verus!
