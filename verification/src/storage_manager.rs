//! The transfer layer: uploads to and downloads from transfer URLs, one
//! step at a time. The caller does the work that each step asks for (read a
//! file, send a request, write a file) and hands back what came of it.

use crate::paths::{parent, parent_dir};
use crate::remote::{TransferOutcome, TransferOutcomeView, TransferStatus};
use crate::text::{decimal, push_decimal};
use vstd::prelude::*;
use vstd::string::StringExecFns;

verus! {

/// What came of a request to a transfer URL.
#[derive(Debug, Clone, PartialEq, Eq)]
pub enum HttpReply {
    /// The server answered, with this status code and this text.
    Status { code: u16, body: String },
    /// No answer came.
    Unreachable { detail: String },
}

pub enum HttpReplyView {
    Status { code: u16, body: Seq<char> },
    Unreachable { detail: Seq<char> },
}

impl View for HttpReply {
    type V = HttpReplyView;

    open spec fn view(&self) -> HttpReplyView {
        match self {
            HttpReply::Status { code, body } => HttpReplyView::Status { code: *code, body: body@ },
            HttpReply::Unreachable { detail } => HttpReplyView::Unreachable { detail: detail@ },
        }
    }
}

/// How a transfer ended.
#[derive(Debug, Clone, PartialEq, Eq)]
pub enum TransferEnd {
    /// An upload was attempted and its report handed over, or a download
    /// is in place.
    Completed,
    /// The file to upload could not be read; nothing was sent.
    ReadFailed(String),
    /// The content to download did not arrive.
    FetchFailed(String),
    /// The downloaded content could not be put in place.
    StoreFailed(String),
    /// The transfer was handed something that it had not asked for.
    OutOfTurn,
}

pub enum TransferEndView {
    Completed,
    ReadFailed(Seq<char>),
    FetchFailed(Seq<char>),
    StoreFailed(Seq<char>),
    OutOfTurn,
}

impl View for TransferEnd {
    type V = TransferEndView;

    open spec fn view(&self) -> TransferEndView {
        match self {
            TransferEnd::Completed => TransferEndView::Completed,
            TransferEnd::ReadFailed(c) => TransferEndView::ReadFailed(c@),
            TransferEnd::FetchFailed(c) => TransferEndView::FetchFailed(c@),
            TransferEnd::StoreFailed(c) => TransferEndView::StoreFailed(c@),
            TransferEnd::OutOfTurn => TransferEndView::OutOfTurn,
        }
    }
}

/// Where a transfer stands: what it waits for.
#[derive(Debug, Clone, PartialEq, Eq)]
pub enum Transfer {
    /// Upload: the content of the file at `path`.
    Reading { url: String, path: String },
    /// Upload: the answer to the PUT.
    Putting { path: String },
    /// Upload: the report to the remote service to be sent.
    Reporting,
    /// Download: the body of the GET.
    Fetching { dest: String },
    /// Download: the directory that holds `dest` to exist.
    PreparingDirectory { dest: String, content: Vec<u8> },
    /// Download: the temporary file to be written.
    Writing { dest: String },
    /// Download: the temporary file to be moved to its place.
    Renaming,
    Finished,
}

pub enum TransferView {
    Reading { url: Seq<char>, path: Seq<char> },
    Putting { path: Seq<char> },
    Reporting,
    Fetching { dest: Seq<char> },
    PreparingDirectory { dest: Seq<char>, content: Seq<u8> },
    Writing { dest: Seq<char> },
    Renaming,
    Finished,
}

impl View for Transfer {
    type V = TransferView;

    open spec fn view(&self) -> TransferView {
        match self {
            Transfer::Reading { url, path } => TransferView::Reading { url: url@, path: path@ },
            Transfer::Putting { path } => TransferView::Putting { path: path@ },
            Transfer::Reporting => TransferView::Reporting,
            Transfer::Fetching { dest } => TransferView::Fetching { dest: dest@ },
            Transfer::PreparingDirectory { dest, content } => TransferView::PreparingDirectory {
                dest: dest@,
                content: content@,
            },
            Transfer::Writing { dest } => TransferView::Writing { dest: dest@ },
            Transfer::Renaming => TransferView::Renaming,
            Transfer::Finished => TransferView::Finished,
        }
    }
}

/// What came of the work that the last step asked for.
#[derive(Debug, Clone, PartialEq, Eq)]
pub enum TransferInput {
    /// The bytes of the file read, or of the body received.
    Content(Vec<u8>),
    /// What came of the PUT.
    Reply(HttpReply),
    /// The work was done.
    Done,
    /// The work failed, for this cause.
    Failed(String),
}

pub enum TransferInputView {
    Content(Seq<u8>),
    Reply(HttpReplyView),
    Done,
    Failed(Seq<char>),
}

impl View for TransferInput {
    type V = TransferInputView;

    open spec fn view(&self) -> TransferInputView {
        match self {
            TransferInput::Content(bytes) => TransferInputView::Content(bytes@),
            TransferInput::Reply(reply) => TransferInputView::Reply(reply@),
            TransferInput::Done => TransferInputView::Done,
            TransferInput::Failed(cause) => TransferInputView::Failed(cause@),
        }
    }
}

/// The work that a step asks of the caller.
#[derive(Debug, Clone, PartialEq, Eq)]
pub enum TransferAction {
    /// Read the whole file at `path`.
    ReadFile { path: String },
    /// Send `body` to `url` in one PUT.
    Put { url: String, body: Vec<u8> },
    /// Tell the remote service how the upload ended. Not to be retried:
    /// where the report cannot be delivered, that is for the log, and the
    /// upload ends as it would have.
    Report(TransferOutcome),
    /// Fetch `url` with a GET.
    Get { url: String },
    /// Create the directory at `path`, with those above it that are
    /// missing.
    CreateDirectories { path: String },
    /// Write `content` to the file at `path`, replacing what is there.
    WriteFile { path: String, content: Vec<u8> },
    /// Move the file at `from` to `to`, replacing what is there.
    Rename { from: String, to: String },
    /// Nothing is left to do.
    Finish(TransferEnd),
}

pub enum TransferActionView {
    ReadFile { path: Seq<char> },
    Put { url: Seq<char>, body: Seq<u8> },
    Report(TransferOutcomeView),
    Get { url: Seq<char> },
    CreateDirectories { path: Seq<char> },
    WriteFile { path: Seq<char>, content: Seq<u8> },
    Rename { from: Seq<char>, to: Seq<char> },
    Finish(TransferEndView),
}

impl View for TransferAction {
    type V = TransferActionView;

    open spec fn view(&self) -> TransferActionView {
        match self {
            TransferAction::ReadFile { path } => TransferActionView::ReadFile { path: path@ },
            TransferAction::Put { url, body } => TransferActionView::Put { url: url@, body: body@ },
            TransferAction::Report(outcome) => TransferActionView::Report(outcome@),
            TransferAction::Get { url } => TransferActionView::Get { url: url@ },
            TransferAction::CreateDirectories { path } => TransferActionView::CreateDirectories {
                path: path@,
            },
            TransferAction::WriteFile { path, content } => TransferActionView::WriteFile {
                path: path@,
                content: content@,
            },
            TransferAction::Rename { from, to } => TransferActionView::Rename { from: from@, to: to@ },
            TransferAction::Finish(end) => TransferActionView::Finish(end@),
        }
    }
}

/// Whether a status code says that the request succeeded.
pub open spec fn is_success(code: u16) -> bool {
    200 <= code <= 299
}

/// The message reported for an answer that is no success and has no text.
pub open spec fn status_message(code: u16) -> Seq<char> {
    "server responded with status code "@ + decimal(code as nat)
}

/// The message reported where no answer came and no cause is known.
pub open spec fn unreachable_message() -> Seq<char> {
    "failed to upload file"@
}

/// The report of the upload of `path` that ended with `reply`: a success
/// for a status code from 200 to 299, else a failure with a message that is
/// not empty: the text that came with the answer, or the cause, where there
/// is one.
pub open spec fn outcome_of(path: Seq<char>, reply: HttpReplyView) -> TransferOutcomeView {
    match reply {
        HttpReplyView::Status { code, body } => if is_success(code) {
            TransferOutcomeView { path, status: TransferStatus::Success, message: None }
        } else {
            TransferOutcomeView {
                path,
                status: TransferStatus::Failure,
                message: Some(
                    if body.len() > 0 {
                        body
                    } else {
                        status_message(code)
                    },
                ),
            }
        },
        HttpReplyView::Unreachable { detail } => TransferOutcomeView {
            path,
            status: TransferStatus::Failure,
            message: Some(
                if detail.len() > 0 {
                    detail
                } else {
                    unreachable_message()
                },
            ),
        },
    }
}

/// The suffix of the file that a download is written to before it is moved
/// to its place.
pub open spec fn partial_suffix() -> Seq<char> {
    ".part"@
}

/// The path that the content for `dest` is written to first.
pub open spec fn partial_path(dest: Seq<char>) -> Seq<char> {
    dest + partial_suffix()
}

/// The step of a download whose content has arrived: the directory that
/// holds `dest` is asked for first; where `dest` has none, or the empty
/// one, the content is written at once.
pub open spec fn store(dest: Seq<char>, content: Seq<u8>) -> (TransferView, TransferActionView) {
    match parent_dir(dest) {
        Some(dir) if dir.len() > 0 => (
            TransferView::PreparingDirectory { dest, content },
            TransferActionView::CreateDirectories { path: dir },
        ),
        _ => (
            TransferView::Writing { dest },
            TransferActionView::WriteFile { path: partial_path(dest), content },
        ),
    }
}

/// The first step of an upload of the file at `path` to `url`.
pub open spec fn upload_start(url: Seq<char>, path: Seq<char>) -> (TransferView, TransferActionView) {
    (TransferView::Reading { url, path }, TransferActionView::ReadFile { path })
}

/// The first step of a download of `url` to the file at `dest`.
pub open spec fn download_start(url: Seq<char>, dest: Seq<char>) -> (
    TransferView,
    TransferActionView,
) {
    (TransferView::Fetching { dest }, TransferActionView::Get { url })
}

/// The step that a transfer takes on an input: where it stands afterwards,
/// and what it asks for.
pub open spec fn next(state: TransferView, input: TransferInputView) -> (
    TransferView,
    TransferActionView,
) {
    match (state, input) {
        (TransferView::Reading { url, path }, TransferInputView::Content(body)) => (
            TransferView::Putting { path },
            TransferActionView::Put { url, body },
        ),
        (TransferView::Reading { url, path }, TransferInputView::Failed(cause)) => (
            TransferView::Finished,
            TransferActionView::Finish(TransferEndView::ReadFailed(cause)),
        ),
        (TransferView::Putting { path }, TransferInputView::Reply(reply)) => (
            TransferView::Reporting,
            TransferActionView::Report(outcome_of(path, reply)),
        ),
        (TransferView::Putting { path }, TransferInputView::Failed(cause)) => (
            TransferView::Reporting,
            TransferActionView::Report(
                outcome_of(path, HttpReplyView::Unreachable { detail: cause }),
            ),
        ),
        (TransferView::Reporting, TransferInputView::Done)
        | (TransferView::Reporting, TransferInputView::Failed(_)) => (
            TransferView::Finished,
            TransferActionView::Finish(TransferEndView::Completed),
        ),
        (TransferView::Fetching { dest }, TransferInputView::Content(content)) => store(
            dest,
            content,
        ),
        (TransferView::Fetching { dest }, TransferInputView::Failed(cause)) => (
            TransferView::Finished,
            TransferActionView::Finish(TransferEndView::FetchFailed(cause)),
        ),
        (TransferView::PreparingDirectory { dest, content }, TransferInputView::Done) => (
            TransferView::Writing { dest },
            TransferActionView::WriteFile { path: partial_path(dest), content },
        ),
        (TransferView::Writing { dest }, TransferInputView::Done) => (
            TransferView::Renaming,
            TransferActionView::Rename { from: partial_path(dest), to: dest },
        ),
        (TransferView::Renaming, TransferInputView::Done) => (
            TransferView::Finished,
            TransferActionView::Finish(TransferEndView::Completed),
        ),
        (TransferView::PreparingDirectory { .. }, TransferInputView::Failed(cause))
        | (TransferView::Writing { .. }, TransferInputView::Failed(cause))
        | (TransferView::Renaming, TransferInputView::Failed(cause)) => (
            TransferView::Finished,
            TransferActionView::Finish(TransferEndView::StoreFailed(cause)),
        ),
        _ => (TransferView::Finished, TransferActionView::Finish(TransferEndView::OutOfTurn)),
    }
}

/// Starts transfers and says what to report of an upload.
#[derive(Debug, Clone, Copy, PartialEq, Eq)]
pub struct StorageManager {}

impl StorageManager {
    /// The transfer layer. It holds nothing: each transfer stands for
    /// itself.
    pub fn init() -> (r: Self) {
        StorageManager {}
    }

    /// Begins the upload of the file at `path` to `url`: the transfer, and
    /// the first work that it asks for.
    pub fn upload(&self, url: &str, path: &str) -> (r: (Transfer, TransferAction))
        ensures
            (r.0@, r.1@) == upload_start(url@, path@),
    {
        (
            Transfer::Reading { url: String::from_str(url), path: String::from_str(path) },
            TransferAction::ReadFile { path: String::from_str(path) },
        )
    }

    /// Begins the download of `url` to the file at `path`.
    pub fn download(&self, url: &str, path: &str) -> (r: (Transfer, TransferAction))
        ensures
            (r.0@, r.1@) == download_start(url@, path@),
    {
        (
            Transfer::Fetching { dest: String::from_str(path) },
            TransferAction::Get { url: String::from_str(url) },
        )
    }

    /// The report owed to the remote service for the upload of `path` that
    /// ended with `reply`.
    pub fn notify(&self, path: String, reply: HttpReply) -> (r: TransferOutcome)
        ensures
            r@ == outcome_of(path@, reply@),
    {
        match reply {
            HttpReply::Status { code, body } => {
                if 200 <= code && code <= 299 {
                    TransferOutcome { path, status: TransferStatus::Success, message: None }
                } else if body.as_str().unicode_len() > 0 {
                    TransferOutcome { path, status: TransferStatus::Failure, message: Some(body) }
                } else {
                    let mut text = String::from_str("server responded with status code ");
                    push_decimal(&mut text, code as u64);
                    TransferOutcome { path, status: TransferStatus::Failure, message: Some(text) }
                }
            },
            HttpReply::Unreachable { detail } => {
                let text = if detail.as_str().unicode_len() > 0 {
                    detail
                } else {
                    String::from_str("failed to upload file")
                };
                TransferOutcome { path, status: TransferStatus::Failure, message: Some(text) }
            },
        }
    }
}

impl Transfer {
    /// Whether nothing is left to do.
    pub fn is_finished(&self) -> (r: bool)
        ensures
            r == (self@ is Finished),
    {
        match self {
            Transfer::Finished => true,
            _ => false,
        }
    }

    /// The step that has `content` written beside `dest`.
    fn write_aside(dest: String, content: Vec<u8>) -> (r: (Transfer, TransferAction))
        ensures
            r.0@ == (TransferView::Writing { dest: dest@ }),
            r.1@ == (TransferActionView::WriteFile { path: partial_path(dest@), content: content@ }),
    {
        let mut path = dest.clone();
        path.append(".part");
        (Transfer::Writing { dest }, TransferAction::WriteFile { path, content })
    }

    /// Takes what came of the work last asked for, and gives where the
    /// transfer stands now and the work that it asks for next.
    pub fn advance(self, input: TransferInput) -> (r: (Transfer, TransferAction))
        ensures
            (r.0@, r.1@) == next(self@, input@),
    {
        match (self, input) {
            (Transfer::Reading { url, path }, TransferInput::Content(body)) => (
                Transfer::Putting { path },
                TransferAction::Put { url, body },
            ),
            (Transfer::Reading { url, path }, TransferInput::Failed(cause)) => (
                Transfer::Finished,
                TransferAction::Finish(TransferEnd::ReadFailed(cause)),
            ),
            (Transfer::Putting { path }, TransferInput::Reply(reply)) => (
                Transfer::Reporting,
                TransferAction::Report(StorageManager::init().notify(path, reply)),
            ),
            (Transfer::Putting { path }, TransferInput::Failed(cause)) => (
                Transfer::Reporting,
                TransferAction::Report(
                    StorageManager::init().notify(path, HttpReply::Unreachable { detail: cause }),
                ),
            ),
            (Transfer::Reporting, TransferInput::Done) => (
                Transfer::Finished,
                TransferAction::Finish(TransferEnd::Completed),
            ),
            (Transfer::Reporting, TransferInput::Failed(_)) => (
                Transfer::Finished,
                TransferAction::Finish(TransferEnd::Completed),
            ),
            (Transfer::Fetching { dest }, TransferInput::Content(content)) => {
                match parent(dest.as_str()) {
                    Some(dir) => {
                        if dir.as_str().unicode_len() > 0 {
                            (
                                Transfer::PreparingDirectory { dest, content },
                                TransferAction::CreateDirectories { path: dir },
                            )
                        } else {
                            Transfer::write_aside(dest, content)
                        }
                    },
                    None => Transfer::write_aside(dest, content),
                }
            },
            (Transfer::Fetching { dest }, TransferInput::Failed(cause)) => (
                Transfer::Finished,
                TransferAction::Finish(TransferEnd::FetchFailed(cause)),
            ),
            (Transfer::PreparingDirectory { dest, content }, TransferInput::Done) => {
                Transfer::write_aside(dest, content)
            },
            (Transfer::Writing { dest }, TransferInput::Done) => {
                let mut from = dest.clone();
                from.append(".part");
                (Transfer::Renaming, TransferAction::Rename { from, to: dest })
            },
            (Transfer::Renaming, TransferInput::Done) => (
                Transfer::Finished,
                TransferAction::Finish(TransferEnd::Completed),
            ),
            (Transfer::PreparingDirectory { .. }, TransferInput::Failed(cause)) => (
                Transfer::Finished,
                TransferAction::Finish(TransferEnd::StoreFailed(cause)),
            ),
            (Transfer::Writing { .. }, TransferInput::Failed(cause)) => (
                Transfer::Finished,
                TransferAction::Finish(TransferEnd::StoreFailed(cause)),
            ),
            (Transfer::Renaming, TransferInput::Failed(cause)) => (
                Transfer::Finished,
                TransferAction::Finish(TransferEnd::StoreFailed(cause)),
            ),
            _ => (Transfer::Finished, TransferAction::Finish(TransferEnd::OutOfTurn)),
        }
    }
}

/// The work that a transfer asks for, step by step, as it is handed
/// `inputs` one after the other.
pub open spec fn run(state: TransferView, inputs: Seq<TransferInputView>) -> Seq<
    TransferActionView,
>
    decreases inputs.len(),
{
    if inputs.len() == 0 {
        Seq::empty()
    } else {
        let (after, action) = next(state, inputs[0]);
        seq![action] + run(after, inputs.drop_first())
    }
}

/// How many of `actions` are reports to the remote service.
pub open spec fn reports(actions: Seq<TransferActionView>) -> nat
    decreases actions.len(),
{
    if actions.len() == 0 {
        0
    } else if actions[0] is Report {
        1 + reports(actions.drop_first())
    } else {
        reports(actions.drop_first())
    }
}

/// Whether an upload stands before its attempt: a report is still owed.
pub open spec fn before_attempt(state: TransferView) -> bool {
    state is Reading || state is Putting
}

/// The reports of a run are that of its first step and those of the rest.
pub proof fn lemma_reports_step(state: TransferView, inputs: Seq<TransferInputView>)
    requires
        inputs.len() > 0,
    ensures
        reports(run(state, inputs)) == (if next(state, inputs[0]).1 is Report {
            1nat
        } else {
            0nat
        }) + reports(run(next(state, inputs[0]).0, inputs.drop_first())),
{
    let (after, action) = next(state, inputs[0]);
    let rest = run(after, inputs.drop_first());
    assert((seq![action] + rest).drop_first() =~= rest);
}

/// A transfer that is past its attempt, or that is a download, asks for no
/// report, whatever it is handed.
pub proof fn lemma_no_further_report(state: TransferView, inputs: Seq<TransferInputView>)
    requires
        !before_attempt(state),
    ensures
        reports(run(state, inputs)) == 0,
    decreases inputs.len(),
{
    if inputs.len() > 0 {
        lemma_reports_step(state, inputs);
        lemma_no_further_report(next(state, inputs[0]).0, inputs.drop_first());
    }
}

/// No transfer reports more than once.
pub proof fn lemma_at_most_one_report(state: TransferView, inputs: Seq<TransferInputView>)
    ensures
        reports(run(state, inputs)) <= 1,
    decreases inputs.len(),
{
    if inputs.len() > 0 {
        let (after, action) = next(state, inputs[0]);
        lemma_reports_step(state, inputs);
        if action is Report {
            lemma_no_further_report(after, inputs.drop_first());
        } else {
            lemma_at_most_one_report(after, inputs.drop_first());
        }
    }
}

/// What the end of a PUT says of the request: the answer that came, or
/// that none came, with the cause.
pub open spec fn reply_of(ended: TransferInputView) -> HttpReplyView
    recommends
        ended is Reply || ended is Failed,
{
    match ended {
        TransferInputView::Reply(reply) => reply,
        TransferInputView::Failed(cause) => HttpReplyView::Unreachable { detail: cause },
        _ => HttpReplyView::Unreachable { detail: Seq::empty() },
    }
}

/// Every upload attempt is reported exactly once. Once the file was read
/// and the PUT has ended, with an answer or without one, the transfer
/// asks for one report, at that step, and for no other whatever follows.
/// The report is a success exactly for a status code from 200 to 299; a
/// failure carries a message that is not empty.
pub proof fn lemma_upload_reported_once(
    url: Seq<char>,
    path: Seq<char>,
    content: Seq<u8>,
    ended: TransferInputView,
    rest: Seq<TransferInputView>,
)
    requires
        ended is Reply || ended is Failed,
    ensures
        ({
            let inputs = seq![TransferInputView::Content(content), ended] + rest;
            let actions = run(upload_start(url, path).0, inputs);
            let outcome = outcome_of(path, reply_of(ended));
            &&& reports(actions) == 1
            &&& actions[0] == (TransferActionView::Put { url, body: content })
            &&& actions[1] == TransferActionView::Report(outcome)
            &&& outcome.path == path
            &&& outcome.status == TransferStatus::Success <==> (ended matches TransferInputView::Reply(
                HttpReplyView::Status { code, .. },
            ) && is_success(code))
            &&& outcome.status == TransferStatus::Success ==> outcome.message is None
            &&& outcome.status == TransferStatus::Failure ==> (outcome.message matches Some(m)
                && m.len() > 0)
        }),
{
    let inputs = seq![TransferInputView::Content(content), ended] + rest;
    let start = upload_start(url, path).0;
    let putting = next(start, inputs[0]).0;
    let tail = inputs.drop_first();
    let reporting = next(putting, tail[0]).0;
    assert(tail.drop_first() =~= rest);
    lemma_reports_step(start, inputs);
    lemma_reports_step(putting, tail);
    lemma_no_further_report(reporting, rest);
    lemma_message_not_empty(path, reply_of(ended));
}

/// How the report ends does not decide how the upload ends. Once the
/// report was asked for, the transfer is completed whether the report was
/// delivered or not, and a report that was not delivered is not asked for
/// again.
pub proof fn lemma_report_does_not_decide(
    url: Seq<char>,
    path: Seq<char>,
    content: Seq<u8>,
    ended: TransferInputView,
    reported: TransferInputView,
    rest: Seq<TransferInputView>,
)
    requires
        ended is Reply || ended is Failed,
        reported is Done || reported is Failed,
    ensures
        ({
            let inputs = seq![TransferInputView::Content(content), ended, reported] + rest;
            let actions = run(upload_start(url, path).0, inputs);
            &&& actions[1] is Report
            &&& actions[2] == TransferActionView::Finish(TransferEndView::Completed)
            &&& reports(actions) == 1
        }),
        next(TransferView::Reporting, reported) == (
            TransferView::Finished,
            TransferActionView::Finish(TransferEndView::Completed),
        ),
{
    let inputs = seq![TransferInputView::Content(content), ended, reported] + rest;
    let start = upload_start(url, path).0;
    let putting = next(start, inputs[0]).0;
    let two = inputs.drop_first();
    let reporting = next(putting, two[0]).0;
    let one = two.drop_first();
    assert(one[0] == reported);
    assert(one.drop_first() =~= rest);
    assert(seq![TransferInputView::Content(content), ended] + (seq![reported] + rest) =~= inputs);
    lemma_upload_reported_once(url, path, content, ended, seq![reported] + rest);
    assert(run(reporting, one)[0] == TransferActionView::Finish(TransferEndView::Completed));
    assert(run(putting, two)[1] == run(reporting, one)[0]);
    assert(run(start, inputs)[2] == run(putting, two)[1]);
}

/// The message of a reported failure is not empty.
pub proof fn lemma_message_not_empty(path: Seq<char>, reply: HttpReplyView)
    ensures
        outcome_of(path, reply).status == TransferStatus::Failure ==> (outcome_of(
            path,
            reply,
        ).message matches Some(m) && m.len() > 0),
{
    reveal_strlit("server responded with status code ");
    reveal_strlit("failed to upload file");
}

/// Nothing is tried twice: a transfer never goes back to reading the file
/// or to fetching the content, so an upload sends at most one PUT, and
/// only with the content that was read, and no step of a transfer asks for
/// a second GET.
pub proof fn lemma_no_retry(state: TransferView, input: TransferInputView)
    ensures
        !(next(state, input).0 is Reading),
        !(next(state, input).0 is Fetching),
        !(next(state, input).1 is ReadFile),
        !(next(state, input).1 is Get),
        next(state, input).1 matches TransferActionView::Put { url, body } ==> (state matches TransferView::Reading {
            url: to,
            ..
        } && to == url && input == TransferInputView::Content(body)),
        state is Finished ==> next(state, input) == (
            TransferView::Finished,
            TransferActionView::Finish(TransferEndView::OutOfTurn),
        ),
{
}

/// The destination of a download that still has its content to write.
pub open spec fn destination(state: TransferView) -> Option<Seq<char>> {
    match state {
        TransferView::Fetching { dest } => Some(dest),
        TransferView::PreparingDirectory { dest, .. } => Some(dest),
        TransferView::Writing { dest } => Some(dest),
        _ => None,
    }
}

/// A download never writes to its destination: the content goes to the
/// partial path, which differs from the destination, and only a rename
/// touches the destination. The directory asked for is the one that holds
/// the destination.
pub proof fn lemma_download_writes_aside(state: TransferView, input: TransferInputView)
    ensures
        next(state, input).1 matches TransferActionView::WriteFile { path, .. } ==> (destination(
            state,
        ) matches Some(dest) && path == partial_path(dest) && path != dest && next(state, input).0
            == (TransferView::Writing { dest })),
        next(state, input).1 matches TransferActionView::Rename { from, to } ==> (state matches TransferView::Writing {
            dest,
        } && from == partial_path(dest) && to == dest),
        next(state, input).1 matches TransferActionView::CreateDirectories { path } ==> (state matches TransferView::Fetching {
            dest,
        } && parent_dir(dest) == Some(path) && path.len() > 0),
{
    reveal_strlit(".part");
    if let Some(dest) = destination(state) {
        assert(partial_path(dest).len() == dest.len() + 5);
    }
}

} // verus!
