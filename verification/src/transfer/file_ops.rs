//! Decisions taken while a file is uploaded or downloaded over a data
//! connection: the steps of an upload, how often a transient error is
//! retried, the upload size limit, and the reply each way of ending gives.
use crate::protocol::commands::{CommandStatus, StatusView};
use crate::text::{chars_of, decimal, decimal_chars, extend_chars, string_from_chars};
use vstd::prelude::*;

verus! {

/// How many times a transient read or write error is retried.
pub const MAX_RETRIES: usize = 3;

/// The size of the chunks a transfer moves at a time.
pub const BUFFER_SIZE: usize = 8192;

/// The pause, in milliseconds, before retrying a transient error after
/// `retries` earlier retries of the same chunk: `100 * (retries + 1)` while
/// retries are left, none when the error stands.
pub fn transient_retry_delay_ms(retries: usize) -> (d: Option<u64>)
    ensures
        d == (if retries < MAX_RETRIES {
            Some((100 * (retries + 1)) as u64)
        } else {
            None
        }),
{
    if retries < MAX_RETRIES {
        Some(100 * (retries as u64 + 1))
    } else {
        None
    }
}

/// Bytes per MiB.
pub const BYTES_PER_MB: u64 = 1048576;

/// The upload limit in bytes for a limit of `max_mb` MiB, capped at the
/// largest byte count a transfer can record.
pub open spec fn limit_bytes(max_mb: u64) -> u64 {
    if max_mb * 1048576 <= u64::MAX {
        (max_mb * 1048576) as u64
    } else {
        u64::MAX
    }
}

fn limit_bytes_of(max_mb: u64) -> (b: u64)
    ensures
        b == limit_bytes(max_mb),
{
    if max_mb <= u64::MAX / BYTES_PER_MB {
        max_mb * BYTES_PER_MB
    } else {
        u64::MAX
    }
}

/// Accounts for a chunk of `n` bytes received during an upload that has
/// received `total` bytes so far, against a limit of `limit` bytes: the new
/// total, or none when it would exceed the limit (the upload is then
/// refused).
pub fn accept_upload_chunk(total: u64, n: usize, limit: u64) -> (r: Option<u64>)
    ensures
        r == (if total + n > limit {
            None
        } else {
            Some((total + n) as u64)
        }),
        r matches Some(t) ==> t <= limit,
{
    if total > limit || n as u64 > limit - total {
        None
    } else {
        Some(total + n as u64)
    }
}

/// How an upload ended.
#[derive(Debug, Clone, Copy, PartialEq, Eq, Structural)]
pub enum UploadEnd {
    /// The temporary file could not be created.
    CreateFailed,
    /// Reading from the data connection failed after all retries.
    ReadFailed,
    /// The upload grew beyond the size limit, in MiB.
    TooLarge(u64),
    /// Writing to the temporary file failed.
    WriteFailed,
    /// Flushing the temporary file failed.
    FlushFailed,
    /// Moving the temporary file into place failed.
    RenameFailed,
    /// The file is in place.
    Completed,
}

/// Where an upload stands. The data is written to a temporary file, which
/// is moved into place only once everything has been received and flushed.
#[derive(Debug, Clone, Copy, PartialEq, Eq, Structural)]
pub enum UploadState {
    /// The temporary file is being created.
    Creating { max_mb: u64 },
    /// A chunk is being read from the data connection, after `retries`
    /// retries of this chunk; `received` bytes are in the temporary file.
    Receiving { max_mb: u64, received: u64, retries: usize },
    /// A chunk is being written to the temporary file; `received` counts it.
    Writing { max_mb: u64, received: u64 },
    /// The temporary file is being flushed.
    Flushing,
    /// The temporary file is being moved into place.
    Renaming,
    /// The upload is over.
    Finished,
}

/// What came of the last action of an upload.
#[derive(Debug, Clone, Copy, PartialEq, Eq, Structural)]
pub enum UploadEvent {
    /// Whether the temporary file was created.
    Created(bool),
    /// The number of bytes read (zero at the end of the data), or none when
    /// the read failed.
    Read(Option<usize>),
    /// Whether the chunk was written to the temporary file.
    Written(bool),
    /// Whether the temporary file was flushed.
    Flushed(bool),
    /// Whether the temporary file was moved into place.
    Renamed(bool),
}

/// What an upload does next.
#[derive(Debug, Clone, Copy, PartialEq, Eq, Structural)]
pub enum UploadAction {
    /// Read the next chunk from the data connection.
    Read,
    /// Wait this many milliseconds, then read the chunk again.
    RetryAfter(u64),
    /// Write the chunk just read, of this many bytes, to the temporary file.
    Write(usize),
    /// Flush the temporary file.
    Flush,
    /// Move the temporary file into place.
    Rename,
    /// Remove the temporary file and end the upload.
    RemoveTempAndEnd(UploadEnd),
    /// End the upload; no temporary file is left.
    End(UploadEnd),
}

/// An upload with a limit of `max_mb` MiB, before its temporary file is
/// created.
pub open spec fn upload_start(max_mb: u64) -> UploadState {
    UploadState::Creating { max_mb }
}

/// Whether `event` answers the action that led to `state`.
pub open spec fn upload_event_fits(state: UploadState, event: UploadEvent) -> bool {
    match state {
        UploadState::Creating { .. } => event is Created,
        UploadState::Receiving { .. } => event is Read,
        UploadState::Writing { .. } => event is Written,
        UploadState::Flushing => event is Flushed,
        UploadState::Renaming => event is Renamed,
        UploadState::Finished => false,
    }
}

/// The next state and action of an upload, for an event that
/// [`upload_event_fits`] the state (other pairs are never stepped).
pub open spec fn upload_next(state: UploadState, event: UploadEvent) -> (UploadState, UploadAction) {
    match (state, event) {
        (UploadState::Creating { max_mb }, UploadEvent::Created(ok)) => if ok {
            (UploadState::Receiving { max_mb, received: 0, retries: 0 }, UploadAction::Read)
        } else {
            (UploadState::Finished, UploadAction::End(UploadEnd::CreateFailed))
        },
        (UploadState::Receiving { max_mb, received, retries }, UploadEvent::Read(got)) => match got {
            None => if retries < MAX_RETRIES {
                (
                    UploadState::Receiving { max_mb, received, retries: (retries + 1) as usize },
                    UploadAction::RetryAfter((100 * (retries + 1)) as u64),
                )
            } else {
                (UploadState::Finished, UploadAction::RemoveTempAndEnd(UploadEnd::ReadFailed))
            },
            Some(n) => if n == 0 {
                (UploadState::Flushing, UploadAction::Flush)
            } else if received + n > limit_bytes(max_mb) {
                (UploadState::Finished, UploadAction::RemoveTempAndEnd(UploadEnd::TooLarge(max_mb)))
            } else {
                (
                    UploadState::Writing { max_mb, received: (received + n) as u64 },
                    UploadAction::Write(n),
                )
            },
        },
        (UploadState::Writing { max_mb, received }, UploadEvent::Written(ok)) => if ok {
            (UploadState::Receiving { max_mb, received, retries: 0 }, UploadAction::Read)
        } else {
            (UploadState::Finished, UploadAction::RemoveTempAndEnd(UploadEnd::WriteFailed))
        },
        (UploadState::Flushing, UploadEvent::Flushed(ok)) => if ok {
            (UploadState::Renaming, UploadAction::Rename)
        } else {
            (UploadState::Finished, UploadAction::RemoveTempAndEnd(UploadEnd::FlushFailed))
        },
        (UploadState::Renaming, UploadEvent::Renamed(ok)) => if ok {
            (UploadState::Finished, UploadAction::End(UploadEnd::Completed))
        } else {
            (UploadState::Finished, UploadAction::RemoveTempAndEnd(UploadEnd::RenameFailed))
        },
        _ => (state, UploadAction::End(UploadEnd::CreateFailed)),
    }
}

/// The state of an upload with a limit of `max_mb` MiB, before its
/// temporary file is created; the caller creates it and reports `Created`.
pub fn upload_begin(max_mb: u64) -> (s: UploadState)
    ensures
        s == upload_start(max_mb),
{
    UploadState::Creating { max_mb }
}

/// Takes one step of an upload: given where it stands and what came of the
/// last action, where it stands next and what to do.
pub fn upload_step(state: UploadState, event: UploadEvent) -> (r: (UploadState, UploadAction))
    requires
        upload_event_fits(state, event),
    ensures
        r == upload_next(state, event),
{
    match (state, event) {
        (UploadState::Creating { max_mb }, UploadEvent::Created(ok)) => if ok {
            (UploadState::Receiving { max_mb, received: 0, retries: 0 }, UploadAction::Read)
        } else {
            (UploadState::Finished, UploadAction::End(UploadEnd::CreateFailed))
        },
        (UploadState::Receiving { max_mb, received, retries }, UploadEvent::Read(got)) => match got {
            None => match transient_retry_delay_ms(retries) {
                Some(ms) => (
                    UploadState::Receiving { max_mb, received, retries: retries + 1 },
                    UploadAction::RetryAfter(ms),
                ),
                None => (UploadState::Finished, UploadAction::RemoveTempAndEnd(UploadEnd::ReadFailed)),
            },
            Some(n) => if n == 0 {
                (UploadState::Flushing, UploadAction::Flush)
            } else {
                match accept_upload_chunk(received, n, limit_bytes_of(max_mb)) {
                    None => (
                        UploadState::Finished,
                        UploadAction::RemoveTempAndEnd(UploadEnd::TooLarge(max_mb)),
                    ),
                    Some(t) => (UploadState::Writing { max_mb, received: t }, UploadAction::Write(n)),
                }
            },
        },
        (UploadState::Writing { max_mb, received }, UploadEvent::Written(ok)) => if ok {
            (UploadState::Receiving { max_mb, received, retries: 0 }, UploadAction::Read)
        } else {
            (UploadState::Finished, UploadAction::RemoveTempAndEnd(UploadEnd::WriteFailed))
        },
        (UploadState::Flushing, UploadEvent::Flushed(ok)) => if ok {
            (UploadState::Renaming, UploadAction::Rename)
        } else {
            (UploadState::Finished, UploadAction::RemoveTempAndEnd(UploadEnd::FlushFailed))
        },
        (UploadState::Renaming, UploadEvent::Renamed(ok)) => if ok {
            (UploadState::Finished, UploadAction::End(UploadEnd::Completed))
        } else {
            (UploadState::Finished, UploadAction::RemoveTempAndEnd(UploadEnd::RenameFailed))
        },
        _ => (state, UploadAction::End(UploadEnd::CreateFailed)),
    }
}

/// Whether an upload state is one in which the temporary file exists.
pub open spec fn temp_exists(state: UploadState) -> bool {
    !(state is Creating) && !(state is Finished)
}

/// The temporary file is moved into place exactly when it has been flushed
/// after the whole upload was received; the upload completes only once it
/// is in place; every failure after the temporary file exists removes it,
/// and a step that ends the upload leaves it finished. No upload receives
/// more than its limit.
pub proof fn law_upload_is_atomic(state: UploadState, event: UploadEvent)
    requires
        upload_event_fits(state, event),
    ensures
        ({
            let (next, action) = upload_next(state, event);
            &&& (action is Rename <==> (state is Flushing && event == UploadEvent::Flushed(true)))
            &&& (action == UploadAction::End(UploadEnd::Completed) <==> (state is Renaming
                && event == UploadEvent::Renamed(true)))
            &&& (action matches UploadAction::End(e) ==> e == UploadEnd::Completed || !temp_exists(
                state,
            ))
            &&& (temp_exists(state) && (action is End || action is RemoveTempAndEnd) && !(
            action == UploadAction::End(UploadEnd::Completed)) ==> action is RemoveTempAndEnd)
            &&& ((action is End || action is RemoveTempAndEnd) <==> next is Finished)
            &&& (next matches UploadState::Writing { max_mb, received } ==> received <= limit_bytes(
                max_mb,
            ))
        }),
{
}

/// How a download ended.
#[derive(Debug, Clone, Copy, PartialEq, Eq, Structural)]
pub enum DownloadEnd {
    /// The file could not be opened.
    OpenFailed,
    /// Reading the file failed.
    ReadFailed,
    /// Writing to the data connection failed after all retries.
    WriteFailed,
    /// Flushing the data connection failed.
    FlushFailed,
    /// The whole file was sent.
    Completed,
}

/// The status and reply line of a transfer outcome.
pub type TransferReply = (CommandStatus, String);

/// The view of a transfer outcome.
pub open spec fn transfer_reply_view(r: Result<TransferReply, TransferReply>) -> Result<
    (StatusView, Seq<char>),
    (StatusView, Seq<char>),
> {
    match r {
        Ok((s, m)) => Ok((s@, m@)),
        Err((s, m)) => Err((s@, m@)),
    }
}

/// A failure whose status reason is the reply line without its CRLF.
pub open spec fn failed_with(line: Seq<char>) -> Result<(StatusView, Seq<char>), (StatusView, Seq<char>)> {
    Err((StatusView::Failure(line), line + seq!['\r', '\n']))
}

/// The outcome an upload's end gives.
pub open spec fn upload_outcome_spec(end: UploadEnd) -> Result<(StatusView, Seq<char>), (StatusView, Seq<char>)> {
    match end {
        UploadEnd::CreateFailed => failed_with("550 Cannot create file"@),
        UploadEnd::ReadFailed => failed_with("426 Connection closed; transfer aborted"@),
        UploadEnd::TooLarge(mb) => Err((
            StatusView::Failure("552 Insufficient storage space"@),
            "552 Insufficient storage space (file too large, max "@ + decimal(mb as nat) + "MB)\r\n"@,
        )),
        UploadEnd::WriteFailed => failed_with("552 Insufficient storage space"@),
        UploadEnd::FlushFailed => failed_with("450 Requested file action not taken"@),
        UploadEnd::RenameFailed => failed_with("450 Requested file action not taken"@),
        UploadEnd::Completed => Ok((StatusView::Success, "226 Transfer complete\r\n"@)),
    }
}

/// The outcome a download's end gives.
pub open spec fn download_outcome_spec(end: DownloadEnd) -> Result<(StatusView, Seq<char>), (StatusView, Seq<char>)> {
    match end {
        DownloadEnd::OpenFailed => failed_with("550 Failed to open file"@),
        DownloadEnd::ReadFailed => failed_with("451 Requested action aborted"@),
        DownloadEnd::WriteFailed => failed_with("426 Connection closed; transfer aborted"@),
        DownloadEnd::FlushFailed => failed_with("450 Requested file action not taken"@),
        DownloadEnd::Completed => Ok((StatusView::Success, "226 Transfer complete\r\n"@)),
    }
}

fn fail_line(line: &str) -> (r: Result<TransferReply, TransferReply>)
    ensures
        transfer_reply_view(r) == failed_with(line@),
{
    let mut m = chars_of(line);
    m.push('\r');
    m.push('\n');
    assert(m@ =~= line@ + seq!['\r', '\n']);
    Err((CommandStatus::Failure(string_from_chars(&chars_of(line))), string_from_chars(&m)))
}

/// The status and reply line an upload ends with.
pub fn handle_file_upload(end: UploadEnd) -> (r: Result<TransferReply, TransferReply>)
    ensures
        transfer_reply_view(r) == upload_outcome_spec(end),
{
    match end {
        UploadEnd::CreateFailed => fail_line("550 Cannot create file"),
        UploadEnd::ReadFailed => fail_line("426 Connection closed; transfer aborted"),
        UploadEnd::TooLarge(mb) => {
            let mut m = chars_of("552 Insufficient storage space (file too large, max ");
            extend_chars(&mut m, &decimal_chars(mb));
            extend_chars(&mut m, &chars_of("MB)\r\n"));
            Err((
                CommandStatus::Failure(string_from_chars(&chars_of("552 Insufficient storage space"))),
                string_from_chars(&m),
            ))
        },
        UploadEnd::WriteFailed => fail_line("552 Insufficient storage space"),
        UploadEnd::FlushFailed => fail_line("450 Requested file action not taken"),
        UploadEnd::RenameFailed => fail_line("450 Requested file action not taken"),
        UploadEnd::Completed => Ok((CommandStatus::Success, string_from_chars(&chars_of("226 Transfer complete\r\n")))),
    }
}

/// The status and reply line a download ends with.
pub fn handle_file_download(end: DownloadEnd) -> (r: Result<TransferReply, TransferReply>)
    ensures
        transfer_reply_view(r) == download_outcome_spec(end),
{
    match end {
        DownloadEnd::OpenFailed => fail_line("550 Failed to open file"),
        DownloadEnd::ReadFailed => fail_line("451 Requested action aborted"),
        DownloadEnd::WriteFailed => fail_line("426 Connection closed; transfer aborted"),
        DownloadEnd::FlushFailed => fail_line("450 Requested file action not taken"),
        DownloadEnd::Completed => Ok((CommandStatus::Success, string_from_chars(&chars_of("226 Transfer complete\r\n")))),
    }
}

} // verus!
