//! The replies of file transfers in the lite server.
use crate::lite::command::CommandStatus;
use crate::lite::handlers::LiteTransferReply;
use crate::protocol::commands::StatusView;
use crate::text::{chars_of, string_from_chars};
use vstd::prelude::*;

verus! {

/// How an upload of the lite server ended.
#[derive(Debug, Clone, Copy, PartialEq, Eq, Structural)]
pub enum LiteUploadEnd {
    /// The file could not be created.
    CreateFailed,
    /// Writing to the file failed.
    WriteFailed,
    /// Reading from the data connection failed.
    ReadFailed,
    /// Flushing the file failed.
    FlushFailed,
    /// The whole file was received.
    Completed,
}

/// How a download of the lite server ended.
#[derive(Debug, Clone, Copy, PartialEq, Eq, Structural)]
pub enum LiteDownloadEnd {
    /// The file could not be opened.
    OpenFailed,
    /// Reading the file failed.
    ReadFailed,
    /// Writing to the data connection failed.
    WriteFailed,
    /// Flushing the data connection failed.
    FlushFailed,
    /// The whole file was sent.
    Completed,
}

/// The view of a transfer outcome.
pub open spec fn lite_transfer_view(r: Result<LiteTransferReply, LiteTransferReply>) -> Result<
    (StatusView, Seq<char>),
    (StatusView, Seq<char>),
> {
    match r {
        Ok((s, m)) => Ok((s@, m@)),
        Err((s, m)) => Err((s@, m@)),
    }
}

/// A failure whose reason is the reply line itself.
pub open spec fn failed_line(line: Seq<char>) -> Result<(StatusView, Seq<char>), (StatusView, Seq<char>)> {
    Err((StatusView::Failure(line), line))
}

/// The outcome an upload's end gives.
pub open spec fn lite_upload_spec(end: LiteUploadEnd) -> Result<(StatusView, Seq<char>), (StatusView, Seq<char>)> {
    match end {
        LiteUploadEnd::CreateFailed => failed_line("550 Requested action not taken\r\n"@),
        LiteUploadEnd::WriteFailed => failed_line("550 Requested action not taken\r\n"@),
        LiteUploadEnd::ReadFailed => failed_line("426 Connection closed; transfer aborted\r\n"@),
        LiteUploadEnd::FlushFailed => failed_line("450 Requested file action not taken\r\n"@),
        LiteUploadEnd::Completed => Ok((StatusView::Success, "226 Transfer complete\r\n"@)),
    }
}

/// The outcome a download's end gives.
pub open spec fn lite_download_spec(end: LiteDownloadEnd) -> Result<(StatusView, Seq<char>), (StatusView, Seq<char>)> {
    match end {
        LiteDownloadEnd::OpenFailed => failed_line("550 Failed to open file\r\n"@),
        LiteDownloadEnd::ReadFailed => failed_line("451 Requested action aborted\r\n"@),
        LiteDownloadEnd::WriteFailed => failed_line("426 Connection closed; transfer aborted\r\n"@),
        LiteDownloadEnd::FlushFailed => failed_line("450 Requested file action not taken\r\n"@),
        LiteDownloadEnd::Completed => Ok((StatusView::Success, "226 Transfer complete\r\n"@)),
    }
}

fn fail_with_line(line: &str) -> (r: Result<LiteTransferReply, LiteTransferReply>)
    ensures
        lite_transfer_view(r) == failed_line(line@),
{
    Err((CommandStatus::Failure(string_from_chars(&chars_of(line))), string_from_chars(&chars_of(line))))
}

/// The status and reply line an upload ends with.
pub fn handle_file_upload(end: LiteUploadEnd) -> (r: Result<LiteTransferReply, LiteTransferReply>)
    ensures
        lite_transfer_view(r) == lite_upload_spec(end),
{
    match end {
        LiteUploadEnd::CreateFailed => fail_with_line("550 Requested action not taken\r\n"),
        LiteUploadEnd::WriteFailed => fail_with_line("550 Requested action not taken\r\n"),
        LiteUploadEnd::ReadFailed => fail_with_line("426 Connection closed; transfer aborted\r\n"),
        LiteUploadEnd::FlushFailed => fail_with_line("450 Requested file action not taken\r\n"),
        LiteUploadEnd::Completed => Ok((CommandStatus::Success, string_from_chars(&chars_of("226 Transfer complete\r\n")))),
    }
}

/// The status and reply line a download ends with.
pub fn handle_file_download(end: LiteDownloadEnd) -> (r: Result<LiteTransferReply, LiteTransferReply>)
    ensures
        lite_transfer_view(r) == lite_download_spec(end),
{
    match end {
        LiteDownloadEnd::OpenFailed => fail_with_line("550 Failed to open file\r\n"),
        LiteDownloadEnd::ReadFailed => fail_with_line("451 Requested action aborted\r\n"),
        LiteDownloadEnd::WriteFailed => fail_with_line("426 Connection closed; transfer aborted\r\n"),
        LiteDownloadEnd::FlushFailed => fail_with_line("450 Requested file action not taken\r\n"),
        LiteDownloadEnd::Completed => Ok((CommandStatus::Success, string_from_chars(&chars_of("226 Transfer complete\r\n")))),
    }
}

} // verus!
