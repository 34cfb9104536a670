//! Mapping of server errors to FTP reply codes.
use crate::error::types::{server_error_text, FtpServerError, FtpServerErrorView};
use crate::text::{chars_of, extend_chars, string_from_chars};
use vstd::prelude::*;

verus! {

/// The FTP reply code for a server error of each area.
pub open spec fn ftp_code_for(e: FtpServerErrorView) -> u16 {
    match e {
        FtpServerErrorView::IoError(_) => 550,
        FtpServerErrorView::NetworkError(_) => 421,
        FtpServerErrorView::AuthenticationError(_) => 530,
        FtpServerErrorView::ProtocolError(_) => 500,
        FtpServerErrorView::FileSystemError(_) => 550,
    }
}

/// Converts a server error to its FTP reply code.
pub fn error_to_ftp_code(err: &FtpServerError) -> (code: u16)
    ensures
        code == ftp_code_for(err@),
{
    match err {
        FtpServerError::IoError(_) => 550,
        FtpServerError::NetworkError(_) => 421,
        FtpServerError::AuthenticationError(_) => 530,
        FtpServerError::ProtocolError(_) => 500,
        FtpServerError::FileSystemError(_) => 550,
    }
}

/// The line that reporting a server error writes to the log.
pub fn handle_error(err: &FtpServerError) -> (line: String)
    ensures
        line@ == "FTP Server Error: "@ + server_error_text(err@),
{
    let mut v = chars_of("FTP Server Error: ");
    let m = err.message();
    extend_chars(&mut v, &chars_of(m.as_str()));
    string_from_chars(&v)
}

} // verus!
