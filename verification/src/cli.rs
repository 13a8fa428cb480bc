//! The decisions of the command-line frontend: where paste content comes
//! from, when a confirmation is required, what the upload command submits,
//! and what is printed for a result.
//!
//! Reading files and the clipboard, prompting, and the actual terminal
//! output (colors, QR rasterization) happen outside the library; it only
//! decides.

use vstd::prelude::*;
use crate::error::LopError;
use crate::services::{Duration, ServiceOptions, ServiceResult, MAX_EXPIRY_DAYS, MS_PER_DAY};
use crate::services::vh7::{expires_repr, Vh7Body, Vh7Request, Vh7Service};
use crate::timestamps::{format_expiry_ms, utc_expiry_text_of};
use crate::urls::url_join_of;

verus! {

/// Where the content of a paste command comes from.
#[derive(Clone, Copy, Debug, PartialEq, Eq, Structural)]
pub enum PasteSource {
    /// The file named by the explicit path flag.
    File,
    /// The inline code flag's own text.
    Code,
    /// The system clipboard's current text.
    Clipboard,
}

/// Picks the content source of a paste command: an explicit file path
/// first, else explicit inline code, else the clipboard.
pub fn paste_source(filename: &Option<String>, code: &Option<String>) -> (r: PasteSource)
    ensures
        filename is Some ==> r == PasteSource::File,
        filename is None && code is Some ==> r == PasteSource::Code,
        filename is None && code is None ==> r == PasteSource::Clipboard,
{
    if filename.is_some() {
        PasteSource::File
    } else if code.is_some() {
        PasteSource::Code
    } else {
        PasteSource::Clipboard
    }
}

/// Whether the paste command must ask for confirmation before sending:
/// only when the force flag is off and no inline code was supplied. Inline
/// code was typed knowingly and never triggers the prompt — even where a
/// file path was supplied beside it and the content comes from the file,
/// the presence of the inline code flag alone disables the prompt.
pub fn needs_confirmation(force: bool, code: &Option<String>) -> (r: bool)
    ensures
        r == (!force && code is None),
{
    !force && code.is_none()
}

/// The options implied by the expiry flags: a 29-day expiry by default,
/// cleared by the no-expire flag; an explicit day count overrides both,
/// also where the no-expire flag stands beside it.
pub fn options_from_flags(no_expire: bool, expire_days: Option<i64>) -> (r: ServiceOptions)
    requires
        expire_days matches Some(n) ==> -MAX_EXPIRY_DAYS <= n <= MAX_EXPIRY_DAYS,
    ensures
        expire_days matches Some(n) ==> r.expiry matches Some(d) && d.millis == n * MS_PER_DAY,
        expire_days is None && no_expire ==> r.expiry is None,
        expire_days is None && !no_expire ==> (r.expiry matches Some(d) && d.millis == 29
            * MS_PER_DAY),
{
    let mut opts = ServiceOptions { expiry: Some(Duration::days(29)) };

    if no_expire {
        opts.expiry = None;
    }

    if let Some(n) = expire_days {
        opts.expiry = Some(Duration::days(n));
    }

    opts
}

/// What the frontend prints for one result, fully decided.
#[derive(Debug)]
pub struct RenderPlan {
    /// The text to render as a terminal QR code first, where asked for.
    pub qr_url: Option<String>,
    /// Whether the URL line is printed emphasized; in quiet mode without a
    /// QR code it is printed bare and nothing follows it.
    pub emphasize_url: bool,
    /// The resulting URL, always printed.
    pub url_line: String,
    /// The formatted expiry printed beneath the URL, where one exists and
    /// the mode shows it. The instant is rendered in UTC; a frontend that
    /// wants the machine's local time converts from the raw milliseconds
    /// of the result instead.
    pub expiry_line: Option<String>,
}

/// Decides the output for `result`: a QR code where `qr` is set; in quiet
/// mode without a QR code only the bare URL; otherwise the emphasized URL
/// and, where the result expires, its expiry beneath it, formatted as a
/// UTC date and time.
pub fn render_plan(result: &ServiceResult, quiet: bool, qr: bool) -> (r: RenderPlan)
    ensures
        qr ==> r.qr_url == Some(result.url),
        !qr ==> r.qr_url is None,
        r.url_line == result.url,
        r.emphasize_url == !(quiet && !qr),
        quiet && !qr ==> r.expiry_line is None,
        !(quiet && !qr) && result.expires is None ==> r.expiry_line is None,
        !(quiet && !qr) ==> (result.expires matches Some(ms) ==> {
            &&& r.expiry_line is Some <==> utc_expiry_text_of(ms as int) is Some
            &&& r.expiry_line matches Some(t) ==> t@ == utc_expiry_text_of(ms as int).unwrap()
        }),
{
    let qr_url = if qr {
        Some(result.url.clone())
    } else {
        None
    };
    let bare = quiet && !qr;
    let expiry_line = if bare {
        None
    } else {
        match result.expires {
            Some(ms) => format_expiry_ms(ms),
            None => None,
        }
    };
    RenderPlan { qr_url, emphasize_url: !bare, url_line: result.url.clone(), expiry_line }
}

/// Builds the upload command's request from the raw bytes of the named
/// file. The MIME type submitted is always `text/plain`, whatever the file
/// holds: the service treats every upload alike.
pub fn upload_command_request(
    srv: &Vh7Service,
    expires_ms: Option<i64>,
    data: Vec<u8>,
    file_name: String,
) -> (r: Result<Vh7Request, LopError>)
    ensures
        r is Ok <==> url_join_of(srv.api_base@, "upload"@) is Some,
        r matches Ok(req) ==> ({
            &&& req.url@ == url_join_of(srv.api_base@, "upload"@).unwrap()
            &&& req.body matches Vh7Body::Multipart {
                file_data: d,
                file_name: n,
                mime_type: m,
                expires: e,
            } && d@ == data@ && n@ == file_name@ && m@ == "text/plain"@ && e@ == expires_repr(
                expires_ms,
            )
        }),
        r matches Err(e) ==> e is Config,
{
    srv.upload_request(expires_ms, data, file_name, "text/plain".to_owned())
}

} // verus!
