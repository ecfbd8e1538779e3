//! The HTTP conversation with one device.
//!
//! The library sends nothing. For each operation it builds the request and
//! reads the reply: the host program carries the request to the device and
//! brings back the response, or the failure to get one.

use vstd::prelude::*;
use vstd::string::StringExecFns;

use crate::message::error::{ParseError, ParseErrorView};
use crate::message::job::{JobStatus, JobStatusView};
use crate::message::scan_job::{Format, ScanJob, ScanJobView};
use crate::message::scan_status::{ScanStatus, ScanStatusView};
use crate::timestamp::Timestamp;

verus! {

/// Why an operation on the device failed. Each of the four ends the scan:
/// the library tries nothing a second time.
#[derive(Debug, PartialEq, Eq)]
pub enum ScannerError {
    /// No usable response came back.
    Transport,
    /// A document from the device could not be decoded.
    Parse(ParseError),
    /// The device cannot accept a job now.
    Busy,
    /// The document feeder was asked for and holds no paper.
    AdfEmpty,
}

/// The mathematical content of a [`ScannerError`].
pub enum ScannerErrorView {
    Transport,
    Parse(ParseErrorView),
    Busy,
    AdfEmpty,
}

impl View for ScannerError {
    type V = ScannerErrorView;

    open spec fn view(&self) -> ScannerErrorView {
        match *self {
            ScannerError::Transport => ScannerErrorView::Transport,
            ScannerError::Parse(e) => ScannerErrorView::Parse(e@),
            ScannerError::Busy => ScannerErrorView::Busy,
            ScannerError::AdfEmpty => ScannerErrorView::AdfEmpty,
        }
    }
}

/// A result with its error replaced by the error's view.
pub open spec fn failed<T>(r: Result<T, ScannerError>) -> Result<T, ScannerErrorView> {
    match r {
        Ok(v) => Ok(v),
        Err(e) => Err(e@),
    }
}

impl ScannerError {
    /// The words in which a failure is reported: its kind and, for a decoding
    /// failure, what the decoder says.
    pub open spec fn spec_to_string(e: ScannerErrorView) -> Seq<char> {
        match e {
            ScannerErrorView::Transport => "transport failure"@,
            ScannerErrorView::Parse(e) => "parse error: "@ + ParseError::spec_to_string(e),
            ScannerErrorView::Busy => "scanner is busy"@,
            ScannerErrorView::AdfEmpty => "document feeder is empty"@,
        }
    }

    pub fn to_string(&self) -> (text: String)
        ensures
            text@ == Self::spec_to_string(self@),
    {
        match self {
            ScannerError::Transport => String::from_str("transport failure"),
            ScannerError::Parse(e) => {
                let mut text = String::from_str("parse error: ");
                text.append(e.to_string().as_str());
                text
            },
            ScannerError::Busy => String::from_str("scanner is busy"),
            ScannerError::AdfEmpty => String::from_str("document feeder is empty"),
        }
    }
}

impl From<ParseError> for ScannerError {
    fn from(e: ParseError) -> (r: ScannerError) {
        ScannerError::Parse(e)
    }
}

impl vstd::std_specs::convert::FromSpecImpl<ParseError> for ScannerError {
    open spec fn obeys_from_spec() -> bool {
        true
    }

    open spec fn from_spec(e: ParseError) -> ScannerError {
        ScannerError::Parse(e)
    }
}

#[derive(Clone, Copy, Debug, PartialEq, Eq, Structural)]
pub enum Method {
    Get,
    Post,
}

/// A request for the host program to send. A body that is not empty is an
/// XML document.
#[derive(Debug, PartialEq, Eq)]
pub struct HttpRequest {
    pub method: Method,
    pub url: String,
    pub body: Vec<u8>,
}

/// The mathematical content of an [`HttpRequest`].
pub struct HttpRequestView {
    pub method: Method,
    pub url: Seq<char>,
    pub body: Seq<u8>,
}

impl View for HttpRequest {
    type V = HttpRequestView;

    open spec fn view(&self) -> HttpRequestView {
        HttpRequestView { method: self.method, url: self.url@, body: self.body@ }
    }
}

/// What the library reads of a response: the status code, the `Location`
/// header if there is one, and the body.
#[derive(Debug, PartialEq, Eq)]
pub struct HttpResponse {
    pub status: u16,
    pub location: Option<String>,
    pub body: Vec<u8>,
}

/// The mathematical content of an [`HttpResponse`].
pub struct HttpResponseView {
    pub status: int,
    pub location: Option<Seq<char>>,
    pub body: Seq<u8>,
}

impl View for HttpResponse {
    type V = HttpResponseView;

    open spec fn view(&self) -> HttpResponseView {
        HttpResponseView {
            status: self.status as int,
            location: match self.location {
                Some(location) => Some(location@),
                None => None,
            },
            body: self.body@,
        }
    }
}

/// The view of what came back for a request: the response, or the error of
/// not getting one.
pub open spec fn reply_view(reply: Result<HttpResponse, ScannerError>) -> Result<
    HttpResponseView,
    ScannerErrorView,
> {
    match reply {
        Ok(response) => Ok(response@),
        Err(e) => Err(e@),
    }
}

/// The status code with which the device turns a job down because it is busy.
pub const STATUS_BUSY: u16 = 503;

/// Whether a status code reports success.
pub open spec fn is_success(status: int) -> bool {
    200 <= status <= 299
}

/// The body of a reply that reports success. A reply with any other status
/// counts as a transport failure.
pub open spec fn success_body(reply: Result<HttpResponseView, ScannerErrorView>) -> Result<
    Seq<u8>,
    ScannerErrorView,
> {
    match reply {
        Err(e) => Err(e),
        Ok(response) => if is_success(response.status) {
            Ok(response.body)
        } else {
            Err(ScannerErrorView::Transport)
        },
    }
}

/// Takes the body out of a reply that reports success.
pub fn read_body(reply: Result<HttpResponse, ScannerError>) -> (r: Result<Vec<u8>, ScannerError>)
    ensures
        match r {
            Ok(body) => success_body(reply_view(reply)) == Ok::<Seq<u8>, ScannerErrorView>(body@),
            Err(e) => success_body(reply_view(reply)) == Err::<Seq<u8>, ScannerErrorView>(e@),
        },
{
    match reply {
        Err(e) => Err(e),
        Ok(response) => if 200 <= response.status && response.status <= 299 {
            Ok(response.body)
        } else {
            Err(ScannerError::Transport)
        },
    }
}

/// The device that the library talks to: its address, and whether the
/// connection is encrypted.
#[derive(Debug, PartialEq, Eq)]
pub struct Scanner {
    host: String,
    use_tls: bool,
}

/// The mathematical content of a [`Scanner`].
pub struct ScannerView {
    pub host: Seq<char>,
    pub use_tls: bool,
}

impl View for Scanner {
    type V = ScannerView;

    closed spec fn view(&self) -> ScannerView {
        ScannerView { host: self.host@, use_tls: self.use_tls }
    }
}

impl ScannerView {
    /// The address of the resource at `path` on the device.
    pub open spec fn url(self, path: Seq<char>) -> Seq<char> {
        (if self.use_tls {
            "https://"@
        } else {
            "http://"@
        }) + self.host + path
    }

    /// The request that asks for the device's status.
    pub open spec fn status_request(self) -> HttpRequestView {
        HttpRequestView { method: Method::Get, url: self.url("/Scan/Status"@), body: seq![] }
    }

    /// The request that creates `job`.
    pub open spec fn job_request(self, job: ScanJobView) -> HttpRequestView {
        HttpRequestView {
            method: Method::Post,
            url: self.url("/Scan/Jobs"@),
            body: ScanJob::spec_to_xml(job),
        }
    }
}

/// A job that the device has accepted: where the device keeps it and, once
/// the page is ready, where the page can be fetched. One handle stands for
/// one job and is used up by the download.
#[derive(Debug, PartialEq, Eq)]
pub struct ScanJobHandle {
    location: String,
    binary_url: Option<String>,
}

/// The mathematical content of a [`ScanJobHandle`].
pub struct ScanJobHandleView {
    pub location: Seq<char>,
    pub binary_url: Option<Seq<char>>,
}

impl View for ScanJobHandle {
    type V = ScanJobHandleView;

    closed spec fn view(&self) -> ScanJobHandleView {
        ScanJobHandleView {
            location: self.location@,
            binary_url: match self.binary_url {
                Some(url) => Some(url@),
                None => None,
            },
        }
    }
}

/// The view of a handle, or of the error in its place.
pub open spec fn started(r: Result<ScanJobHandle, ScannerError>) -> Result<
    ScanJobHandleView,
    ScannerErrorView,
> {
    match r {
        Ok(handle) => Ok(handle@),
        Err(e) => Err(e@),
    }
}

/// The view of a status, or of the error in its place.
pub open spec fn queried(r: Result<ScanStatus, ScannerError>) -> Result<
    ScanStatusView,
    ScannerErrorView,
> {
    match r {
        Ok(status) => Ok(status@),
        Err(e) => Err(e@),
    }
}

impl Scanner {
    pub fn new(host: &str, use_tls: bool) -> (scanner: Scanner)
        ensures
            scanner@ == (ScannerView { host: host@, use_tls }),
    {
        Scanner { host: String::from_str(host), use_tls }
    }

    pub fn host(&self) -> (host: &str)
        ensures
            host@ == self@.host,
    {
        self.host.as_str()
    }

    pub fn use_tls(&self) -> (use_tls: bool)
        ensures
            use_tls == self@.use_tls,
    {
        self.use_tls
    }

    /// The address of the resource at `path` on the device.
    pub fn url(&self, path: &str) -> (url: String)
        ensures
            url@ == self@.url(path@),
    {
        let mut url = String::from_str(
            if self.use_tls {
                "https://"
            } else {
                "http://"
            },
        );
        url.append(self.host.as_str());
        url.append(path);
        url
    }

    /// The request that asks for the device's status.
    pub fn status_request(&self) -> (request: HttpRequest)
        ensures
            request@ == self@.status_request(),
    {
        HttpRequest { method: Method::Get, url: self.url("/Scan/Status"), body: Vec::new() }
    }

    /// The status that a reply to the status request stands for.
    pub open spec fn spec_get_scan_status(
        reply: Result<HttpResponseView, ScannerErrorView>,
    ) -> Result<ScanStatusView, ScannerErrorView> {
        match success_body(reply) {
            Err(e) => Err(e),
            Ok(body) => match ScanStatus::spec_read_xml(body) {
                Ok(status) => Ok(status),
                Err(e) => Err(ScannerErrorView::Parse(e)),
            },
        }
    }

    /// Reads the reply to the status request. A reply that did not come, or
    /// that does not report success, is a transport failure; a body that
    /// cannot be decoded is a parse failure.
    pub fn get_scan_status(reply: Result<HttpResponse, ScannerError>) -> (r: Result<
        ScanStatus,
        ScannerError,
    >)
        ensures
            queried(r) == Self::spec_get_scan_status(reply_view(reply)),
    {
        let body = match read_body(reply) {
            Ok(body) => body,
            Err(e) => { return Err(e); },
        };
        match ScanStatus::read_xml(body.as_slice()) {
            Ok(status) => Ok(status),
            Err(e) => Err(ScannerError::Parse(e)),
        }
    }

    /// The request that creates `job` on the device.
    pub fn job_request(&self, job: &ScanJob) -> (request: HttpRequest)
        ensures
            request@ == self@.job_request(job@),
    {
        HttpRequest { method: Method::Post, url: self.url("/Scan/Jobs"), body: job.to_xml() }
    }

    /// The handle that a reply to the job request stands for.
    pub open spec fn spec_start_job(reply: Result<HttpResponseView, ScannerErrorView>) -> Result<
        ScanJobHandleView,
        ScannerErrorView,
    > {
        match reply {
            Err(e) => Err(e),
            Ok(response) => if is_success(response.status) {
                match response.location {
                    Some(location) => Ok(ScanJobHandleView { location, binary_url: None }),
                    None => Err(ScannerErrorView::Transport),
                }
            } else if response.status == STATUS_BUSY {
                Err(ScannerErrorView::Busy)
            } else {
                Err(ScannerErrorView::Transport)
            },
        }
    }

    /// Reads the reply to the job request. On success the device names the
    /// place of the new job, which the handle keeps. A reply with the status
    /// [`STATUS_BUSY`] means that the device is busy. Every other reply, one
    /// that reports success without naming a place included, is a transport
    /// failure.
    pub fn start_job(reply: Result<HttpResponse, ScannerError>) -> (r: Result<
        ScanJobHandle,
        ScannerError,
    >)
        ensures
            started(r) == Self::spec_start_job(reply_view(reply)),
    {
        match reply {
            Err(e) => Err(e),
            Ok(response) => if 200 <= response.status && response.status <= 299 {
                match response.location {
                    Some(location) => Ok(ScanJobHandle { location, binary_url: None }),
                    None => Err(ScannerError::Transport),
                }
            } else if response.status == STATUS_BUSY {
                Err(ScannerError::Busy)
            } else {
                Err(ScannerError::Transport)
            },
        }
    }
}

impl ScanJobHandleView {
    /// The request that asks how far the job has come.
    pub open spec fn status_request(self) -> HttpRequestView {
        HttpRequestView { method: Method::Get, url: self.location, body: seq![] }
    }

    /// The request that fetches the page, once the page is ready.
    pub open spec fn download_request(self, scanner: ScannerView) -> Option<HttpRequestView> {
        match self.binary_url {
            Some(path) => Some(
                HttpRequestView { method: Method::Get, url: scanner.url(path), body: seq![] },
            ),
            None => None,
        }
    }

    /// The handle after a reply to the status request: once the device says
    /// where the page is, the handle keeps that place. Any other reply
    /// leaves the handle as it is.
    pub open spec fn after_status(
        self,
        reply: Result<HttpResponseView, ScannerErrorView>,
    ) -> ScanJobHandleView {
        match ScanJobHandle::spec_job_status(reply) {
            Ok(JobStatusView::Ready { binary_url }) => ScanJobHandleView {
                location: self.location,
                binary_url: Some(binary_url),
            },
            _ => self,
        }
    }
}

impl ScanJobHandle {
    /// The place of the job on the device.
    pub fn location(&self) -> (location: &str)
        ensures
            location@ == self@.location,
    {
        self.location.as_str()
    }

    /// Whether the device has said that the page is ready.
    pub fn is_ready(&self) -> (ready: bool)
        ensures
            ready == self@.binary_url is Some,
    {
        self.binary_url.is_some()
    }

    /// The request that asks how far the job has come. It reads and changes
    /// nothing on the device, so it can be sent any number of times.
    pub fn status_request(&self) -> (request: HttpRequest)
        ensures
            request@ == self@.status_request(),
    {
        HttpRequest { method: Method::Get, url: self.location.clone(), body: Vec::new() }
    }

    /// The job status that a reply to the status request stands for.
    pub open spec fn spec_job_status(reply: Result<HttpResponseView, ScannerErrorView>) -> Result<
        JobStatusView,
        ScannerErrorView,
    > {
        match success_body(reply) {
            Err(e) => Err(e),
            Ok(body) => match JobStatus::spec_read_xml(body) {
                Ok(status) => Ok(status),
                Err(e) => Err(ScannerErrorView::Parse(e)),
            },
        }
    }

    /// Whether the page is ready, according to a reply to the status request.
    pub open spec fn spec_retrieve_status(
        reply: Result<HttpResponseView, ScannerErrorView>,
    ) -> Result<bool, ScannerErrorView> {
        match Self::spec_job_status(reply) {
            Ok(status) => Ok(status is Ready),
            Err(e) => Err(e),
        }
    }

    /// Reads the reply to the status request: `true` once the page is ready
    /// to be fetched, `false` while the device is still scanning.
    pub fn retrieve_status(&mut self, reply: Result<HttpResponse, ScannerError>) -> (r: Result<
        bool,
        ScannerError,
    >)
        ensures
            failed(r) == Self::spec_retrieve_status(reply_view(reply)),
            final(self)@ == old(self)@.after_status(reply_view(reply)),
    {
        let body = match read_body(reply) {
            Ok(body) => body,
            Err(e) => { return Err(e); },
        };
        match JobStatus::read_xml(body.as_slice()) {
            Ok(JobStatus::InProgress) => Ok(false),
            Ok(JobStatus::Ready { binary_url }) => {
                self.binary_url = Some(binary_url);
                Ok(true)
            },
            Err(e) => Err(ScannerError::Parse(e)),
        }
    }

    /// The request that fetches the page, or `None` while the page is not
    /// known to be ready.
    pub fn download_request(&self, scanner: &Scanner) -> (request: Option<HttpRequest>)
        ensures
            match request {
                Some(request) => self@.download_request(scanner@) == Some(request@),
                None => self@.download_request(scanner@) is None,
            },
    {
        match &self.binary_url {
            Some(path) => Some(
                HttpRequest {
                    method: Method::Get,
                    url: scanner.url(path.as_str()),
                    body: Vec::new(),
                },
            ),
            None => None,
        }
    }

    /// Reads the reply to the download request and gives the bytes of the
    /// image, which are the whole body of a reply that reports success. The
    /// handle is used up whatever the reply holds.
    pub fn download(self, reply: Result<HttpResponse, ScannerError>) -> (r: Result<
        Vec<u8>,
        ScannerError,
    >)
        ensures
            match r {
                Ok(image) => success_body(reply_view(reply)) == Ok::<Seq<u8>, ScannerErrorView>(
                    image@,
                ),
                Err(e) => success_body(reply_view(reply)) == Err::<Seq<u8>, ScannerErrorView>(e@),
            },
    {
        read_body(reply)
    }
}

impl Format {
    /// The ending of the name of a file in this format.
    pub open spec fn spec_extension(self) -> Seq<char> {
        match self {
            Format::Pdf => "pdf"@,
            Format::Jpeg => "jpeg"@,
        }
    }

    pub fn extension(self) -> (extension: &'static str)
        ensures
            extension@ == self.spec_extension(),
    {
        match self {
            Format::Pdf => "pdf",
            Format::Jpeg => "jpeg",
        }
    }
}

/// The name of the output file for an image in `format` and a timestamp
/// that is already written out.
pub open spec fn spec_file_name(format: Format, timestamp: Seq<char>) -> Seq<char> {
    "scan_"@ + timestamp + "."@ + format.spec_extension()
}

/// Puts the name of the output file together.
pub fn file_name(format: Format, timestamp: &str) -> (name: String)
    ensures
        name@ == spec_file_name(format, timestamp@),
{
    let mut name = String::from_str("scan_");
    name.append(timestamp);
    name.append(".");
    name.append(format.extension());
    name
}

/// The name of the file that takes an image in `format` scanned at `time`.
pub fn output_file_name(format: &Format, time: &Timestamp) -> (name: String)
    ensures
        name@ == spec_file_name(*format, time@.compact()),
{
    let timestamp = time.to_compact();
    file_name(*format, timestamp.as_str())
}

/// Asking about a job is a plain read: what the answer says depends on the
/// reply alone, and a reply that is read a second time leaves the handle as
/// the first reading left it.
pub proof fn lemma_retrieve_status_repeats(
    handle: ScanJobHandleView,
    reply: Result<HttpResponseView, ScannerErrorView>,
)
    ensures
        handle.after_status(reply).after_status(reply) == handle.after_status(reply),
        handle.after_status(reply).location == handle.location,
        ScanJobHandle::spec_retrieve_status(reply) == Ok::<bool, ScannerErrorView>(true)
            ==> handle.after_status(reply).binary_url is Some,
        ScanJobHandle::spec_retrieve_status(reply) != Ok::<bool, ScannerErrorView>(true)
            ==> handle.after_status(reply) == handle,
{
}

/// A job request fails with `Busy` in two cases only: the device answered
/// with the status [`STATUS_BUSY`], or the host program reported `Busy`
/// itself. It succeeds exactly where the device reports success and names
/// the place of the job.
pub proof fn lemma_start_job_outcomes(reply: Result<HttpResponseView, ScannerErrorView>)
    ensures
        Scanner::spec_start_job(reply) == Err::<ScanJobHandleView, ScannerErrorView>(
            ScannerErrorView::Busy,
        ) <==> (reply matches Ok(response) && response.status == STATUS_BUSY) || reply == Err::<
            HttpResponseView,
            ScannerErrorView,
        >(ScannerErrorView::Busy),
        Scanner::spec_start_job(reply) is Ok <==> (reply matches Ok(response) && is_success(
            response.status,
        ) && response.location is Some),
        Scanner::spec_start_job(reply) matches Ok(handle) ==> handle.binary_url is None && (
        reply matches Ok(response) && response.location == Some(handle.location)),
{
}

} // verus!
