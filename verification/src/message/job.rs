//! The document that describes a job in progress.

use vstd::prelude::*;
use xmltree::Element;

use crate::message::document::{children, document_children, parse_document, Node};
use crate::message::error::{parsed, ParseError, ParseErrorView};
use crate::message::util::{
    child_value, parsed_text, read_child, read_child_value, required_child, same_text,
};

verus! {

/// What the device says of the page that it is scanning.
#[derive(Clone, Copy, Debug, PartialEq, Eq, Structural)]
pub enum PageState {
    PreparingScan,
    ReadyToUpload,
}

impl PageState {
    /// The state that the text of a `PageState` element stands for.
    pub open spec fn spec_from_str(s: Seq<char>) -> Result<PageState, ParseErrorView> {
        if s == "PreparingScan"@ {
            Ok(PageState::PreparingScan)
        } else if s == "ReadyToUpload"@ {
            Ok(PageState::ReadyToUpload)
        } else {
            Err(ParseErrorView::UnknownEnumValue { name: "PageState"@, value: s })
        }
    }

    /// Decodes the text of a `PageState` element.
    pub fn from_str(s: &str) -> (r: Result<PageState, ParseError>)
        ensures
            parsed(r) == Self::spec_from_str(s@),
    {
        if same_text(s, "PreparingScan") {
            Ok(PageState::PreparingScan)
        } else if same_text(s, "ReadyToUpload") {
            Ok(PageState::ReadyToUpload)
        } else {
            Err(ParseError::unknown_enum_value("PageState", s))
        }
    }
}

impl std::str::FromStr for PageState {
    type Err = ParseError;

    fn from_str(s: &str) -> (r: Result<PageState, ParseError>)
        ensures
            parsed(r) == PageState::spec_from_str(s@),
    {
        PageState::from_str(s)
    }
}

/// How far a job has come.
#[derive(Debug, PartialEq, Eq)]
pub enum JobStatus {
    /// The page is still being scanned.
    InProgress,
    /// The page can be fetched from `binary_url`, a path on the device.
    Ready { binary_url: String },
}

/// The mathematical content of a [`JobStatus`].
pub enum JobStatusView {
    InProgress,
    Ready { binary_url: Seq<char> },
}

impl View for JobStatus {
    type V = JobStatusView;

    open spec fn view(&self) -> JobStatusView {
        match *self {
            JobStatus::InProgress => JobStatusView::InProgress,
            JobStatus::Ready { binary_url } => JobStatusView::Ready { binary_url: binary_url@ },
        }
    }
}

/// The view of a decoded job status, or of the error in its place.
pub open spec fn parsed_job(r: Result<JobStatus, ParseError>) -> Result<
    JobStatusView,
    ParseErrorView,
> {
    match r {
        Ok(status) => Ok(status@),
        Err(e) => Err(e@),
    }
}

/// Whether a decoded job status says that the page is ready.
pub open spec fn job_ready(r: Result<JobStatusView, ParseErrorView>) -> Result<
    bool,
    ParseErrorView,
> {
    match r {
        Ok(status) => Ok(status is Ready),
        Err(e) => Err(e),
    }
}

impl JobStatus {
    /// The job status that the texts of the page's elements stand for. The
    /// page's address is asked for only once the page is ready.
    pub open spec fn spec_from_values(
        page_state: Result<Seq<char>, ParseErrorView>,
        binary_url: Result<Seq<char>, ParseErrorView>,
    ) -> Result<JobStatusView, ParseErrorView> {
        match page_state {
            Err(e) => Err(e),
            Ok(text) => match PageState::spec_from_str(text) {
                Err(e) => Err(e),
                Ok(PageState::PreparingScan) => Ok(JobStatusView::InProgress),
                Ok(PageState::ReadyToUpload) => match binary_url {
                    Err(e) => Err(e),
                    Ok(url) => Ok(JobStatusView::Ready { binary_url: url }),
                },
            },
        }
    }

    /// The job status that a job document's root stands for. The page is the
    /// element `PreScanPage` inside the element `ScanJob`.
    pub open spec fn spec_from_children(nodes: Seq<Node>) -> Result<
        JobStatusView,
        ParseErrorView,
    > {
        match required_child(nodes, "ScanJob"@) {
            Err(e) => Err(e),
            Ok(scan_job) => match required_child(scan_job, "PreScanPage"@) {
                Err(e) => Err(e),
                Ok(page) => Self::spec_from_values(
                    child_value(page, "PageState"@),
                    child_value(page, "BinaryURL"@),
                ),
            },
        }
    }

    /// The job status that the bytes of a job document stand for.
    pub open spec fn spec_read_xml(bytes: Seq<u8>) -> Result<JobStatusView, ParseErrorView> {
        match document_children(bytes) {
            Some(nodes) => Self::spec_from_children(nodes),
            None => Err(ParseErrorView::MalformedDocument { missing: None }),
        }
    }

    pub fn is_ready(&self) -> (ready: bool)
        ensures
            ready == (self@ is Ready),
    {
        match self {
            JobStatus::InProgress => false,
            JobStatus::Ready { .. } => true,
        }
    }

    /// Decodes the texts of the `PageState` and `BinaryURL` elements, each
    /// given as it was read or as the error of reading it.
    pub fn from_values(
        page_state: Result<String, ParseError>,
        binary_url: Result<String, ParseError>,
    ) -> (r: Result<JobStatus, ParseError>)
        ensures
            parsed_job(r) == Self::spec_from_values(
                parsed_text(page_state),
                parsed_text(binary_url),
            ),
    {
        let text = match page_state {
            Ok(text) => text,
            Err(e) => { return Err(e); },
        };
        match PageState::from_str(text.as_str()) {
            Err(e) => Err(e),
            Ok(PageState::PreparingScan) => Ok(JobStatus::InProgress),
            Ok(PageState::ReadyToUpload) => match binary_url {
                Ok(url) => Ok(JobStatus::Ready { binary_url: url }),
                Err(e) => Err(e),
            },
        }
    }

    /// Decodes the root element of a job document.
    pub fn from_element(root: &Element) -> (r: Result<JobStatus, ParseError>)
        ensures
            parsed_job(r) == Self::spec_from_children(children(*root)),
    {
        let scan_job = match read_child(root, "ScanJob") {
            Ok(child) => child,
            Err(e) => { return Err(e); },
        };
        let page = match read_child(scan_job, "PreScanPage") {
            Ok(child) => child,
            Err(e) => { return Err(e); },
        };
        let page_state = read_child_value(page, "PageState");
        let binary_url = read_child_value(page, "BinaryURL");
        JobStatus::from_values(page_state, binary_url)
    }

    /// Decodes a job document.
    pub fn read_xml(r: &[u8]) -> (status: Result<JobStatus, ParseError>)
        ensures
            parsed_job(status) == Self::spec_read_xml(r@),
    {
        match parse_document(r) {
            Ok(root) => JobStatus::from_element(&root),
            Err(e) => Err(e),
        }
    }
}

/// Decodes a job document and says whether the page is ready to be fetched.
pub fn parse_job_ready(bytes: &[u8]) -> (r: Result<bool, ParseError>)
    ensures
        parsed(r) == job_ready(JobStatus::spec_read_xml(bytes@)),
{
    match JobStatus::read_xml(bytes) {
        Ok(status) => Ok(status.is_ready()),
        Err(e) => Err(e),
    }
}

} // verus!
