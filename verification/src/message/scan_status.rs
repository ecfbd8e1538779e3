//! The device's status document.

use vstd::prelude::*;
use vstd::string::StringExecFns;
use xmltree::Element;

use crate::message::document::{
    children, document_children, lemma_first_child_none, parse_document, Node,
};
use crate::message::error::{parsed, ParseError, ParseErrorView};
use crate::message::util::{child_value, parsed_text, read_child_value, same_text};

verus! {

/// Whether the device accepts a new job.
#[derive(Clone, Copy, Debug, PartialEq, Eq, Structural)]
pub enum ScannerState {
    Idle,
    BusyWithScanJob,
}

impl ScannerState {
    /// The state that the text of a `ScannerState` element stands for.
    pub open spec fn spec_from_str(s: Seq<char>) -> Result<ScannerState, ParseErrorView> {
        if s == "Idle"@ {
            Ok(ScannerState::Idle)
        } else if s == "BusyWithScanJob"@ {
            Ok(ScannerState::BusyWithScanJob)
        } else {
            Err(ParseErrorView::UnknownEnumValue { name: "ScannerState"@, value: s })
        }
    }

    /// The text of the `ScannerState` element for this state.
    pub open spec fn spec_name(self) -> Seq<char> {
        match self {
            ScannerState::Idle => "Idle"@,
            ScannerState::BusyWithScanJob => "BusyWithScanJob"@,
        }
    }

    pub fn name(self) -> (name: &'static str)
        ensures
            name@ == self.spec_name(),
    {
        match self {
            ScannerState::Idle => "Idle",
            ScannerState::BusyWithScanJob => "BusyWithScanJob",
        }
    }

    /// Decodes the text of a `ScannerState` element.
    pub fn from_str(s: &str) -> (r: Result<ScannerState, ParseError>)
        ensures
            parsed(r) == Self::spec_from_str(s@),
    {
        if same_text(s, "Idle") {
            Ok(ScannerState::Idle)
        } else if same_text(s, "BusyWithScanJob") {
            Ok(ScannerState::BusyWithScanJob)
        } else {
            Err(ParseError::unknown_enum_value("ScannerState", s))
        }
    }
}

impl std::str::FromStr for ScannerState {
    type Err = ParseError;

    fn from_str(s: &str) -> (r: Result<ScannerState, ParseError>)
        ensures
            parsed(r) == ScannerState::spec_from_str(s@),
    {
        ScannerState::from_str(s)
    }
}

/// Whether the automatic document feeder holds paper.
#[derive(Clone, Copy, Debug, PartialEq, Eq, Structural)]
pub enum AdfState {
    Empty,
    Loaded,
}

impl AdfState {
    /// The state that the text of an `AdfState` element stands for.
    pub open spec fn spec_from_str(s: Seq<char>) -> Result<AdfState, ParseErrorView> {
        if s == "Empty"@ {
            Ok(AdfState::Empty)
        } else if s == "Loaded"@ {
            Ok(AdfState::Loaded)
        } else {
            Err(ParseErrorView::UnknownEnumValue { name: "AdfState"@, value: s })
        }
    }

    /// The text of the `AdfState` element for this state.
    pub open spec fn spec_name(self) -> Seq<char> {
        match self {
            AdfState::Empty => "Empty"@,
            AdfState::Loaded => "Loaded"@,
        }
    }

    pub fn name(self) -> (name: &'static str)
        ensures
            name@ == self.spec_name(),
    {
        match self {
            AdfState::Empty => "Empty",
            AdfState::Loaded => "Loaded",
        }
    }

    /// Decodes the text of an `AdfState` element.
    pub fn from_str(s: &str) -> (r: Result<AdfState, ParseError>)
        ensures
            parsed(r) == Self::spec_from_str(s@),
    {
        if same_text(s, "Empty") {
            Ok(AdfState::Empty)
        } else if same_text(s, "Loaded") {
            Ok(AdfState::Loaded)
        } else {
            Err(ParseError::unknown_enum_value("AdfState", s))
        }
    }
}

impl std::str::FromStr for AdfState {
    type Err = ParseError;

    fn from_str(s: &str) -> (r: Result<AdfState, ParseError>)
        ensures
            parsed(r) == AdfState::spec_from_str(s@),
    {
        AdfState::from_str(s)
    }
}

/// A snapshot of the device: both fields come from one status document.
#[derive(Clone, Copy, Debug, PartialEq, Eq)]
pub struct ScanStatus {
    scanner_state: ScannerState,
    adf_state: AdfState,
}

/// The mathematical content of a [`ScanStatus`].
pub struct ScanStatusView {
    pub scanner_state: ScannerState,
    pub adf_state: AdfState,
}

impl View for ScanStatus {
    type V = ScanStatusView;

    closed spec fn view(&self) -> ScanStatusView {
        ScanStatusView { scanner_state: self.scanner_state, adf_state: self.adf_state }
    }
}

/// The view of a decoded status, or of the error in its place.
pub open spec fn parsed_status(r: Result<ScanStatus, ParseError>) -> Result<
    ScanStatusView,
    ParseErrorView,
> {
    match r {
        Ok(status) => Ok(status@),
        Err(e) => Err(e@),
    }
}

impl ScanStatus {
    /// The status that the texts of the two elements stand for. The scanner
    /// state is looked at first: what is wrong with it is reported whatever
    /// the feeder's element holds.
    pub open spec fn spec_from_values(
        scanner_state: Result<Seq<char>, ParseErrorView>,
        adf_state: Result<Seq<char>, ParseErrorView>,
    ) -> Result<ScanStatusView, ParseErrorView> {
        match scanner_state {
            Err(e) => Err(e),
            Ok(scanner_text) => match ScannerState::spec_from_str(scanner_text) {
                Err(e) => Err(e),
                Ok(scanner_state) => match adf_state {
                    Err(e) => Err(e),
                    Ok(adf_text) => match AdfState::spec_from_str(adf_text) {
                        Err(e) => Err(e),
                        Ok(adf_state) => Ok(ScanStatusView { scanner_state, adf_state }),
                    },
                },
            },
        }
    }

    /// The status that the children of a status document's root stand for:
    /// the one in the texts of the first `ScannerState` element and of the
    /// first `AdfState` element.
    pub open spec fn spec_from_children(nodes: Seq<Node>) -> Result<
        ScanStatusView,
        ParseErrorView,
    > {
        Self::spec_from_values(
            child_value(nodes, "ScannerState"@),
            child_value(nodes, "AdfState"@),
        )
    }

    /// The status that the bytes of a status document stand for.
    pub open spec fn spec_read_xml(bytes: Seq<u8>) -> Result<ScanStatusView, ParseErrorView> {
        match document_children(bytes) {
            Some(nodes) => Self::spec_from_children(nodes),
            None => Err(ParseErrorView::MalformedDocument { missing: None }),
        }
    }

    pub fn new(scanner_state: ScannerState, adf_state: AdfState) -> (status: ScanStatus)
        ensures
            status@ == (ScanStatusView { scanner_state, adf_state }),
    {
        ScanStatus { scanner_state, adf_state }
    }

    pub fn scanner_state(&self) -> (state: ScannerState)
        ensures
            state == self@.scanner_state,
    {
        self.scanner_state
    }

    pub fn is_idle(&self) -> (idle: bool)
        ensures
            idle == (self@.scanner_state == ScannerState::Idle),
    {
        self.scanner_state == ScannerState::Idle
    }

    pub fn adf_state(&self) -> (state: AdfState)
        ensures
            state == self@.adf_state,
    {
        self.adf_state
    }

    /// The line in which a status is shown to the user.
    pub open spec fn spec_report(status: ScanStatusView) -> Seq<char> {
        "Scanner: "@ + status.scanner_state.spec_name() + ", Adf: "@
            + status.adf_state.spec_name()
    }

    pub fn report(&self) -> (line: String)
        ensures
            line@ == Self::spec_report(self@),
    {
        let mut line = String::from_str("Scanner: ");
        line.append(self.scanner_state.name());
        line.append(", Adf: ");
        line.append(self.adf_state.name());
        line
    }

    /// Decodes the texts of the `ScannerState` and `AdfState` elements, each
    /// given as it was read or as the error of reading it.
    pub fn from_values(
        scanner_state: Result<String, ParseError>,
        adf_state: Result<String, ParseError>,
    ) -> (r: Result<ScanStatus, ParseError>)
        ensures
            parsed_status(r) == Self::spec_from_values(
                parsed_text(scanner_state),
                parsed_text(adf_state),
            ),
    {
        let scanner_text = match scanner_state {
            Ok(text) => text,
            Err(e) => { return Err(e); },
        };
        let scanner_state = match ScannerState::from_str(scanner_text.as_str()) {
            Ok(state) => state,
            Err(e) => { return Err(e); },
        };
        let adf_text = match adf_state {
            Ok(text) => text,
            Err(e) => { return Err(e); },
        };
        let adf_state = match AdfState::from_str(adf_text.as_str()) {
            Ok(state) => state,
            Err(e) => { return Err(e); },
        };
        Ok(ScanStatus::new(scanner_state, adf_state))
    }

    /// Decodes the root element of a status document.
    pub fn from_element(root: &Element) -> (r: Result<ScanStatus, ParseError>)
        ensures
            parsed_status(r) == Self::spec_from_children(children(*root)),
    {
        let scanner_state = read_child_value(root, "ScannerState");
        let adf_state = read_child_value(root, "AdfState");
        ScanStatus::from_values(scanner_state, adf_state)
    }

    /// Decodes a status document. Bytes that are not a well-formed document
    /// within the limits of [`parse_document`], a missing element and an
    /// unknown value are each reported; no field is ever filled with a
    /// default.
    pub fn read_xml(r: &[u8]) -> (status: Result<ScanStatus, ParseError>)
        ensures
            parsed_status(status) == Self::spec_read_xml(r@),
    {
        match parse_document(r) {
            Ok(root) => ScanStatus::from_element(&root),
            Err(e) => Err(e),
        }
    }
}

/// A status document without a `ScannerState` element is refused with an
/// error that names that element, whatever else the document holds.
pub proof fn lemma_missing_scanner_state_is_named(bytes: Seq<u8>)
    requires
        document_children(bytes) matches Some(nodes) && forall|i: int|
            0 <= i < nodes.len() ==> !(#[trigger] nodes[i] is Element && nodes[i]->name
                == "ScannerState"@),
    ensures
        ScanStatus::spec_read_xml(bytes) == Err::<ScanStatusView, ParseErrorView>(
            ParseErrorView::MalformedDocument { missing: Some("ScannerState"@) },
        ),
{
    lemma_first_child_none(document_children(bytes)->Some_0, "ScannerState"@);
}

/// No field of a status is ever a default: a status is decoded only where
/// both elements were read and each holds one of the values that the
/// protocol defines, and the status holds exactly these two values.
pub proof fn lemma_status_has_no_defaults(
    scanner_state: Result<Seq<char>, ParseErrorView>,
    adf_state: Result<Seq<char>, ParseErrorView>,
)
    requires
        ScanStatus::spec_from_values(scanner_state, adf_state) is Ok,
    ensures
        scanner_state matches Ok(scanner_text) && adf_state matches Ok(adf_text)
            && ScannerState::spec_from_str(scanner_text) == Ok::<ScannerState, ParseErrorView>(
            ScanStatus::spec_from_values(scanner_state, adf_state)->Ok_0.scanner_state,
        ) && AdfState::spec_from_str(adf_text) == Ok::<AdfState, ParseErrorView>(
            ScanStatus::spec_from_values(scanner_state, adf_state)->Ok_0.adf_state,
        ),
{
}

/// The texts of the states are the texts that are decoded to them.
pub proof fn lemma_names_are_decoded(scanner_state: ScannerState, adf_state: AdfState)
    ensures
        ScannerState::spec_from_str(scanner_state.spec_name()) == Ok::<
            ScannerState,
            ParseErrorView,
        >(scanner_state),
        AdfState::spec_from_str(adf_state.spec_name()) == Ok::<AdfState, ParseErrorView>(
            adf_state,
        ),
{
    reveal_strlit("Idle");
    reveal_strlit("BusyWithScanJob");
    reveal_strlit("Empty");
    reveal_strlit("Loaded");
    assert("Idle"@.len() != "BusyWithScanJob"@.len());
    assert("Empty"@.len() != "Loaded"@.len());
}

} // verus!
