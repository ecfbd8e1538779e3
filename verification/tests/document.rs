use hpscan::message::document::{is_admissible, parse_document, MAX_DEPTH};
use hpscan::message::error::ParseError;
use hpscan::message::job::parse_job_ready;
use hpscan::message::scan_status::{AdfState, ScanStatus, ScannerState};

fn malformed<T>() -> Result<T, ParseError> {
    Err(ParseError::MalformedDocument { missing: None })
}

fn status_with_extras(extras: usize) -> String {
    format!(
        "<ScanStatus><ScannerState>Idle</ScannerState><AdfState>Empty</AdfState>{}</ScanStatus>",
        "<x/>".repeat(extras)
    )
}

fn utf16le(text: &str) -> Vec<u8> {
    let mut bytes = vec![0xff, 0xfe];
    for unit in text.encode_utf16() {
        bytes.extend_from_slice(&unit.to_le_bytes());
    }
    bytes
}

fn utf16be(text: &str) -> Vec<u8> {
    let mut bytes = vec![0xfe, 0xff];
    for unit in text.encode_utf16() {
        bytes.extend_from_slice(&unit.to_be_bytes());
    }
    bytes
}

#[test]
fn document_with_as_many_elements_as_allowed_is_parsed() {
    assert_eq!(MAX_DEPTH, 512);
    let doc = status_with_extras(MAX_DEPTH - 3);
    assert!(is_admissible(doc.as_bytes()));
    assert_eq!(
        ScanStatus::read_xml(doc.as_bytes()),
        Ok(ScanStatus::new(ScannerState::Idle, AdfState::Empty))
    );
}

#[test]
fn document_with_one_element_too_many_is_refused() {
    let doc = status_with_extras(MAX_DEPTH - 2);
    assert!(!is_admissible(doc.as_bytes()));
    assert_eq!(ScanStatus::read_xml(doc.as_bytes()), malformed());
    assert!(parse_document(doc.as_bytes()).is_err());
}

#[test]
fn closing_tags_comments_and_instructions_are_not_counted() {
    let doc = format!(
        "<?xml version=\"1.0\"?><!-- c -->{}{}<?pi?><!-- d -->",
        "<a>".repeat(MAX_DEPTH),
        "</a>".repeat(MAX_DEPTH)
    );
    assert!(is_admissible(doc.as_bytes()));
    let doc = format!("{}{}", "<a>".repeat(MAX_DEPTH + 1), "</a>".repeat(MAX_DEPTH + 1));
    assert!(!is_admissible(doc.as_bytes()));
    assert!(is_admissible("</".repeat(10_000).as_bytes()));
    assert!(is_admissible("<!".repeat(10_000).as_bytes()));
    assert!(is_admissible("<?".repeat(10_000).as_bytes()));
    assert!(!is_admissible("<".repeat(MAX_DEPTH + 1).as_bytes()));
    assert!(is_admissible("<".repeat(MAX_DEPTH).as_bytes()));
}

#[test]
fn deeply_nested_document_is_refused_before_it_is_parsed() {
    for depth in [MAX_DEPTH + 1, 2_048, 100_000] {
        let open = "<a>".repeat(depth);
        assert_eq!(ScanStatus::read_xml(open.as_bytes()), malformed());
        assert_eq!(parse_job_ready(open.as_bytes()), malformed());
        let closed = format!("{}{}", open, "</a>".repeat(depth));
        assert_eq!(ScanStatus::read_xml(closed.as_bytes()), malformed());
        assert_eq!(ScanStatus::read_xml(&utf16le(&closed)), malformed());
        assert_eq!(ScanStatus::read_xml(&utf16be(&closed)), malformed());
    }
    let names = format!("<r>{}</r>", "<\u{2f00}>".repeat(MAX_DEPTH));
    assert!(!is_admissible(&utf16be(&names)));
    assert!(!is_admissible(&utf16le(&names)));
    assert!(!is_admissible(names.as_bytes()));
}

#[test]
fn document_nested_up_to_the_bound_is_parsed() {
    let closed = format!("{}{}", "<a>".repeat(MAX_DEPTH), "</a>".repeat(MAX_DEPTH));
    assert_eq!(
        ScanStatus::read_xml(closed.as_bytes()),
        Err(ParseError::MalformedDocument { missing: Some("ScannerState".to_string()) })
    );
    let open = "<a>".repeat(MAX_DEPTH);
    assert!(is_admissible(open.as_bytes()));
    assert_eq!(ScanStatus::read_xml(open.as_bytes()), malformed());
}

#[test]
fn document_type_declaration_without_entities_is_parsed() {
    let plain = "<!DOCTYPE ScanStatus><ScanStatus><ScannerState>Idle</ScannerState>\
                 <AdfState>Empty</AdfState></ScanStatus>";
    assert!(is_admissible(plain.as_bytes()));
    assert_eq!(
        ScanStatus::read_xml(plain.as_bytes()),
        Ok(ScanStatus::new(ScannerState::Idle, AdfState::Empty))
    );
    let subset = "<!DOCTYPE ScanStatus [<!ELEMENT ScanStatus (ScannerState)>]>\
                  <ScanStatus><AdfState>Empty</AdfState></ScanStatus>";
    assert!(is_admissible(subset.as_bytes()));
    assert_eq!(
        ScanStatus::read_xml(subset.as_bytes()),
        Err(ParseError::MalformedDocument { missing: Some("ScannerState".to_string()) })
    );
}

#[test]
fn entities_that_stand_for_elements_are_refused() {
    let doc = "<!DOCTYPE d [<!ENTITY % a \"<AdfState>Empty</AdfState>\">\
               <!ENTITY % b \"><ScanStatus><ScannerState>Idle</ScannerState>%a;%a;</ScanStatus>\">%b;";
    let root = xmltree::Element::parse(doc.as_bytes()).unwrap();
    assert_eq!(root.children.len(), 3);
    assert_eq!(ScanStatus::read_xml(doc.as_bytes()), malformed());
    let doc = "<!DOCTYPE d [<!ENTITY a \"<x/><x/><x/>\">]><r>&a;&a;</r>";
    let root = xmltree::Element::parse(doc.as_bytes()).unwrap();
    assert_eq!(root.children.len(), 6);
    assert_eq!(parse_job_ready(doc.as_bytes()), malformed());
}

#[test]
fn entity_declaration_is_found_in_each_encoding() {
    let doc = "<!DOCTYPE d [<!ENTITY a \"b\">]><r/>";
    assert!(!is_admissible(doc.as_bytes()));
    assert!(!is_admissible(&utf16le(doc)));
    assert!(!is_admissible(&utf16be(doc)));
    let doc = "<?xml version=\"1.0\"?><!DOCTYPE r [<!ELEMENT r ANY>]><r><!-- no entity --></r>";
    assert!(is_admissible(doc.as_bytes()));
    assert!(is_admissible(&utf16le(doc)));
    assert!(is_admissible(&utf16be(doc)));
}

#[test]
fn entity_declaration_counts_only_behind_a_document_type() {
    assert!(!is_admissible(b"<!D<!EN"));
    assert!(!is_admissible(b"<!D <!EN"));
    assert!(!is_admissible(b"<.!.D.<.!.E.N"));
    assert!(!is_admissible(b"<!D<.!.E.N"));
    assert!(is_admissible(b"<!EN<!D"));
    assert!(is_admissible(b"<!EN"));
    assert!(is_admissible(b"<!D"));
    assert!(is_admissible(b"<!D<!EL"));
    assert!(is_admissible(b"<!D<!E"));
    assert!(is_admissible(b"<!D!EN"));
    assert!(is_admissible(b""));
    assert_eq!(
        ScanStatus::read_xml(
            b"<r><ScannerState>Idle</ScannerState><AdfState>Empty</AdfState><n>Stop!Do</n></r>"
        ),
        Ok(ScanStatus::new(ScannerState::Idle, AdfState::Empty))
    );
}

#[test]
fn document_with_comment_and_references_is_parsed() {
    let doc = "<?xml version=\"1.0\" encoding=\"UTF-8\"?>\n\
               <!-- THIS DATA SUBJECT TO DISCLAIMER(S) INCLUDED WITH THE PRODUCT OF ORIGIN. -->\n\
               <ScanStatus><ScannerState>&#73;dle</ScannerState>\
               <AdfState>Empty</AdfState><Note>a &amp; b &lt; c</Note></ScanStatus>";
    assert!(is_admissible(doc.as_bytes()));
    assert_eq!(
        ScanStatus::read_xml(doc.as_bytes()),
        Ok(ScanStatus::new(ScannerState::Idle, AdfState::Empty))
    );
}

#[test]
fn status_document_in_utf16_is_parsed() {
    let doc = "<?xml version=\"1.0\" encoding=\"UTF-16\"?><ScanStatus>\
               <ScannerState>Idle</ScannerState><AdfState>Loaded</AdfState></ScanStatus>";
    assert_eq!(
        ScanStatus::read_xml(&utf16le(doc)),
        Ok(ScanStatus::new(ScannerState::Idle, AdfState::Loaded))
    );
}

#[test]
fn parsed_document_gives_its_root() {
    let root = parse_document(b"<r><ScannerState>Idle</ScannerState><AdfState>Empty</AdfState></r>")
        .unwrap();
    assert_eq!(root.name, "r");
    assert_eq!(
        ScanStatus::from_element(&root),
        Ok(ScanStatus::new(ScannerState::Idle, AdfState::Empty))
    );
    assert_eq!(parse_document(b"<r>").err(), Some(ParseError::MalformedDocument { missing: None }));
}
