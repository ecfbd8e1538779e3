use hpscan::message::error::ParseError;
use hpscan::message::scan_job::{ColorSpace, Format, InputSource, ScanJob};
use hpscan::message::scan_status::{AdfState, ScanStatus, ScannerState};
use hpscan::scanner::{
    file_name, output_file_name, read_body, HttpRequest, HttpResponse, Method, Scanner,
    ScannerError, ScanJobHandle, STATUS_BUSY,
};
use hpscan::timestamp::Timestamp;

const STATUS_IDLE: &str = "<ScanStatus><ScannerState>Idle</ScannerState>\
                           <AdfState>Empty</AdfState></ScanStatus>";

const JOB_PREPARING: &str = "<Job><ScanJob><PreScanPage><PageState>PreparingScan</PageState>\
                             <BinaryURL>/Scan/Jobs/7/Pages/1</BinaryURL></PreScanPage></ScanJob></Job>";

const JOB_READY: &str = "<Job><ScanJob><PreScanPage><PageState>ReadyToUpload</PageState>\
                         <BinaryURL>/Scan/Jobs/7/Pages/1</BinaryURL></PreScanPage></ScanJob></Job>";

fn response(status: u16, location: Option<&str>, body: &[u8]) -> HttpResponse {
    HttpResponse { status, location: location.map(|l| l.to_string()), body: body.to_vec() }
}

fn started_job() -> ScanJobHandle {
    Scanner::start_job(Ok(response(201, Some("http://printer/Jobs/JobList/7"), b""))).unwrap()
}

#[test]
fn scanner_keeps_its_configuration() {
    let scanner = Scanner::new("printer.local", true);
    assert_eq!(scanner.host(), "printer.local");
    assert!(scanner.use_tls());
    assert!(!Scanner::new("printer.local", false).use_tls());
}

#[test]
fn urls_follow_the_transport() {
    assert_eq!(Scanner::new("printer", true).url("/Scan/Status"), "https://printer/Scan/Status");
    assert_eq!(Scanner::new("10.0.0.7", false).url("/x"), "http://10.0.0.7/x");
    assert_eq!(Scanner::new("printer", false).url(""), "http://printer");
}

#[test]
fn status_request_is_a_get_of_the_status_endpoint() {
    assert_eq!(
        Scanner::new("printer", false).status_request(),
        HttpRequest {
            method: Method::Get,
            url: "http://printer/Scan/Status".to_string(),
            body: Vec::new(),
        }
    );
}

#[test]
fn job_request_posts_the_serialized_job() {
    let job = ScanJob::new(InputSource::Platen, 300, Format::Pdf, ColorSpace::Color);
    let request = Scanner::new("printer", true).job_request(&job);
    assert_eq!(request.method, Method::Post);
    assert_eq!(request.url, "https://printer/Scan/Jobs");
    assert_eq!(request.body, job.to_xml());
    assert!(!request.body.is_empty());
}

#[test]
fn status_reply_is_decoded() {
    let status = Scanner::get_scan_status(Ok(response(200, None, STATUS_IDLE.as_bytes())));
    assert_eq!(status, Ok(ScanStatus::new(ScannerState::Idle, AdfState::Empty)));
}

#[test]
fn status_reply_that_did_not_come_is_a_transport_failure() {
    assert_eq!(Scanner::get_scan_status(Err(ScannerError::Transport)), Err(ScannerError::Transport));
    assert_eq!(
        Scanner::get_scan_status(Ok(response(500, None, STATUS_IDLE.as_bytes()))),
        Err(ScannerError::Transport)
    );
    assert_eq!(
        Scanner::get_scan_status(Ok(response(199, None, STATUS_IDLE.as_bytes()))),
        Err(ScannerError::Transport)
    );
    assert_eq!(
        Scanner::get_scan_status(Ok(response(300, None, STATUS_IDLE.as_bytes()))),
        Err(ScannerError::Transport)
    );
    assert!(Scanner::get_scan_status(Ok(response(299, None, STATUS_IDLE.as_bytes()))).is_ok());
}

#[test]
fn status_reply_that_cannot_be_decoded_is_a_parse_failure() {
    assert_eq!(
        Scanner::get_scan_status(Ok(response(200, None, b"<html>"))),
        Err(ScannerError::Parse(ParseError::MalformedDocument { missing: None }))
    );
    assert_eq!(
        Scanner::get_scan_status(Ok(response(200, None, b"<ScanStatus/>"))),
        Err(ScannerError::Parse(ParseError::MalformedDocument {
            missing: Some("ScannerState".to_string()),
        }))
    );
}

#[test]
fn created_job_is_kept_by_its_location() {
    let handle = started_job();
    assert_eq!(handle.location(), "http://printer/Jobs/JobList/7");
    assert!(!handle.is_ready());
}

#[test]
fn busy_device_turns_the_job_down() {
    assert_eq!(STATUS_BUSY, 503);
    assert_eq!(Scanner::start_job(Ok(response(503, None, b"busy"))), Err(ScannerError::Busy));
    assert_eq!(
        Scanner::start_job(Ok(response(503, Some("http://printer/Jobs/1"), b""))),
        Err(ScannerError::Busy)
    );
}

#[test]
fn other_job_replies_are_transport_failures() {
    assert_eq!(Scanner::start_job(Err(ScannerError::Transport)), Err(ScannerError::Transport));
    assert_eq!(Scanner::start_job(Ok(response(500, None, b""))), Err(ScannerError::Transport));
    assert_eq!(Scanner::start_job(Ok(response(404, None, b""))), Err(ScannerError::Transport));
    assert_eq!(
        Scanner::start_job(Ok(response(400, Some("http://printer/Jobs/1"), b""))),
        Err(ScannerError::Transport)
    );
    assert_eq!(Scanner::start_job(Ok(response(201, None, b""))), Err(ScannerError::Transport));
}

#[test]
fn job_status_request_is_a_get_of_the_location() {
    assert_eq!(
        started_job().status_request(),
        HttpRequest {
            method: Method::Get,
            url: "http://printer/Jobs/JobList/7".to_string(),
            body: Vec::new(),
        }
    );
}

#[test]
fn retrieve_status_follows_the_page() {
    let scanner = Scanner::new("printer", false);
    let mut handle = started_job();
    assert_eq!(handle.retrieve_status(Ok(response(200, None, JOB_PREPARING.as_bytes()))), Ok(false));
    assert!(!handle.is_ready());
    assert_eq!(handle.download_request(&scanner), None);
    assert_eq!(handle.retrieve_status(Ok(response(200, None, JOB_READY.as_bytes()))), Ok(true));
    assert!(handle.is_ready());
    assert_eq!(
        handle.download_request(&scanner),
        Some(HttpRequest {
            method: Method::Get,
            url: "http://printer/Scan/Jobs/7/Pages/1".to_string(),
            body: Vec::new(),
        })
    );
    assert_eq!(handle.location(), "http://printer/Jobs/JobList/7");
}

#[test]
fn retrieve_status_can_be_repeated() {
    let mut handle = started_job();
    for _ in 0..3 {
        assert_eq!(
            handle.retrieve_status(Ok(response(200, None, JOB_PREPARING.as_bytes()))),
            Ok(false)
        );
        assert_eq!(handle, started_job());
    }
    assert_eq!(handle.retrieve_status(Ok(response(200, None, JOB_READY.as_bytes()))), Ok(true));
    let ready = format!("{:?}", handle);
    assert_eq!(handle.retrieve_status(Ok(response(200, None, JOB_READY.as_bytes()))), Ok(true));
    assert_eq!(format!("{:?}", handle), ready);
}

#[test]
fn retrieve_status_failures_leave_the_handle() {
    let mut handle = started_job();
    assert_eq!(handle.retrieve_status(Err(ScannerError::Transport)), Err(ScannerError::Transport));
    assert_eq!(
        handle.retrieve_status(Ok(response(404, None, JOB_READY.as_bytes()))),
        Err(ScannerError::Transport)
    );
    assert_eq!(
        handle.retrieve_status(Ok(response(200, None, b"<Job/>"))),
        Err(ScannerError::Parse(ParseError::MalformedDocument {
            missing: Some("ScanJob".to_string()),
        }))
    );
    assert_eq!(handle, started_job());
}

#[test]
fn download_gives_the_whole_body() {
    let image = vec![0x25u8, 0x50, 0x44, 0x46, 0x00, 0xff];
    assert_eq!(started_job().download(Ok(response(200, None, &image))), Ok(image.clone()));
    assert_eq!(
        started_job().download(Ok(response(404, None, &image))),
        Err(ScannerError::Transport)
    );
    assert_eq!(started_job().download(Err(ScannerError::Transport)), Err(ScannerError::Transport));
    assert_eq!(read_body(Ok(response(204, None, b""))), Ok(Vec::new()));
}

#[test]
fn output_file_is_named_by_time_and_format() {
    let time = Timestamp::new(2018, 3, 14, 15, 9, 26).unwrap();
    assert_eq!(output_file_name(&Format::Pdf, &time), "scan_20180314_150926.pdf");
    assert_eq!(output_file_name(&Format::Jpeg, &time), "scan_20180314_150926.jpeg");
    let time = Timestamp::new(1999, 12, 31, 23, 59, 60).unwrap();
    assert_eq!(output_file_name(&Format::Pdf, &time), "scan_19991231_235960.pdf");
    assert_eq!(time.to_compact(), "19991231_235960");
    let time = Timestamp::new(7, 1, 2, 3, 4, 5).unwrap();
    assert_eq!(time.to_compact(), "70102_030405");
    let time = Timestamp::new(0, 10, 20, 0, 0, 0).unwrap();
    assert_eq!(time.to_compact(), "01020_000000");
    let time = Timestamp::new(u16::MAX, 12, 31, 23, 59, 59).unwrap();
    assert_eq!(output_file_name(&Format::Jpeg, &time), "scan_655351231_235959.jpeg");
    assert_eq!(file_name(Format::Jpeg, "now"), "scan_now.jpeg");
    assert_eq!(Format::Pdf.extension(), "pdf");
    assert_eq!(Format::Jpeg.extension(), "jpeg");
}

#[test]
fn timestamp_fields_have_ranges() {
    assert!(Timestamp::new(2024, 1, 1, 0, 0, 0).is_some());
    assert!(Timestamp::new(0, 12, 31, 23, 59, 60).is_some());
    assert!(Timestamp::new(u16::MAX, 12, 31, 23, 59, 60).is_some());
    assert!(Timestamp::new(2024, 0, 1, 0, 0, 0).is_none());
    assert!(Timestamp::new(2024, 13, 1, 0, 0, 0).is_none());
    assert!(Timestamp::new(2024, 1, 0, 0, 0, 0).is_none());
    assert!(Timestamp::new(2024, 1, 32, 0, 0, 0).is_none());
    assert!(Timestamp::new(2024, 1, 1, 24, 0, 0).is_none());
    assert!(Timestamp::new(2024, 1, 1, 0, 60, 0).is_none());
    assert!(Timestamp::new(2024, 1, 1, 0, 0, 61).is_none());
}

#[test]
fn scanner_error_texts() {
    assert_eq!(ScannerError::Transport.to_string(), "transport failure");
    assert_eq!(ScannerError::Busy.to_string(), "scanner is busy");
    assert_eq!(ScannerError::AdfEmpty.to_string(), "document feeder is empty");
    assert_eq!(
        ScannerError::Parse(ParseError::unknown_enum_value("AdfState", "Jammed")).to_string(),
        "parse error: unknown value Jammed for AdfState"
    );
    assert_eq!(
        ScannerError::from(ParseError::missing_element("ScannerState")),
        ScannerError::Parse(ParseError::MalformedDocument {
            missing: Some("ScannerState".to_string()),
        })
    );
}
