use hpscan::message::error::ParseError;
use hpscan::message::job::{parse_job_ready, JobStatus, PageState};

fn job_document(page_state: &str) -> String {
    format!(
        r#"<?xml version="1.0" encoding="UTF-8"?>
<j:Job xmlns:j="http://www.hp.com/schemas/imaging/con/ledm/jobs/2009/04/30"
       xmlns="http://www.hp.com/schemas/imaging/con/cnx/scan/2008/08/19">
  <j:JobUrl>/Jobs/JobList/2</j:JobUrl>
  <j:JobCategory>Scan</j:JobCategory>
  <j:JobState>Processing</j:JobState>
  <ScanJob>
    <PreScanPage>
      <PageNumber>1</PageNumber>
      <PageState>{}</PageState>
      <BinaryURL>/Scan/Jobs/2/Pages/1</BinaryURL>
      <ImageOrientation>Normal</ImageOrientation>
    </PreScanPage>
  </ScanJob>
</j:Job>"#,
        page_state
    )
}

#[test]
fn job_in_progress_is_not_ready() {
    let doc = job_document("PreparingScan");
    assert_eq!(parse_job_ready(doc.as_bytes()), Ok(false));
    assert_eq!(JobStatus::read_xml(doc.as_bytes()), Ok(JobStatus::InProgress));
}

#[test]
fn job_with_page_to_upload_is_ready() {
    let doc = job_document("ReadyToUpload");
    assert_eq!(parse_job_ready(doc.as_bytes()), Ok(true));
    assert_eq!(
        JobStatus::read_xml(doc.as_bytes()),
        Ok(JobStatus::Ready { binary_url: "/Scan/Jobs/2/Pages/1".to_string() })
    );
}

#[test]
fn unknown_page_state_is_reported_with_its_value() {
    let doc = job_document("UploadCompleted");
    assert_eq!(
        parse_job_ready(doc.as_bytes()),
        Err(ParseError::UnknownEnumValue {
            name: "PageState".to_string(),
            value: "UploadCompleted".to_string(),
        })
    );
}

#[test]
fn job_document_without_its_elements() {
    assert_eq!(
        parse_job_ready(b"<Job></Job>"),
        Err(ParseError::MalformedDocument { missing: Some("ScanJob".to_string()) })
    );
    assert_eq!(
        parse_job_ready(b"<Job><ScanJob></ScanJob></Job>"),
        Err(ParseError::MalformedDocument { missing: Some("PreScanPage".to_string()) })
    );
    assert_eq!(
        parse_job_ready(b"<Job><ScanJob><PreScanPage></PreScanPage></ScanJob></Job>"),
        Err(ParseError::MalformedDocument { missing: Some("PageState".to_string()) })
    );
    assert_eq!(
        parse_job_ready(b"<Job><ScanJob><PreScanPage"),
        Err(ParseError::MalformedDocument { missing: None })
    );
}

#[test]
fn page_address_is_needed_only_once_the_page_is_ready() {
    let preparing =
        b"<Job><ScanJob><PreScanPage><PageState>PreparingScan</PageState></PreScanPage></ScanJob></Job>";
    assert_eq!(parse_job_ready(preparing), Ok(false));
    let ready =
        b"<Job><ScanJob><PreScanPage><PageState>ReadyToUpload</PageState></PreScanPage></ScanJob></Job>";
    assert_eq!(
        parse_job_ready(ready),
        Err(ParseError::MalformedDocument { missing: Some("BinaryURL".to_string()) })
    );
}

#[test]
fn job_status_from_values() {
    assert_eq!(
        JobStatus::from_values(Ok("ReadyToUpload".to_string()), Ok("/page".to_string())),
        Ok(JobStatus::Ready { binary_url: "/page".to_string() })
    );
    assert_eq!(
        JobStatus::from_values(
            Ok("PreparingScan".to_string()),
            Err(ParseError::MalformedDocument { missing: Some("BinaryURL".to_string()) }),
        ),
        Ok(JobStatus::InProgress)
    );
    assert!(JobStatus::Ready { binary_url: "/page".to_string() }.is_ready());
    assert!(!JobStatus::InProgress.is_ready());
}

#[test]
fn page_state_from_str() {
    assert_eq!(PageState::from_str("PreparingScan"), Ok(PageState::PreparingScan));
    assert_eq!(PageState::from_str("ReadyToUpload"), Ok(PageState::ReadyToUpload));
    assert_eq!("ReadyToUpload".parse::<PageState>(), Ok(PageState::ReadyToUpload));
    assert_eq!(
        PageState::from_str("Ready"),
        Err(ParseError::UnknownEnumValue { name: "PageState".to_string(), value: "Ready".to_string() })
    );
}
