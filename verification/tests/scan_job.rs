use hpscan::cli;
use hpscan::message::scan_job::{ColorSpace, Format, InputSource, ScanJob};
use hpscan::message::util::decimal_text;

fn request_text(resolution: &str, format: &str, color_space: &str, source: &str) -> String {
    format!(
        "<?xml version=\"1.0\" encoding=\"UTF-8\"?>\
         <ScanSettings xmlns=\"http://www.hp.com/schemas/imaging/con/cnx/scan/2008/08/19\">\
         <XResolution>{0}</XResolution>\
         <YResolution>{0}</YResolution>\
         <XStart>0</XStart>\
         <YStart>0</YStart>\
         <Width>2480</Width>\
         <Height>3508</Height>\
         <Format>{1}</Format>\
         <CompressionQFactor>15</CompressionQFactor>\
         <ColorSpace>{2}</ColorSpace>\
         <BitDepth>8</BitDepth>\
         <InputSource>{3}</InputSource>\
         <GrayRendering>NTSC</GrayRendering>\
         <ToneMap>\
         <Gamma>1000</Gamma>\
         <Brightness>1000</Brightness>\
         <Contrast>1000</Contrast>\
         <Highlite>179</Highlite>\
         <Shadow>25</Shadow>\
         </ToneMap>\
         <ContentType>Photo</ContentType>\
         </ScanSettings>",
        resolution, format, color_space, source
    )
}

#[test]
fn job_request_is_the_schema_literally() {
    let job = ScanJob::new(InputSource::Platen, 300, Format::Pdf, ColorSpace::Color);
    assert_eq!(
        String::from_utf8(job.to_xml()).unwrap(),
        request_text("300", "Pdf", "Color", "Platen")
    );
}

#[test]
fn job_request_carries_each_setting() {
    let job = ScanJob::new(InputSource::Adf, 1200, Format::Jpeg, ColorSpace::Gray);
    assert_eq!(
        String::from_utf8(job.to_xml()).unwrap(),
        request_text("1200", "Jpeg", "Gray", "Adf")
    );
}

#[test]
fn job_request_is_deterministic() {
    let job = ScanJob::new(InputSource::Adf, 600, Format::Jpeg, ColorSpace::Gray);
    let same = ScanJob::new(InputSource::Adf, 600, Format::Jpeg, ColorSpace::Gray);
    assert_eq!(job.to_xml(), job.to_xml());
    assert_eq!(job.to_xml(), same.to_xml());
}

#[test]
fn job_request_with_extreme_resolutions() {
    let job = ScanJob::new(InputSource::Platen, 0, Format::Pdf, ColorSpace::Color);
    assert_eq!(String::from_utf8(job.to_xml()).unwrap(), request_text("0", "Pdf", "Color", "Platen"));
    let job = ScanJob::new(InputSource::Platen, u32::MAX, Format::Pdf, ColorSpace::Color);
    assert_eq!(
        String::from_utf8(job.to_xml()).unwrap(),
        request_text("4294967295", "Pdf", "Color", "Platen")
    );
}

#[test]
fn job_getters() {
    let job = ScanJob::new(InputSource::Adf, 150, Format::Jpeg, ColorSpace::Gray);
    assert_eq!(job.input_source(), InputSource::Adf);
    assert_eq!(job.resolution(), 150);
    assert_eq!(job.format(), Format::Jpeg);
    assert_eq!(job.color_space(), ColorSpace::Gray);
}

#[test]
fn element_texts_of_the_settings() {
    assert_eq!(InputSource::Platen.name(), "Platen");
    assert_eq!(InputSource::Adf.name(), "Adf");
    assert_eq!(Format::Pdf.name(), "Pdf");
    assert_eq!(Format::Jpeg.name(), "Jpeg");
    assert_eq!(ColorSpace::Gray.name(), "Gray");
    assert_eq!(ColorSpace::Color.name(), "Color");
}

#[test]
fn decimal_numerals() {
    assert_eq!(decimal_text(0), "0");
    assert_eq!(decimal_text(7), "7");
    assert_eq!(decimal_text(10), "10");
    assert_eq!(decimal_text(300), "300");
    assert_eq!(decimal_text(1234567890), "1234567890");
    assert_eq!(decimal_text(u32::MAX), "4294967295");
}

#[test]
fn requested_settings_to_internal() {
    assert_eq!(cli::Format::Pdf.to_internal(), Format::Pdf);
    assert_eq!(cli::Format::Jpeg.to_internal(), Format::Jpeg);
    assert_eq!(cli::ColorSpace::Gray.to_internal(), ColorSpace::Gray);
    assert_eq!(cli::ColorSpace::Color.to_internal(), ColorSpace::Color);
}
