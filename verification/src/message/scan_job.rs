//! The job request that is sent to the device.

use vstd::prelude::*;
use xml::writer::EventWriter;

use crate::message::emitter::{
    into_bytes, new_writer, open_elements, rendered, write_token, written, Event, Token,
};
use crate::message::util::{decimal, decimal_text};

verus! {

/// Where the device takes the page from.
#[derive(Clone, Copy, Debug, PartialEq, Eq, Structural)]
pub enum InputSource {
    Platen,
    Adf,
}

/// The file format of the scanned image.
#[derive(Clone, Copy, Debug, PartialEq, Eq, Structural)]
pub enum Format {
    Pdf,
    Jpeg,
}

#[derive(Clone, Copy, Debug, PartialEq, Eq, Structural)]
pub enum ColorSpace {
    Gray,
    Color,
}

impl InputSource {
    /// The text of the `InputSource` element.
    pub open spec fn spec_name(self) -> Seq<char> {
        match self {
            InputSource::Platen => "Platen"@,
            InputSource::Adf => "Adf"@,
        }
    }

    pub fn name(self) -> (name: &'static str)
        ensures
            name@ == self.spec_name(),
    {
        match self {
            InputSource::Platen => "Platen",
            InputSource::Adf => "Adf",
        }
    }
}

impl Format {
    /// The text of the `Format` element.
    pub open spec fn spec_name(self) -> Seq<char> {
        match self {
            Format::Pdf => "Pdf"@,
            Format::Jpeg => "Jpeg"@,
        }
    }

    pub fn name(self) -> (name: &'static str)
        ensures
            name@ == self.spec_name(),
    {
        match self {
            Format::Pdf => "Pdf",
            Format::Jpeg => "Jpeg",
        }
    }
}

impl ColorSpace {
    /// The text of the `ColorSpace` element.
    pub open spec fn spec_name(self) -> Seq<char> {
        match self {
            ColorSpace::Gray => "Gray"@,
            ColorSpace::Color => "Color"@,
        }
    }

    pub fn name(self) -> (name: &'static str)
        ensures
            name@ == self.spec_name(),
    {
        match self {
            ColorSpace::Gray => "Gray",
            ColorSpace::Color => "Color",
        }
    }
}

/// The settings of one scan. A job is built once and not changed.
#[derive(Clone, Copy, Debug, PartialEq, Eq)]
pub struct ScanJob {
    input_source: InputSource,
    resolution: u32,
    format: Format,
    color_space: ColorSpace,
}

/// The mathematical content of a [`ScanJob`].
pub struct ScanJobView {
    pub input_source: InputSource,
    pub resolution: nat,
    pub format: Format,
    pub color_space: ColorSpace,
}

impl View for ScanJob {
    type V = ScanJobView;

    closed spec fn view(&self) -> ScanJobView {
        ScanJobView {
            input_source: self.input_source,
            resolution: self.resolution as nat,
            format: self.format,
            color_space: self.color_space,
        }
    }
}

/// The events of an element `name` that holds nothing but `text`.
pub open spec fn value_events(name: Seq<char>, text: Seq<char>) -> Seq<Event> {
    seq![
        Event::StartElement { name, default_ns: None },
        Event::Characters(text),
        Event::EndElement,
    ]
}

/// The events of the `ToneMap` element, which is the same in every request.
pub open spec fn tone_map_events() -> Seq<Event> {
    seq![Event::StartElement { name: "ToneMap"@, default_ns: None }]
        + value_events("Gamma"@, "1000"@)
        + value_events("Brightness"@, "1000"@)
        + value_events("Contrast"@, "1000"@)
        + value_events("Highlite"@, "179"@)
        + value_events("Shadow"@, "25"@)
        + seq![Event::EndElement]
}

/// The events of the request for `job`: the elements of the device's
/// schema, in the order that the schema gives them. The scan area is a
/// whole A4 page, measured in 300ths of an inch.
pub open spec fn request_events(job: ScanJobView) -> Seq<Event> {
    seq![
        Event::StartElement {
            name: "ScanSettings"@,
            default_ns: Some("http://www.hp.com/schemas/imaging/con/cnx/scan/2008/08/19"@),
        },
    ]
        + value_events("XResolution"@, decimal(job.resolution))
        + value_events("YResolution"@, decimal(job.resolution))
        + value_events("XStart"@, "0"@)
        + value_events("YStart"@, "0"@)
        + value_events("Width"@, "2480"@)
        + value_events("Height"@, "3508"@)
        + value_events("Format"@, job.format.spec_name())
        + value_events("CompressionQFactor"@, "15"@)
        + value_events("ColorSpace"@, job.color_space.spec_name())
        + value_events("BitDepth"@, "8"@)
        + value_events("InputSource"@, job.input_source.spec_name())
        + value_events("GrayRendering"@, "NTSC"@)
        + tone_map_events()
        + value_events("ContentType"@, "Photo"@)
        + seq![Event::EndElement]
}

proof fn lemma_push_opens(events: Seq<Event>, event: Event)
    ensures
        open_elements(events.push(event)) == open_elements(events) + match event {
            Event::StartElement { .. } => 1int,
            Event::Characters(_) => 0int,
            Event::EndElement => -1int,
        },
{
    assert(events.push(event).drop_last() =~= events);
}

/// Writes the element `name` with the text `text`.
fn write_value(writer: &mut EventWriter<Vec<u8>>, name: &str, text: &str)
    requires
        open_elements(written(*old(writer))) >= 0,
    ensures
        written(*final(writer)) == written(*old(writer)) + value_events(name@, text@),
        open_elements(written(*final(writer))) == open_elements(written(*old(writer))),
{
    let ghost before = written(*writer);
    let ghost start = Event::StartElement { name: name@, default_ns: None };
    proof {
        lemma_push_opens(before, start);
        lemma_push_opens(before.push(start), Event::Characters(text@));
        lemma_push_opens(before.push(start).push(Event::Characters(text@)), Event::EndElement);
    }
    let _ = write_token(writer, Token::StartElement { name, default_ns: None });
    let _ = write_token(writer, Token::Characters(text));
    let _ = write_token(writer, Token::EndElement);
    assert(written(*writer) =~= before + value_events(name@, text@));
}

/// Writes the `ToneMap` element.
fn write_tone_map(writer: &mut EventWriter<Vec<u8>>)
    requires
        open_elements(written(*old(writer))) >= 0,
    ensures
        written(*final(writer)) == written(*old(writer)) + tone_map_events(),
        open_elements(written(*final(writer))) == open_elements(written(*old(writer))),
{
    let ghost before = written(*writer);
    proof {
        lemma_push_opens(before, Event::StartElement { name: "ToneMap"@, default_ns: None });
    }
    let _ = write_token(writer, Token::StartElement { name: "ToneMap", default_ns: None });
    write_value(writer, "Gamma", "1000");
    write_value(writer, "Brightness", "1000");
    write_value(writer, "Contrast", "1000");
    write_value(writer, "Highlite", "179");
    write_value(writer, "Shadow", "25");
    proof {
        lemma_push_opens(written(*writer), Event::EndElement);
    }
    let _ = write_token(writer, Token::EndElement);
    assert(written(*writer) =~= before + tone_map_events());
}

impl ScanJob {
    pub fn new(
        input_source: InputSource,
        resolution: u32,
        format: Format,
        color_space: ColorSpace,
    ) -> (job: ScanJob)
        ensures
            job@ == (ScanJobView {
                input_source,
                resolution: resolution as nat,
                format,
                color_space,
            }),
    {
        ScanJob { input_source, resolution, format, color_space }
    }

    pub fn input_source(&self) -> (source: InputSource)
        ensures
            source == self@.input_source,
    {
        self.input_source
    }

    pub fn resolution(&self) -> (dpi: u32)
        ensures
            dpi == self@.resolution,
    {
        self.resolution
    }

    pub fn format(&self) -> (format: Format)
        ensures
            format == self@.format,
    {
        self.format
    }

    pub fn color_space(&self) -> (color_space: ColorSpace)
        ensures
            color_space == self@.color_space,
    {
        self.color_space
    }

    /// The bytes of the request for a job.
    pub open spec fn spec_to_xml(job: ScanJobView) -> Seq<u8> {
        rendered(request_events(job))
    }

    /// Serializes the job as the body of the request that creates it. The
    /// result depends on nothing but the job's four settings.
    pub fn to_xml(&self) -> (bytes: Vec<u8>)
        ensures
            bytes@ == Self::spec_to_xml(self@),
    {
        let resolution = decimal_text(self.resolution);
        let mut writer = new_writer();
        proof {
            lemma_push_opens(
                written(writer),
                Event::StartElement {
                    name: "ScanSettings"@,
                    default_ns: Some(
                        "http://www.hp.com/schemas/imaging/con/cnx/scan/2008/08/19"@,
                    ),
                },
            );
        }
        let _ = write_token(
            &mut writer,
            Token::StartElement {
                name: "ScanSettings",
                default_ns: Some("http://www.hp.com/schemas/imaging/con/cnx/scan/2008/08/19"),
            },
        );
        write_value(&mut writer, "XResolution", resolution.as_str());
        write_value(&mut writer, "YResolution", resolution.as_str());
        write_value(&mut writer, "XStart", "0");
        write_value(&mut writer, "YStart", "0");
        write_value(&mut writer, "Width", "2480");
        write_value(&mut writer, "Height", "3508");
        write_value(&mut writer, "Format", self.format.name());
        write_value(&mut writer, "CompressionQFactor", "15");
        write_value(&mut writer, "ColorSpace", self.color_space.name());
        write_value(&mut writer, "BitDepth", "8");
        write_value(&mut writer, "InputSource", self.input_source.name());
        write_value(&mut writer, "GrayRendering", "NTSC");
        write_tone_map(&mut writer);
        write_value(&mut writer, "ContentType", "Photo");
        proof {
            lemma_push_opens(written(writer), Event::EndElement);
        }
        let _ = write_token(&mut writer, Token::EndElement);
        assert(written(writer) =~= request_events(self@));
        into_bytes(writer)
    }
}

/// Two jobs with the same settings are serialized to the same bytes.
pub proof fn lemma_to_xml_deterministic(a: ScanJob, b: ScanJob)
    requires
        a@ == b@,
    ensures
        ScanJob::spec_to_xml(a@) == ScanJob::spec_to_xml(b@),
{
}

} // verus!
