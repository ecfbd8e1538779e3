//! What the user can ask for, as the command line names it.

use vstd::prelude::*;

use crate::message::scan_job;

verus! {

/// The requested file format.
#[derive(Clone, Copy, Debug, PartialEq, Eq, Structural)]
pub enum Format {
    Pdf,
    Jpeg,
}

/// The requested color space.
#[derive(Clone, Copy, Debug, PartialEq, Eq, Structural)]
pub enum ColorSpace {
    Gray,
    Color,
}

/// The requested source of the page. `Auto` leaves the choice to the state
/// of the document feeder.
#[derive(Clone, Copy, Debug, PartialEq, Eq, Structural)]
pub enum Source {
    Auto,
    Adf,
    Glass,
}

impl Format {
    pub open spec fn spec_to_internal(self) -> scan_job::Format {
        match self {
            Format::Pdf => scan_job::Format::Pdf,
            Format::Jpeg => scan_job::Format::Jpeg,
        }
    }

    /// The format of the job request that stands for this choice.
    pub fn to_internal(&self) -> (format: scan_job::Format)
        ensures
            format == self.spec_to_internal(),
    {
        match *self {
            Format::Pdf => scan_job::Format::Pdf,
            Format::Jpeg => scan_job::Format::Jpeg,
        }
    }
}

impl ColorSpace {
    pub open spec fn spec_to_internal(self) -> scan_job::ColorSpace {
        match self {
            ColorSpace::Gray => scan_job::ColorSpace::Gray,
            ColorSpace::Color => scan_job::ColorSpace::Color,
        }
    }

    /// The color space of the job request that stands for this choice.
    pub fn to_internal(&self) -> (color_space: scan_job::ColorSpace)
        ensures
            color_space == self.spec_to_internal(),
    {
        match *self {
            ColorSpace::Gray => scan_job::ColorSpace::Gray,
            ColorSpace::Color => scan_job::ColorSpace::Color,
        }
    }
}

} // verus!
