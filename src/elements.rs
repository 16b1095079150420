//! The stage model of a project: its dimensions and its (still empty) elements.
use vstd::prelude::*;
use crate::decimal::{dimension_of, parse_dimension};

verus! {

/// The unit in which a stage is measured.
#[derive(PartialEq, Eq, Structural, Clone, Copy, Debug)]
pub enum Measurement {
    /// Feet.
    Imperial,
    /// Meters.
    Metric,
}

/// The unit that a unit text of the "New Project" form selects: `"ft"` is
/// imperial, any other text metric.
pub open spec fn unit_of(text: Seq<char>) -> Measurement {
    if text == seq!['f', 't'] {
        Measurement::Imperial
    } else {
        Measurement::Metric
    }
}

impl Measurement {
    /// The unit that `text` selects.
    pub fn from_unit_text(text: &str) -> (r: Measurement)
        ensures
            r == unit_of(text@),
    {
        if text.unicode_len() == 2 && text.get_char(0) == 'f' && text.get_char(1) == 't' {
            assert(text@ =~= seq!['f', 't']);
            Measurement::Imperial
        } else {
            Measurement::Metric
        }
    }
}

impl Default for Measurement {
    fn default() -> (r: Measurement)
        ensures
            r == Measurement::Imperial,
    {
        Measurement::Imperial
    }
}

/// The size of a stage. A width or height of 0 means that it is unset.
#[derive(PartialEq, Eq, Structural, Clone, Copy, Debug)]
pub struct Dimensons {
    pub width: u8,
    pub height: u8,
    pub measurement: Measurement,
}

impl Dimensons {
    /// Both width and height are set, so the stage can be shown.
    pub open spec fn spec_is_usable(self) -> bool {
        self.width > 0 && self.height > 0
    }

    /// Whether both width and height are set.
    pub fn is_usable(&self) -> (r: bool)
        ensures
            r == self.spec_is_usable(),
    {
        self.width > 0 && self.height > 0
    }
}

/// The elements placed on a stage. Nothing is placed yet.
#[derive(PartialEq, Eq, Structural, Clone, Copy, Debug)]
pub struct Elements {}

/// A project together with its stage.
pub struct Project {
    pub name: String,
    pub path: String,
    pub venue: String,
    pub dimensions: Dimensons,
    pub elements: Elements,
}

/// The fields of the "New Project" form from which a `Project` is made.
pub struct Primitive {
    pub name: String,
    pub venue: String,
    pub path: String,
    pub height: String,
    pub width: String,
    pub measurement: String,
}

/// The project that the form fields `pr` make: texts kept, dimensions read as
/// decimal numbers (0 where unreadable), unit chosen by `unit_of`.
pub open spec fn project_of_primitive(pr: Primitive) -> Project {
    Project {
        name: pr.name,
        path: pr.path,
        venue: pr.venue,
        dimensions: Dimensons {
            width: dimension_of(pr.width@),
            height: dimension_of(pr.height@),
            measurement: unit_of(pr.measurement@),
        },
        elements: Elements {},
    }
}

impl From<Primitive> for Project {
    fn from(pr: Primitive) -> (r: Project) {
        let parsed_height = parse_dimension(pr.height.as_str());
        let parsed_width = parse_dimension(pr.width.as_str());
        let measurement = Measurement::from_unit_text(pr.measurement.as_str());
        let dimensions = Dimensons { width: parsed_width, height: parsed_height, measurement };
        Project {
            name: pr.name,
            path: pr.path,
            venue: pr.venue,
            dimensions,
            elements: Elements {},
        }
    }
}

impl vstd::std_specs::convert::FromSpecImpl<Primitive> for Project {
    open spec fn obeys_from_spec() -> bool {
        true
    }

    open spec fn from_spec(pr: Primitive) -> Project {
        project_of_primitive(pr)
    }
}

} // verus!
