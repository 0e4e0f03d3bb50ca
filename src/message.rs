//! Messages exchanged with the sensor, the client and the result log.

use vstd::prelude::*;

verus! {

/// Number of thousandths in one unit of every fixed-point quantity.
pub const SCALE: i64 = 1000;

/// Phase of a contact reported by the touch surface.
#[derive(Clone, Copy, Debug, PartialEq, Eq, Structural)]
pub enum Phase {
    Start,
    Move,
    End,
}

/// One contact event from the touch surface; pressure and position in thousandths.
#[derive(Clone, Copy, Debug, PartialEq, Eq, Structural)]
pub struct SensorEvent {
    pub phase: Phase,
    pub pressure: i64,
    pub x: i64,
    pub y: i64,
    pub material: u32,
}

/// An answer to one Likert question.
#[derive(Clone, Debug, PartialEq, Eq)]
pub struct LikertAnswer {
    pub name: String,
    pub value: u32,
}

/// A subject or operator action arriving from the client.
#[derive(Clone, Debug, PartialEq, Eq)]
pub enum Control {
    Begin,
    ConsentGiven,
    Likert(LikertAnswer),
    /// Any message that no slide acts on.
    Other,
}

/// Page of the client presentation.
#[derive(Clone, Copy, Debug, PartialEq, Eq, Structural)]
pub enum Page {
    FrontMatter,
    Consent,
    Likert,
    Press,
    /// A numbered response page.
    Slide(u32),
}

/// Kind of slide that a material index is shown on.
#[derive(Clone, Copy, Debug, PartialEq, Eq, Structural)]
pub enum SlideKind {
    Likert,
    Press,
}

/// A presentation command for the client.
#[derive(Clone, Debug, PartialEq, Eq)]
pub enum Command {
    NavigateTo(Page),
    SetMaterialIndex { material: u32, kind: SlideKind },
    SetGestureLabel(String),
    SetConsentSubjectId(u32),
    /// Radii in thousandths.
    SetPressRadii { circle: i64, ring: i64 },
}

/// A record for the result log.
#[derive(Clone, Debug, PartialEq, Eq)]
pub enum Record {
    /// `id=<subject>, <question>, <value>`
    Likert { subject: u32, question: String, value: u32 },
    /// `id=<subject>, <name>, <material>, ...`
    Response { subject: u32, name: String, materials: Vec<u32> },
}

} // verus!
