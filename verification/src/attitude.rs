//! The latest-sample store: one attitude value plus a connectivity flag.
//!
//! The host shares one `AttitudeCell` between the telemetry server and the
//! display by wrapping it in a mutual-exclusion lock; the lock is held only
//! across the value copy that each method performs, never across I/O.
use vstd::prelude::*;

verus! {

/// One aircraft attitude sample. Each angle is carried as the number text
/// that the wire protocol delivered (degrees, in the JSON number grammar),
/// so a stored sample is reproduced exactly on every read; the display
/// converts the text to a machine float outside this library.
#[derive(Debug)]
pub struct AttitudeSample {
    /// Heading angle, degrees, as received.
    pub heading: String,
    /// Pitch angle, degrees, as received.
    pub pitch: String,
    /// Roll angle, degrees, as received.
    pub roll: String,
}

/// The mathematical value of a sample: the three angle texts.
#[verifier::ext_equal]
pub struct AttitudeText {
    pub heading: Seq<char>,
    pub pitch: Seq<char>,
    pub roll: Seq<char>,
}

impl View for AttitudeSample {
    type V = AttitudeText;

    open spec fn view(&self) -> AttitudeText {
        AttitudeText { heading: self.heading@, pitch: self.pitch@, roll: self.roll@ }
    }
}

impl AttitudeSample {
    /// An exact copy of this sample.
    pub fn duplicate(&self) -> (copy: AttitudeSample)
        ensures
            copy@ == self@,
    {
        AttitudeSample {
            heading: self.heading.clone(),
            pitch: self.pitch.clone(),
            roll: self.roll.clone(),
        }
    }
}

/// The mathematical state of a cell: the held sample and the flag.
#[verifier::ext_equal]
pub struct CellState {
    pub sample: AttitudeText,
    pub connected: bool,
}

/// Single-slot store for the most recent attitude sample, plus the flag that
/// says whether a telemetry connection is currently open. Last write wins;
/// no history is kept, and a slow reader simply sees the latest value.
pub struct AttitudeCell {
    sample: AttitudeSample,
    connected: bool,
}

impl View for AttitudeCell {
    type V = CellState;

    closed spec fn view(&self) -> CellState {
        CellState { sample: self.sample@, connected: self.connected }
    }
}

impl AttitudeCell {
    /// A fresh cell holding the given initial sample, not connected.
    pub fn new(initial: AttitudeSample) -> (cell: AttitudeCell)
        ensures
            cell@.sample == initial@,
            !cell@.connected,
    {
        AttitudeCell { sample: initial, connected: false }
    }

    /// Replaces the stored sample; the connectivity flag is untouched.
    pub fn write(&mut self, sample: AttitudeSample)
        ensures
            final(self)@.sample == sample@,
            final(self)@.connected == old(self)@.connected,
    {
        self.sample = sample;
    }

    /// A copy of the most recent sample; the cell is unchanged.
    pub fn read(&self) -> (sample: AttitudeSample)
        ensures
            sample@ == self@.sample,
    {
        self.sample.duplicate()
    }

    /// Sets the connectivity flag; the stored sample is untouched.
    pub fn set_connected(&mut self, connected: bool)
        ensures
            final(self)@.connected == connected,
            final(self)@.sample == old(self)@.sample,
    {
        self.connected = connected;
    }

    /// The current connectivity flag.
    pub fn is_connected(&self) -> (connected: bool)
        ensures
            connected == self@.connected,
    {
        self.connected
    }
}

} // verus!
