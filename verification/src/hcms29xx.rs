//! Types of the display driver: its error and the data-out modes of its control word 1.

use vstd::prelude::*;

verus! {

/// A failure of the display driver: a pin could not be set.
#[derive(Clone, Copy, Debug)]
pub enum Hcms29xxError<E> {
    OutputPinError(E),
}

impl<E> From<E> for Hcms29xxError<E> {
    fn from(error: E) -> (r: Self) {
        Hcms29xxError::OutputPinError(error)
    }
}

impl<E> vstd::std_specs::convert::FromSpecImpl<E> for Hcms29xxError<E> {
    open spec fn obeys_from_spec() -> bool {
        true
    }

    open spec fn from_spec(v: E) -> Self {
        Hcms29xxError::OutputPinError(v)
    }
}

/// How the data-out pin of a display chip passes control words on: one chip after the other,
/// or all chips at once.
#[derive(Clone, Copy, Debug, PartialEq, Eq, Structural)]
pub enum DataOutMode {
    Serial,
    Simultaneous,
}

impl DataOutMode {
    /// The bit of control word 1 for the mode.
    pub fn bits(self) -> (r: u8)
        ensures
            r == match self {
                DataOutMode::Serial => 0u8,
                DataOutMode::Simultaneous => 1u8,
            },
    {
        match self {
            DataOutMode::Serial => 0,
            DataOutMode::Simultaneous => 1,
        }
    }
}

} // verus!
