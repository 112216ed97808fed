//! Device-level commands, and a controller that stands in for a device.
use vstd::prelude::*;

verus! {

/// An RGB color, one byte per channel, with no alpha and no correction.
#[derive(Clone, Copy, Debug, PartialEq, Eq, Structural)]
pub struct Color {
    pub r: u8,
    pub g: u8,
    pub b: u8,
}

/// The commands a light understands.
pub trait Controller {
    fn set_power(&mut self, on: bool) -> Result<(), String>;

    fn set_color(&mut self, color: Color) -> Result<(), String>;

    fn set_pattern(&mut self, index: u8) -> Result<(), String>;

    fn set_mic(&mut self, sensitivity: u8) -> Result<(), String>;
}

/// A controller with no device behind it: every command succeeds and
/// changes nothing.
pub struct MockController {}

impl MockController {
    pub fn new() -> MockController {
        MockController {}
    }
}

impl Controller for MockController {
    fn set_power(&mut self, on: bool) -> (r: Result<(), String>)
        ensures
            r is Ok,
            *final(self) == *old(self),
    {
        Ok(())
    }

    fn set_color(&mut self, color: Color) -> (r: Result<(), String>)
        ensures
            r is Ok,
            *final(self) == *old(self),
    {
        Ok(())
    }

    fn set_pattern(&mut self, index: u8) -> (r: Result<(), String>)
        ensures
            r is Ok,
            *final(self) == *old(self),
    {
        Ok(())
    }

    fn set_mic(&mut self, sensitivity: u8) -> (r: Result<(), String>)
        ensures
            r is Ok,
            *final(self) == *old(self),
    {
        Ok(())
    }
}

} // verus!
