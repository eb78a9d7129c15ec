//! The choices a matrix is made with.

use vstd::prelude::*;

verus! {

/// The choices a matrix is made with. A choice that is `None` has not been
/// made, and is left to the driver.
pub struct LedMatrixOptions {
    /// The name of the wiring between the board and the panels.
    pub hardware_mapping: Option<String>,
    /// How many panels are chained one behind the other.
    pub chain_length: Option<u32>,
    /// Whether the hardware makes the pulses that time the panels.
    pub hardware_pulsing: Option<bool>,
}

/// What `LedMatrixOptions` holds, with text as a sequence of characters.
pub ghost struct OptionsView {
    pub hardware_mapping: Option<Seq<char>>,
    pub chain_length: Option<u32>,
    pub hardware_pulsing: Option<bool>,
}

impl OptionsView {
    /// No choice made.
    pub open spec fn unset() -> Self {
        OptionsView { hardware_mapping: None, chain_length: None, hardware_pulsing: None }
    }
}

impl View for LedMatrixOptions {
    type V = OptionsView;

    open spec fn view(&self) -> OptionsView {
        OptionsView {
            hardware_mapping: match self.hardware_mapping {
                Some(name) => Some(name@),
                None => None,
            },
            chain_length: self.chain_length,
            hardware_pulsing: self.hardware_pulsing,
        }
    }
}

impl LedMatrixOptions {
    /// Options with no choice made.
    pub fn new() -> (options: Self)
        ensures
            options@ == OptionsView::unset(),
    {
        LedMatrixOptions { hardware_mapping: None, chain_length: None, hardware_pulsing: None }
    }

    /// Chooses the wiring between the board and the panels by its name.
    pub fn set_hardware_mapping(&mut self, mapping: &str)
        ensures
            final(self)@ == (OptionsView { hardware_mapping: Some(mapping@), ..old(self)@ }),
    {
        self.hardware_mapping = Some(mapping.to_owned());
    }

    /// Chooses how many panels are chained one behind the other.
    pub fn set_chain_length(&mut self, chain_length: u32)
        ensures
            final(self)@ == (OptionsView { chain_length: Some(chain_length), ..old(self)@ }),
    {
        self.chain_length = Some(chain_length);
    }

    /// Chooses whether the hardware makes the pulses that time the panels.
    pub fn set_hardware_pulsing(&mut self, enable: bool)
        ensures
            final(self)@ == (OptionsView { hardware_pulsing: Some(enable), ..old(self)@ }),
    {
        self.hardware_pulsing = Some(enable);
    }
}

impl Default for LedMatrixOptions {
    fn default() -> (options: Self)
        ensures
            options@ == OptionsView::unset(),
    {
        LedMatrixOptions::new()
    }
}

} // verus!
