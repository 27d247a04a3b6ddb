use vstd::prelude::*;

verus! {

/// The level of the RTC_ALARM output pin while the selected flag is asserted.
#[derive(Clone, Copy, Debug, PartialEq, Eq, Structural)]
pub enum RtcInterruptOutputPolarity {
    /// The pin is high when the flag is asserted (POL bit 0).
    High,
    /// The pin is low when the flag is asserted (POL bit 1).
    Low,
}

impl From<RtcInterruptOutputPolarity> for bool {
    /// The POL bit of a polarity: set for `Low`.
    fn from(polarity: RtcInterruptOutputPolarity) -> (bit: bool) {
        match polarity {
            RtcInterruptOutputPolarity::High => false,
            RtcInterruptOutputPolarity::Low => true,
        }
    }
}

impl vstd::std_specs::convert::FromSpecImpl<RtcInterruptOutputPolarity> for bool {
    open spec fn obeys_from_spec() -> bool {
        true
    }

    open spec fn from_spec(polarity: RtcInterruptOutputPolarity) -> bool {
        polarity is Low
    }
}

/// Which RTC event drives the RTC_ALARM output pin.
#[derive(Clone, Copy, Debug, PartialEq, Eq, Structural)]
pub enum RtcInterruptOutputSelection {
    /// Output disabled (OSEL 0b00).
    Disabled,
    /// Alarm A (OSEL 0b01).
    AlarmA,
    /// Alarm B (OSEL 0b10).
    AlarmB,
    /// Wakeup timer (OSEL 0b11).
    WakeUp,
}

/// The OSEL bits of an output selection.
pub open spec fn osel_bits(selection: RtcInterruptOutputSelection) -> u8 {
    match selection {
        RtcInterruptOutputSelection::Disabled => 0b00,
        RtcInterruptOutputSelection::AlarmA => 0b01,
        RtcInterruptOutputSelection::AlarmB => 0b10,
        RtcInterruptOutputSelection::WakeUp => 0b11,
    }
}

impl From<RtcInterruptOutputSelection> for u8 {
    /// The OSEL bits of an output selection.
    fn from(selection: RtcInterruptOutputSelection) -> (bits: u8) {
        match selection {
            RtcInterruptOutputSelection::Disabled => 0b00,
            RtcInterruptOutputSelection::AlarmA => 0b01,
            RtcInterruptOutputSelection::AlarmB => 0b10,
            RtcInterruptOutputSelection::WakeUp => 0b11,
        }
    }
}

impl vstd::std_specs::convert::FromSpecImpl<RtcInterruptOutputSelection> for u8 {
    open spec fn obeys_from_spec() -> bool {
        true
    }

    open spec fn from_spec(selection: RtcInterruptOutputSelection) -> u8 {
        osel_bits(selection)
    }
}

/// Configuration of the RTC_ALARM output: which event drives it and at which level.
#[derive(Clone, Copy)]
pub struct RtcInterrupt {
    pub(crate) output_selection: RtcInterruptOutputSelection,
    pub(crate) polarity: RtcInterruptOutputPolarity,
}

impl View for RtcInterrupt {
    type V = (RtcInterruptOutputSelection, RtcInterruptOutputPolarity);

    closed spec fn view(&self) -> (RtcInterruptOutputSelection, RtcInterruptOutputPolarity) {
        (self.output_selection, self.polarity)
    }
}

impl RtcInterrupt {
    /// Output disabled, polarity high.
    pub fn new() -> (interrupt: Self)
        ensures
            interrupt@ == (RtcInterruptOutputSelection::Disabled, RtcInterruptOutputPolarity::High),
    {
        RtcInterrupt {
            output_selection: RtcInterruptOutputSelection::Disabled,
            polarity: RtcInterruptOutputPolarity::High,
        }
    }

    /// The same configuration with output selection `sel`.
    pub fn set_output_selection(self, sel: RtcInterruptOutputSelection) -> (interrupt: Self)
        ensures
            interrupt@ == (sel, self@.1),
    {
        let mut interrupt = self;
        interrupt.output_selection = sel;
        interrupt
    }

    /// The same configuration with polarity `pol`.
    pub fn set_polarity(self, pol: RtcInterruptOutputPolarity) -> (interrupt: Self)
        ensures
            interrupt@ == (self@.0, pol),
    {
        let mut interrupt = self;
        interrupt.polarity = pol;
        interrupt
    }

    /// The output selection.
    pub fn output_selection(&self) -> (sel: RtcInterruptOutputSelection)
        ensures
            sel == self@.0,
    {
        self.output_selection
    }

    /// The polarity.
    pub fn polarity(&self) -> (pol: RtcInterruptOutputPolarity)
        ensures
            pol == self@.1,
    {
        self.polarity
    }
}

} // verus!
