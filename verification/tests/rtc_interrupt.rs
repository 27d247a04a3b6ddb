use stm32f3_rtc::rtc_interrupt::{RtcInterrupt, RtcInterruptOutputPolarity, RtcInterruptOutputSelection};

#[test]
fn new_interrupt_is_disabled_and_high() {
    let interrupt = RtcInterrupt::new();
    assert_eq!(interrupt.output_selection(), RtcInterruptOutputSelection::Disabled);
    assert_eq!(interrupt.polarity(), RtcInterruptOutputPolarity::High);
}

#[test]
fn builders_change_one_field_each() {
    let interrupt = RtcInterrupt::new()
        .set_output_selection(RtcInterruptOutputSelection::WakeUp)
        .set_polarity(RtcInterruptOutputPolarity::Low);
    assert_eq!(interrupt.output_selection(), RtcInterruptOutputSelection::WakeUp);
    assert_eq!(interrupt.polarity(), RtcInterruptOutputPolarity::Low);
    let again = interrupt.set_output_selection(RtcInterruptOutputSelection::AlarmB);
    assert_eq!(again.output_selection(), RtcInterruptOutputSelection::AlarmB);
    assert_eq!(again.polarity(), RtcInterruptOutputPolarity::Low);
}

#[test]
fn output_selection_bits() {
    let bits = |s: RtcInterruptOutputSelection| -> u8 { s.into() };
    assert_eq!(bits(RtcInterruptOutputSelection::Disabled), 0b00);
    assert_eq!(bits(RtcInterruptOutputSelection::AlarmA), 0b01);
    assert_eq!(bits(RtcInterruptOutputSelection::AlarmB), 0b10);
    assert_eq!(bits(RtcInterruptOutputSelection::WakeUp), 0b11);
}

#[test]
fn polarity_bit() {
    let high: bool = RtcInterruptOutputPolarity::High.into();
    let low: bool = RtcInterruptOutputPolarity::Low.into();
    assert!(!high);
    assert!(low);
}
