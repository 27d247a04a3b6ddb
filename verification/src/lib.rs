pub mod datetime;
pub mod program;
pub mod registers;
pub mod rtc;
pub mod rtc_interrupt;
pub mod wakeup;
pub mod effects;
