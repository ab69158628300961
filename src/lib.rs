//! An interrupt-driven counter display: a foreground loop increments a shared
//! counter inside critical sections while a periodic timer interrupt reads the
//! counter, formats it and hands the text to a display.
pub mod counter;
pub mod critical;
pub mod text;
pub mod controller;
pub mod system;
