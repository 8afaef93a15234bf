//! Classic DEVS modelling and simulation on integer virtual time, with the
//! reference generator / processor / transducer models, their coupled
//! compositions, and the decision logic of real-time pacing.
//!
//! Virtual time is measured in microseconds (`u64`); a time advance that is
//! never reached is `Time::Infinite`.

pub mod time;
pub mod port;
pub mod generator;
pub mod processor;
pub mod transducer;
pub mod schedule;
pub mod gpt;
pub mod pt;
pub mod pacing;
pub mod signal;
