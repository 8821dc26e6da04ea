//! Control, safety, and sensor-fusion core of an induction-heating
//! (shrink-fit) machine controller.
//!
//! The library holds the pure logic of the firmware: the shared state
//! records, the sensor-fusion arithmetic (RMS power, thermistor
//! linearization, duty-cycle temperature decoding), the prioritized safety
//! fault table, and the control loop (operating-mode state machine with two
//! cascaded PI controllers).  Hardware access, scheduling, and display
//! formatting live outside the library and exchange plain values with it.
//!
//! All physical quantities are carried as scaled integers:
//! millivolts, milliamps, milli-kilowatts (that is, watts),
//! milli-degrees Celsius, microhertz, and milliseconds.

pub mod ads7828;
pub mod channel_buffers;
pub mod control;
pub mod menu;
pub mod num;
pub mod safety;
pub mod sensors;
pub mod state;
