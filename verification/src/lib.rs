//! Simulated quartz clocks and Cristian clock synchronisation.
//!
//! A clock shows a UTC time of day; it can be skewed from the true time and can
//! drift, running faster or slower than real time. A master answers Cristian time
//! requests with the time its system clock shows, and a slave sets its clock to
//! the answer.
pub mod display;
pub mod drift;
pub mod duration;
pub mod grpc_server;
pub mod quartz_clock;
pub mod state;
pub mod time_of_day;
