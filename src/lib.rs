//! Request dispatch, actuator arbitration and USB control handling for a
//! network-attached board that drives an LED over HTTP.

pub mod text;
pub mod led;
pub mod segment;
pub mod router;
pub mod http;
pub mod arbiter;
pub mod usb;
pub mod server;
