//! Verified core of a receive source for Ettus USRP devices.
//!
//! The core decides; its caller owns the device, the threads and the clock, performs
//! what is decided and reports what came of it.
//!
//! - [`source`], [`config`], [`clock`] and [`setup`] take a request to a running device:
//!   the check of the request, the choice of the master clock, and the steps that bring
//!   the device up.
//! - [`hop`] is the loop of the capture thread, which hops over the channels and streams
//!   from each; [`hop_steps`] is what each event leads to, and [`hop_laws`] what holds of
//!   its runs.
//! - [`buffers`] and [`overrun`] look after what is received.
//! - [`probe`] judges the receive rates that a device offers.
//! - [`binary64`] holds the doubles that all of this is about as bit patterns.

pub mod binary64;
pub mod buffers;
pub mod clock;
pub mod config;
pub mod hop;
pub mod hop_laws;
pub mod hop_steps;
pub mod overrun;
pub mod probe;
pub mod setup;
pub mod source;

pub use binary64::Binary64;
pub use config::SdrError;
pub use probe::query_max_rx_rate;
pub use source::UsrpSource;
