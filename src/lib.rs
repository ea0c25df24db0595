//! Short Payment Descriptor (SPAYD) records: validation of each field against
//! its grammar and serialization into the `SPD*1.0*...` descriptor string.

pub mod currency;
pub mod grammar;
pub mod laws;
pub mod qr;
pub mod record;
pub mod serialize;
pub mod validate;

pub use record::{NotifyType, PaymentType, Spayd, SpaydError};
