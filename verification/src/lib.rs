//! Vhost-user device front ends and the interrupt logic that they share.

pub mod async_tube;
pub mod bytes;
pub mod copy;
pub mod decimal;
pub mod discovery;
pub mod discovery_laws;
pub mod doorbell;
pub mod eavb;
pub mod error;
pub mod exchange;
pub mod features;
pub mod frpc;
pub mod front_end;
pub mod generic;
pub mod glink_cma;
pub mod hab;
pub mod interrupt;
pub mod requests;
