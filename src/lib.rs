//! Provisioning of the local credential file of a wiki bot: choosing the
//! authentication method, filling the configuration template, resolving
//! where the file goes and how its permissions are restricted, and the
//! decisions of the setup pipeline that ties these together.

pub mod auth;
pub mod fill;
pub mod error;
pub mod destination;
pub mod permissions;
pub mod setup;
