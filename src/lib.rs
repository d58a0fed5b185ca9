pub mod token;
pub mod foreignmod;
pub mod receiver;
pub mod properties;
