//! Sensor components for a device runtime: a value model, ordered records,
//! a registry of component models, and four sensors that are polled for
//! readings, asked for their status, or sent commands.

pub mod component;
pub mod config;
pub mod error;
pub mod fat;
pub mod host;
pub mod internet;
pub mod rando;
pub mod record;
pub mod registry;
pub mod timestamp;
pub mod value;

pub use fat::FatMessages;
pub use internet::InternetSensor;
pub use rando::RandoSensors;
pub use registry::register_models;
pub use timestamp::TimestampSensor;
