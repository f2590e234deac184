//! Health monitoring for accelerator devices: a rolling window of telemetry
//! samples is turned, tick by tick, into a score, a status and alerts.

pub mod alerts;
pub mod clock;
pub mod decimal;
pub mod display;
pub mod export;
pub mod fields;
pub mod gpu;
pub mod health;
pub mod lookback;
pub mod memory;
pub mod monitor;
pub mod notifications;
pub mod power;
pub mod process;
pub mod score;
pub mod screen;
pub mod settings;
pub mod state;
pub mod temperature;
pub mod text;
pub mod utils;
pub mod width;
pub mod window;
