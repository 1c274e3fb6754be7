//! Anomaly classification for a time series of air-quality measurements
//! (CO2, temperature, humidity), usable one live measurement at a time or
//! replayed over a historical batch.
//!
//! Temperatures and humidities are fixed-point integers in thousandths of
//! a degree Celsius and thousandths of a percent; instants are nanoseconds
//! since the Unix epoch, in UTC.

pub mod baseline;
pub mod calendar;
pub mod classifier;
pub mod config;
pub mod console;
pub mod detector;
pub mod device;
pub mod driver;
pub mod firmware;
pub mod flags;
pub mod forecast;
pub mod lag;
pub mod live;
pub mod measurement;
pub mod profile;
pub mod ring;
pub mod rolling;
pub mod sliding;
pub mod stats;
pub mod storage;
pub mod timestamp;
pub mod window;
