//! Verified core of a desk clock and room-climate dashboard for ESP32 boards
//! with a small SPI or I2C display.

pub mod text;
pub mod calendar;
pub mod dashboard;
pub mod measurements;
pub mod color;
pub mod geometry;
pub mod layout;
pub mod board;
pub mod config;
pub mod screen;
pub mod raster;
