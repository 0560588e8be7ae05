//! Packet capture model: address formatting, capture decoding, the
//! interactive model and its key handling, and the frame and database plans.

pub mod capture;
pub mod date_format;
pub mod dbthread;
pub mod datetime;
pub mod draw;
pub mod model;
pub mod text;
pub mod update;
