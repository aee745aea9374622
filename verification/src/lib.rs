//! Verified core of an irrigation service: pagination, error replies, and
//! the decisions that the HTTP, MQTT and GPIO edges act upon.

pub mod error;
pub mod dto;
pub mod reading;
pub mod entity;
pub mod client;
pub mod password;
pub mod user_flow;
pub mod plant_flow;
pub mod auth;
pub mod gpio;
pub mod morse;
pub mod convert;
pub mod query;
pub mod mqtt;
pub mod cdi;
pub mod hardware;
