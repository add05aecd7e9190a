//! Parameter model of the nfqws packet processor and the decision logic of
//! the zaprett service around it.

pub mod cstr;
pub mod text;
pub mod ip;
pub mod flags;
pub mod params;
pub mod bind;
pub mod config;
pub mod pattern;
pub mod service;
