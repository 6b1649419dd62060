//! Verified core of a software-defined PLC: the HVAC valve logic driven by
//! the Logic simulator, and the session, login and query rules of the web
//! servers that expose the I/O tables.

pub mod hvac;
pub mod session;
pub mod auth;
pub mod web;
pub mod storage;
pub mod plc;
