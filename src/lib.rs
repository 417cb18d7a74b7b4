//! Client side of the line-delimited request protocol spoken by networked smart lamps.
//!
//! The library validates request parameters, renders requests as wire text, keeps the
//! request-identifier counter of a lamp session, decides the connect retry policy and
//! correlates responses with the last request sent.
pub mod effect;
pub mod value;
pub mod command;
pub mod wire;
pub mod lamp;
pub mod connect;
pub mod typed;
