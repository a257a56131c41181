//! The transport core of a collaborative canvas application: a duplex,
//! packet-oriented bridge over a stream socket, plus the plain data the
//! surrounding program keeps (user configuration, command line, and the
//! render backend's scheduling state).

pub mod cli;
pub mod config;
pub mod net;
pub mod rendering;
