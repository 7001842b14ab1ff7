//! Configuration model and announcement logic of a Spotify radio station.
//!
//! `config` holds the station configuration, its login-mode selection and the
//! round-robin rotation of bumper tags; `rest` holds the computing parts of the
//! station's HTTP endpoints.

pub mod config;
pub mod rest;
