//! Generator for NMEA-0183 style conformance test sentences.
//!
//! The library produces a deterministic, ordered catalog of test datagrams
//! for a line-oriented, checksum-framed navigation sentence protocol:
//! well-formed sentences, boundary cases, and deliberately malformed
//! payloads, each preceded by a free-text annotation frame that describes
//! the fault the following vector exercises.

pub mod catalog;
pub mod checksum;
pub mod driver;
pub mod framer;
