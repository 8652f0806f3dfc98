//! A small home-automation library: socket and thermometer device models,
//! information providers that render a device's status, a report engine
//! that walks a house, and the pure logic of the TCP command service and
//! the UDP sensor ingestion path.

pub mod control;
pub mod device_info;
pub mod devices;
pub mod ingestion;
pub mod simulator;
pub mod smart_house;
pub mod text;
