//! Request construction and response interpretation for the addy.io
//! alias-creation endpoint. The network exchange itself is performed by the
//! caller; this library decides what is sent and what the reply means.

pub mod description;
pub mod request;
pub mod error;
pub mod response;
pub mod laws;
