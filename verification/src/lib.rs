//! A client for the PasteMyst paste service.
//!
//! Every operation of the service is one HTTP exchange, or two with a
//! decision in between. This crate holds what each operation decides: the
//! endpoint it addresses, the method, the credentials and payload it carries,
//! which part of the reply it reads, and what it answers without asking the
//! service at all. A transport carries the resulting [`request::Request`] out.

pub mod data;
pub mod paste;
pub mod request;
pub mod text;
pub mod time;
pub mod user;
