//! Stateless bearer-token authentication: issuing signed, time-bounded access
//! tokens at sign-in and checking them on every later request.

pub mod config;
pub mod credentials;
pub mod error;
pub mod greetings;
pub mod interceptor;
pub mod requests;
pub mod response;
pub mod text;
pub mod token;
pub mod users;
