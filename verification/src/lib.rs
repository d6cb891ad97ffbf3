//! Seed data for a freshly launched cloud server: finding the user data in the
//! cloud's metadata service, reading its header, and working out how each
//! requested file is to be written.
pub mod text;
pub mod codec;
pub mod schema;
pub mod execute;
pub mod http;
pub mod source;
pub mod launch;
