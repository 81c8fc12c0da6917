pub mod cache;
pub mod emitter;
pub mod fmt;
pub mod ident;
pub mod jsonio;
pub mod laws;
pub mod lines;
pub mod metrics;
pub mod parse;
pub mod record;
pub mod session;
