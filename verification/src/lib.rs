//! The host side of an embedded Lua engine: the values that cross the
//! boundary between host and script, and the session that keeps track of
//! what the engine has been asked to load and run.

pub mod script;
