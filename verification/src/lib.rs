//! What the traced demo web service computes: the names of its spans, the
//! lines it prints, the events it records and the order of its waits, as
//! plain values that the service then carries out.
pub mod decimal;
pub mod action;
pub mod tasks;
pub mod greet;
pub mod say_hi;
pub mod settings;
