//! A verified core for a "fetch"-style system summary: probes that turn raw
//! host facts (user and host name, OS distribution, kernel, shell, uptime,
//! memory, battery) into uniformly styled display lines.

pub mod extract;
pub mod fields;
pub mod laws;
pub mod style;
pub mod text;
