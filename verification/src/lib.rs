//! Status-bar feed library: the pure per-cycle logic of three small polling
//! utilities (filesystem usage, account balance plus market price, local
//! time). Each feed samples a source, formats one status line and sleeps;
//! this crate holds the sampled-value arithmetic, the last-known-value
//! cache and the line formatting, all verified. The blocking fetches and
//! the infinite loops live in the surrounding application.

pub mod balance;
pub mod digits;
pub mod disk;
