//! The verified logic of a Matrix chat bot: the Mensa Furtwangen menu,
//! website alerts, and who may use which command.
pub mod access;
pub mod alerts;
pub mod commands;
pub mod mensa;
pub mod router;
pub mod text;
