//! The logic behind a panel applet for openvpn3.
//!
//! What openvpn3 reports is decoded and mapped in [`status`], [`attention`] and
//! [`event`]; [`machine`] decides what to do about it, one session at a time, and
//! [`logbuf`] keeps what was said. [`worker`] drives the two and says what to ask
//! of D-Bus; [`app`] and [`pages`] are the panel's side. None of it performs I/O.
//! What holds across calls is stated and proved in the modules named `laws`.

pub mod agenda;
pub mod app;
pub mod app_laws;
pub mod attention;
pub mod call_laws;
pub mod calls;
pub mod dbus;
pub mod event;
pub mod instance;
pub mod log_laws;
pub mod logbuf;
pub mod machine;
pub mod machine_laws;
pub mod object_path;
pub mod pages;
pub mod profile;
pub mod roster;
pub mod status;
pub mod text;
mod wire;
pub mod worker;
pub mod worker_laws;
pub mod worker_model;

pub use wire::UnknownWireValue;
