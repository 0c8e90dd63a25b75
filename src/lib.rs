//! Verified core of a desktop manager for overtls client profiles: log
//! levels and the per-module log filter, system settings and their merge into
//! a profile, the ordered node list and its dialog reconciliation, the single
//! tunnel session slot, the bounded on-screen log, the import of profiles
//! from pasted text or from a screenshot that shows a QR code, and what the
//! dialogs and the node table make of user input.

pub mod text;
pub mod number;
pub mod level;
pub mod logger;
pub mod settings;
pub mod node;
pub mod nodes;
pub mod session;
pub mod run;
pub mod log_view;
pub mod import;
pub mod forms;
pub mod tun;
pub mod util;
pub mod state;
pub mod table;
