//! Decision logic of a tray-resident desktop shell: which backend request a
//! menu entry produces, how the backend URL is formed, how the main window is
//! brought forward, and which notification follows an ingest.

pub mod backend;
pub mod error;
pub mod text;
pub mod tray;
pub mod window;
