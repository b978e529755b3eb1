//! The verified core of pitwall, a read-only monitor of CI runners.
//!
//! Pollers report what the container host, the native runner services, the CI
//! provider and the deployment provider say; this crate folds those reports into
//! one state, projects that state into rows and banners, and shapes the two
//! surfaces that show it: the terminal view and the web portal's snapshot.

pub mod app;
pub mod history;
pub mod jobs;
pub mod laws;
pub mod model;
pub mod operations;
pub mod resource;
pub mod snapshot;
pub mod time;
pub mod tui;
pub mod vercel;
pub mod web;
