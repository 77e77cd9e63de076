//! Core of a GUI input-testing application: a synthetic cross-widget event
//! broadcast mechanism.
//!
//! Decoupled widgets (a mouse-tracking canvas, action buttons, read-only
//! report fields) communicate without direct references to each other:
//! the canvas translates raw pointer events into updates of a shared
//! [`context::ActionContext`] and into synthetic event codes, a dispatcher
//! delivers each posted code to every subscribed report widget in
//! registration order, and each widget recomputes its displayed value from
//! the shared context. A parallel list of accessibility descriptors is kept
//! in lock-step with the interactive widgets.
//!
//! The host toolkit (window, drawing, the native event pump) is an external
//! collaborator: this crate only decides what each event means, and an
//! unverified shell performs the toolkit calls.

pub mod access;
pub mod bus;
pub mod canvas;
pub mod context;
pub mod decimal;
pub mod events;
pub mod tab;
