//! Verified core of a multi-viewport GUI platform backend.
//!
//! The library models the state and decisions of an integration layer that
//! lets an immediate-mode GUI detach panels into their own operating-system
//! windows: per-viewport metadata, the deferred event queue, the per-frame
//! reconciler that synchronizes native windows with queued requests, the
//! input router, and the secondary-viewport render planner.  The embedding
//! performs the actual window-system and graphics calls and feeds their
//! results back in as plain values.

pub mod backend;
pub mod events;
pub mod geom;
pub mod idmap;
pub mod input;
pub mod platform;
pub mod reconciler;
pub mod render;
