//! A client-side projection of a remote player's state: what plays now, what
//! plays next, how much of the queue is revealed, where a seek lands, and the
//! page history of the hosting interface.

pub mod app_state;
pub mod bridge;
pub mod locations;
pub mod laws;
pub mod model;
pub mod navigation;
pub mod scrub;
pub mod track;
pub mod window;
