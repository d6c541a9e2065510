//! Gateway core between a VBAN software mixer and an X-Touch control surface:
//! wire codecs for both protocols, the frame queue that links the worker
//! threads, and the page-based state synchronization engine.

pub mod engine;
pub mod hexcodec;
pub mod processor;
pub mod queue;
pub mod vban;
pub mod xctrl;
