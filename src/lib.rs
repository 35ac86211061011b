//! A square that turns at a fixed rate, driven one frame at a time by a host
//! scheduler: the per-frame state step and draw plan, and the single-slot
//! bridge that lets a scheduler which calls plain functions run them.

pub mod frame;
pub mod main_loop;
pub mod motion;
