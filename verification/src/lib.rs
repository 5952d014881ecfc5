//! Control core of a terminal dashboard over three cached record
//! collections (tasks, comments, projects). The dashboard merges keyboard
//! input with periodic redraw ticks, keeps one selection index per list
//! view, and answers every event with the next state and the action the
//! surrounding program must carry out (redraw, quit, or spawn a helper
//! process). All navigation, selection and dispatch decisions live here;
//! terminal drawing, file reading and process spawning stay outside.

pub mod control;
pub mod dashboard;
pub mod menu;
pub mod model;
pub mod numeral;
pub mod resource;
pub mod selection;
pub mod ticker;
