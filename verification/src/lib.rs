//! The session logic of a voxel sculpting program, verified.

pub mod action;
pub mod bodies;
pub mod command_laws;
pub mod detail;
pub mod dispatch;
pub mod file_laws;
pub mod files;
pub mod gesture_laws;
pub mod laws;
pub mod menus;
pub mod message;
pub mod message_laws;
pub mod mirror;
pub mod origin_laws;
pub mod outline;
pub mod outline_laws;
pub mod pointer;
pub mod puck;
pub mod rename;
pub mod replies;
pub mod reply_laws;
pub mod report;
pub mod report_laws;
pub mod saving;
pub mod session;
pub mod session_laws;
pub mod soundness;
pub mod state;
pub mod text;
pub mod timeline;
pub mod tool;
pub mod values;
pub mod visibility;
