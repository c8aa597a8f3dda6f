//! Verified core of a desktop-automation server that speaks the Model
//! Context Protocol over JSON-RPC: request dispatch, tool-call decoding and
//! reporting, screen template matching, UI-tree rendering and base64.

pub mod base64;
pub mod text;
pub mod json;
pub mod tools;
pub mod template;
pub mod codec;
pub mod ui_tree;
pub mod results;
pub mod protocol;
