//! Host-side core of a desktop shell that embeds a web-rendering surface:
//! the JSON model of page messages, the call protocol between page script
//! and host bindings, the binding registry, the dispatch queue drained by
//! the window's message pump, and the window-procedure routing table.
pub mod json;
pub mod rpc;
pub mod bindings;
pub mod dispatch;
pub mod error;
pub mod window;
pub mod builder;
