//! Backend logic of a desktop translation application: the table of supported
//! languages, the decisions around one run of the external `trans` tool, and
//! the uniform response envelope handed to the user interface.

pub mod dispatch;
pub mod error;
pub mod languages;
pub mod model;
pub mod response;
pub mod route;
pub mod service;
pub mod text;
pub mod translator;
