//! A debugging bridge for an embedded web view: it builds JavaScript
//! snippets that capture console output and evaluation results in
//! page-local buffers, models the page-side state those snippets
//! maintain, and decides the request/response protocol around them.

pub mod dispatch;
pub mod page;
pub mod script;
pub mod text;
