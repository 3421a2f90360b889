//! Declarative provisioning of terminal-multiplexer sessions.
//!
//! A layout document (a small tree of strings, sequences and mappings)
//! declares a named session, its windows and their panes.  The library
//! turns such a document into the exact, ordered sequence of
//! session-management operations that materialises the declared
//! topology, and proves that the sequence is the one the document calls
//! for: idempotent attach, first-window suppression, stable pane
//! addressing, and the layout-to-split mapping.

pub mod doc;
pub mod laws;
pub mod model;
pub mod ops;
pub mod plan;
pub mod target;
pub mod yaml;

pub use doc::Doc;
pub use model::{build_document, resolve_session, LayoutDocument, PaneGroupSpec, WindowSpec};
pub use ops::{Op, SplitDir};
pub use plan::{plan_after_probe, populate_ops};
pub use target::pane_target;
pub use yaml::{parse_document, ParseError};
