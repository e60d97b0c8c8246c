//! Gathers business listings from a paginated search-results page driven
//! through a browser session.
//!
//! The library holds the decisions: reading a detail panel's fields, waiting
//! for a panel with a bounded poll, walking entries and pages as a state
//! machine, and encoding the records as CSV. Whoever drives the browser carries
//! out the machine's commands and reports back what it saw.

pub mod csv;
pub mod data;
pub mod extract;
pub mod selectors;
pub mod sync;
pub mod traversal;
