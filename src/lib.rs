//! The column settings panel of a data viewer, as verified state machines:
//! the expression editor with its validation and save/reset rules, the
//! updates it asks the session for, the tabs a column offers, and the
//! header's editable name.

pub mod attributes;
pub mod editor;
pub mod header;
pub mod laws;
pub mod locator;
pub mod registry;
pub mod sidebar;
pub mod tabs;
