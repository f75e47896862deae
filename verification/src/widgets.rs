//! Interaction models of the Material 3 widgets: selection, activation,
//! focus and keyboard navigation. Geometry, painting and animation timing
//! stay with the renderer, which hit-tests pointer positions and hands the
//! answers to these models.
pub mod icon;
pub mod interaction;
pub mod scan;
pub mod segmented;
pub mod navigation_rail;
pub mod controls;
pub mod layout;
