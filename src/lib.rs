//! Native menu model and the zoom bridge between the menu and the content view.

pub mod bridge;
pub mod menu;
pub mod text;
