//! Widgets: the retained tree that lays out the interface, paints it and turns
//! terminal events into messages for the views.
pub mod pod;
pub mod events;
pub mod margin;
pub mod border;
pub mod scroll_view;
pub mod text;
pub mod linear_layout;
