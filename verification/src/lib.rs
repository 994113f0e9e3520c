//! A terminal user interface library in the reactive style: views describe the
//! interface, widgets lay it out, paint it and turn terminal events into messages.
use vstd::prelude::*;

pub mod flags;
pub mod geometry;
pub mod style;
pub mod id;
pub mod widget;
pub mod view;
pub mod app;

verus! {
} // verus!
