pub mod geometry;
pub mod property;
pub mod scroll_indicator;
pub mod scrollbar;
pub mod tree;
