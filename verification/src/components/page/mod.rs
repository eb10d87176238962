pub mod lifecycle;
pub mod overlays;
pub mod page_manager;
pub mod page_trait;
pub mod pages;
pub mod standard_layout;
pub mod transitions;
