//! In-memory state of a desktop chat shell: which rooms belong to which virtual
//! desktop, the recency-ordered avatar carousel, and the searchable room switcher.
pub mod desktop;
pub mod matrix;
pub mod platform;
pub mod search;
pub mod ui;
