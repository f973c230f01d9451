//! Capturable screen targets (displays and windows), the queries on them, and
//! the laws those queries obey.
//!
//! The platform's windowing system is read elsewhere; what one reading reports
//! is a [`Desktop`], and every query here is a function of it.

pub mod decimal;
pub mod desktop;
pub mod laws;
pub mod queries;
pub mod targets;

pub use desktop::{Desktop, DisplayInfo, Entry, WindowInfo};
pub use queries::{
    displays_of, get_all_displays, get_all_targets, get_main_display, get_scale_factor,
    get_target_dimensions,
};
pub use targets::{Display, Target, Window};
