//! The layer between a native graphics context and a graphics API that
//! abstracts over hardware: the surface that is presented to, the formats
//! and capabilities that the two sides can agree on, and the adapters that
//! can be reached through a live context.

pub mod adapter;
pub mod builder;
pub mod capability;
pub mod context;
pub mod error;
pub mod format;
pub mod image;
pub mod negotiation;
pub mod surface;
pub mod swapchain;
pub mod window;

pub use adapter::Instance;
pub use capability::get_window_extent;
pub use error::Error;
pub use negotiation::config_context;
pub use surface::{Headless, Surface};
pub use swapchain::Swapchain;
