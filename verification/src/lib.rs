//! The decisions of a macOS application shell, apart from the native calls
//! that carry them out: the queue of application events, the application
//! delegate that fills it, the lookup of objects in a loaded interface
//! resource, and the controller with its event pump.

pub mod app;
pub mod delegate;
pub mod event;
pub mod nib;
pub mod pump;
pub mod text;
pub mod view;
