//! A two-pane logo viewer, described as plain data.
//!
//! One pane shows the Rust logo in one of three resolutions, the other offers
//! the three resolutions as radio options. The library holds the state that
//! both panes read, the transition that a selection causes, and the
//! description of what each pane shows. A front end feeds it the encoded
//! images, delivers the selection events and turns the description into
//! widgets.

pub mod app;
pub mod handle;
pub mod laws;
pub mod size;
pub mod state;
pub mod view;

pub use app::App;
pub use size::{Assets, LogoSize};
pub use state::{DisplayModel, Event, SharedState};
pub use view::{
    Arrangement, ControlsPane, ImagePane, Layout, PaneKind, RadioOption, Scene,
};
