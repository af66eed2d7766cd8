//! The application: the asset table, the shared state, and the cycle of
//! update and view that a front end drives.

use vstd::prelude::*;
use vstd::string::StringExecFns;

use crate::handle::handle_bytes;
use crate::size::Assets;
use crate::state::{DisplayModel, Event, SharedState};
use crate::view::{ControlsPane, ImagePane, Scene};

verus! {

/// The application. Its image is at all times the one that belongs to its
/// selection.
pub struct App {
    assets: Assets,
    shared: SharedState,
}

impl App {
    #[verifier::type_invariant]
    spec fn image_matches_selection(self) -> bool {
        self.shared@.consistent(self.assets)
    }

    /// The asset table that the application was started with.
    pub closed spec fn assets(self) -> Assets {
        self.assets
    }

    /// What an observer can tell about the application's state.
    pub closed spec fn display(self) -> DisplayModel {
        self.shared@
    }

    /// The title of the window.
    pub open spec fn title_text() -> Seq<char> {
        "App"@
    }

    /// Starts the application over `assets`, with nothing selected.
    pub fn new(assets: Assets) -> (app: App)
        ensures
            app.assets() == assets,
            app.display() == DisplayModel::initial(),
    {
        App { assets, shared: SharedState::new() }
    }

    /// The title of the window.
    pub fn title(&self) -> (title: String)
        ensures
            title@ == App::title_text(),
    {
        String::from_str("App")
    }

    /// Handles one event: the state moves as `DisplayModel::step` says, and
    /// the asset table stays as it is.
    pub fn update(&mut self, evt: Event)
        ensures
            final(self).assets() == old(self).assets(),
            final(self).display() == old(self).display().step(old(self).assets(), evt),
    {
        match evt {
            Event::LogoSizeChanged(logo_size) => {
                self.shared = SharedState::selected(logo_size, &self.assets);
            },
        }
    }

    /// The shared state, for reading. Its image is the asset of the selected
    /// resolution, and empty while nothing is selected.
    pub fn shared(&self) -> (state: &SharedState)
        ensures
            state@ == self.display(),
            state@.consistent(self.assets()),
    {
        proof {
            use_type_invariant(self);
        }
        &self.shared
    }

    /// Describes the window for the current state. This works in every
    /// state: the controls always offer the three resolutions, and the image
    /// pane shows the asset of the selection, or no bytes while nothing is
    /// selected.
    pub fn view(&self) -> (scene: Scene)
        ensures
            scene.image.title@ == ImagePane::title_text(),
            handle_bytes(scene.image.handle) == DisplayModel::expected_bytes(
                self.assets(),
                self.display().tag,
            ),
            self.display().tag is None ==> handle_bytes(scene.image.handle) == Seq::<u8>::empty(),
            scene.controls.options@.len() == 3,
            scene.controls.offers(self.display().tag),
    {
        proof {
            use_type_invariant(self);
        }
        Scene {
            image: ImagePane::render(&self.shared),
            controls: ControlsPane::render(&self.shared),
        }
    }
}

} // verus!
