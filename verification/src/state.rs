//! The state that both panes read, and the transition a selection causes.

use vstd::prelude::*;

use crate::handle::{handle_bytes, handle_from_memory};
use crate::size::{Assets, LogoSize};
use iced::image::Handle;

verus! {

/// What the user can do: pick one of the three resolutions.
#[derive(Debug, Clone, Copy, PartialEq, Eq, Structural)]
pub enum Event {
    LogoSizeChanged(LogoSize),
}

/// What an observer can tell about the shared state: the encoded image on
/// display and the resolution that is selected, if any.
pub struct DisplayModel {
    pub bytes: Seq<u8>,
    pub tag: Option<LogoSize>,
}

impl DisplayModel {
    /// The display before anything was selected: no image, no resolution.
    pub open spec fn initial() -> DisplayModel {
        DisplayModel { bytes: Seq::empty(), tag: None }
    }

    /// The display after `size` was selected: its image and its tag.
    pub open spec fn selected(assets: Assets, size: LogoSize) -> DisplayModel {
        DisplayModel { bytes: assets.bytes_of(size), tag: Some(size) }
    }

    /// The display that follows `self` when `event` arrives.
    pub open spec fn step(self, assets: Assets, event: Event) -> DisplayModel {
        match event {
            Event::LogoSizeChanged(size) => DisplayModel::selected(assets, size),
        }
    }

    /// The display reached from the initial one by `events`, first to last.
    pub open spec fn run(assets: Assets, events: Seq<Event>) -> DisplayModel
        decreases events.len(),
    {
        if events.len() == 0 {
            DisplayModel::initial()
        } else {
            DisplayModel::run(assets, events.drop_last()).step(assets, events.last())
        }
    }

    /// The image that belongs on display under `tag`: the asset of the
    /// selected resolution, or nothing while none is selected.
    pub open spec fn expected_bytes(assets: Assets, tag: Option<LogoSize>) -> Seq<u8> {
        match tag {
            Some(size) => assets.bytes_of(size),
            None => Seq::empty(),
        }
    }

    /// The image on display is the one that belongs to the tag.
    pub open spec fn consistent(self, assets: Assets) -> bool {
        self.bytes == DisplayModel::expected_bytes(assets, self.tag)
    }
}

/// The state shared by the image pane and the controls pane.
pub struct SharedState {
    img_handle: Handle,
    logo_size: Option<LogoSize>,
}

impl View for SharedState {
    type V = DisplayModel;

    closed spec fn view(&self) -> DisplayModel {
        DisplayModel { bytes: handle_bytes(self.img_handle), tag: self.logo_size }
    }
}

impl SharedState {
    #[verifier::type_invariant]
    spec fn blank_until_selected(self) -> bool {
        self.logo_size is None ==> handle_bytes(self.img_handle) == Seq::<u8>::empty()
    }

    /// The state at startup: an empty image and no selection.
    pub fn new() -> (state: SharedState)
        ensures
            state@ == DisplayModel::initial(),
    {
        SharedState { img_handle: handle_from_memory(Vec::new()), logo_size: None }
    }

    /// The state in which `size` is selected: it shows the image that
    /// `assets` holds for `size`.
    pub fn selected(size: LogoSize, assets: &Assets) -> (state: SharedState)
        ensures
            state@ == DisplayModel::selected(*assets, size),
    {
        SharedState { img_handle: handle_from_memory(size.bytes(assets)), logo_size: Some(size) }
    }

    /// Selects `size`. Image and tag are replaced together, whatever they
    /// were before.
    pub fn select_size(&mut self, size: LogoSize, assets: &Assets)
        ensures
            final(self)@ == DisplayModel::selected(*assets, size),
    {
        *self = SharedState::selected(size, assets);
    }

    /// The selected resolution, if any.
    pub fn logo_size(&self) -> (tag: Option<LogoSize>)
        ensures
            tag == self@.tag,
    {
        self.logo_size
    }

    /// The handle of the image on display. While nothing is selected it
    /// holds no bytes.
    pub fn img_handle(&self) -> (handle: &Handle)
        ensures
            handle_bytes(*handle) == self@.bytes,
            self@.tag is None ==> handle_bytes(*handle) == Seq::<u8>::empty(),
    {
        proof {
            use_type_invariant(self);
        }
        &self.img_handle
    }
}

} // verus!
