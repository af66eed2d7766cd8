//! What the two panes show, as plain values for a front end to draw.

use vstd::prelude::*;

use crate::handle::{handle_bytes, handle_clone};
use crate::size::LogoSize;
use crate::state::{Event, SharedState};
use iced::image::Handle;

verus! {

/// The two panes of the window.
#[derive(Debug, Clone, Copy, PartialEq, Eq, Structural)]
pub enum PaneKind {
    Image,
    Controls,
}

/// How two panes share the window.
#[derive(Debug, Clone, Copy, PartialEq, Eq, Structural)]
pub enum Arrangement {
    /// The first pane sits above the second.
    Stacked,
    /// The first pane sits to the left of the second.
    SideBySide,
}

/// The division of the window into its two panes. It is fixed at startup and
/// does not depend on the state.
#[derive(Debug, Clone, Copy, PartialEq, Eq, Structural)]
pub struct Layout {
    pub arrangement: Arrangement,
    pub first: PaneKind,
    pub second: PaneKind,
}

impl Layout {
    /// The layout of the window: the image pane above the controls pane.
    pub fn window() -> (layout: Layout)
        ensures
            layout == (Layout {
                arrangement: Arrangement::Stacked,
                first: PaneKind::Image,
                second: PaneKind::Controls,
            }),
    {
        Layout {
            arrangement: Arrangement::Stacked,
            first: PaneKind::Image,
            second: PaneKind::Controls,
        }
    }
}

/// One radio option of the controls pane.
pub struct RadioOption {
    /// The resolution that a click on this option selects.
    pub value: LogoSize,
    /// The text beside the button.
    pub label: &'static str,
    /// Whether this option is the one marked as chosen.
    pub selected: bool,
}

impl RadioOption {
    /// This option offers `size`, under its name, and is marked exactly when
    /// `size` is the resolution that `tag` holds.
    pub open spec fn offers(self, size: LogoSize, tag: Option<LogoSize>) -> bool {
        &&& self.value == size
        &&& self.label@ == size.label_text()
        &&& self.selected == (tag == Some(size))
    }

    /// Builds the option for `size` while `tag` is the current selection.
    pub fn new(size: LogoSize, tag: Option<LogoSize>) -> (option: RadioOption)
        ensures
            option.offers(size, tag),
    {
        let selected = match tag {
            Some(current) => current == size,
            None => false,
        };
        RadioOption { value: size, label: size.label(), selected }
    }

    /// The event that a click on this option emits: the selection of the
    /// resolution it offers.
    pub fn clicked(&self) -> (event: Event)
        ensures
            event == Event::LogoSizeChanged(self.value),
    {
        Event::LogoSizeChanged(self.value)
    }
}

/// The pane that shows the logo.
pub struct ImagePane {
    /// The text of the pane's title bar.
    pub title: &'static str,
    /// The image to draw; a handle over no bytes stands for the empty pane.
    pub handle: Handle,
}

/// The pane that offers the three resolutions.
pub struct ControlsPane {
    /// The text of the pane's title bar.
    pub title: &'static str,
    /// The radio options, in the order in which they are laid out.
    pub options: Vec<RadioOption>,
}

/// Everything the window shows at one moment: the contents of its two
/// panes.
pub struct Scene {
    pub image: ImagePane,
    pub controls: ControlsPane,
}

impl ImagePane {
    /// The title of the image pane.
    pub open spec fn title_text() -> Seq<char> {
        "Image"@
    }

    /// Describes the image pane for `state`. Every state has a description:
    /// while nothing is selected the pane holds a handle over no bytes.
    pub fn render(state: &SharedState) -> (pane: ImagePane)
        ensures
            pane.title@ == ImagePane::title_text(),
            handle_bytes(pane.handle) == state@.bytes,
            state@.tag is None ==> handle_bytes(pane.handle) == Seq::<u8>::empty(),
    {
        ImagePane { title: "Image", handle: handle_clone(state.img_handle()) }
    }
}

impl ControlsPane {
    /// The title of the controls pane.
    pub open spec fn title_text() -> Seq<char> {
        "Controls"@
    }

    /// The pane offers the three resolutions, smallest first, and marks the
    /// one that `tag` holds.
    pub open spec fn offers(self, tag: Option<LogoSize>) -> bool {
        &&& self.title@ == ControlsPane::title_text()
        &&& self.options@.len() == 3
        &&& self.options@[0].offers(LogoSize::Px144, tag)
        &&& self.options@[1].offers(LogoSize::Px600, tag)
        &&& self.options@[2].offers(LogoSize::Px1024, tag)
    }

    /// Describes the controls pane for `state`: always three options, of
    /// which the selected resolution, if there is one, is marked and no
    /// other.
    pub fn render(state: &SharedState) -> (pane: ControlsPane)
        ensures
            pane.options@.len() == 3,
            pane.offers(state@.tag),
    {
        let tag = state.logo_size();
        let mut options: Vec<RadioOption> = Vec::new();
        options.push(RadioOption::new(LogoSize::Px144, tag));
        options.push(RadioOption::new(LogoSize::Px600, tag));
        options.push(RadioOption::new(LogoSize::Px1024, tag));
        ControlsPane { title: "Controls", options }
    }
}

} // verus!
