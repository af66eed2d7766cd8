//! What holds of the viewer in every state and for every sequence of
//! selections.

use vstd::prelude::*;

use crate::size::{Assets, LogoSize};
use crate::state::{DisplayModel, Event};
use crate::view::ControlsPane;

verus! {

/// Selecting a resolution shows the image that the asset table holds for it,
/// under its tag, whatever was on display before.
pub proof fn lemma_select_shows_asset(display: DisplayModel, assets: Assets, size: LogoSize)
    ensures
        display.step(assets, Event::LogoSizeChanged(size)).bytes == assets.bytes_of(size),
        display.step(assets, Event::LogoSizeChanged(size)).tag == Some(size),
{
}

/// Selecting the same resolution twice in a row leaves the same display as
/// selecting it once.
pub proof fn lemma_select_idempotent(display: DisplayModel, assets: Assets, event: Event)
    ensures
        display.step(assets, event).step(assets, event) == display.step(assets, event),
{
}

/// Switching from `a` to `b` and back to `a` restores the display that the
/// first selection of `a` gave, and with it the bytes of `a`'s image.
pub proof fn lemma_switch_back(display: DisplayModel, assets: Assets, a: LogoSize, b: LogoSize)
    ensures
        display.step(assets, Event::LogoSizeChanged(a)).step(
            assets,
            Event::LogoSizeChanged(b),
        ).step(assets, Event::LogoSizeChanged(a)) == display.step(
            assets,
            Event::LogoSizeChanged(a),
        ),
        display.step(assets, Event::LogoSizeChanged(a)).step(
            assets,
            Event::LogoSizeChanged(b),
        ).step(assets, Event::LogoSizeChanged(a)).bytes == assets.bytes_of(a),
{
}

/// Image and tag agree in every display that can be reached: at the start,
/// and after any sequence of selections.
pub proof fn lemma_reachable_consistent(assets: Assets, events: Seq<Event>)
    ensures
        DisplayModel::run(assets, events).consistent(assets),
    decreases events.len(),
{
    if events.len() > 0 {
        lemma_reachable_consistent(assets, events.drop_last());
    }
}

/// After at least one selection the display is that of the last one: earlier
/// selections leave no trace.
pub proof fn lemma_last_selection_wins(assets: Assets, events: Seq<Event>)
    requires
        events.len() > 0,
    ensures
        DisplayModel::run(assets, events) == DisplayModel::initial().step(assets, events.last()),
{
}

/// The options exclude one another: an option is marked exactly when it
/// offers the selected resolution, so no two options are marked at once, and
/// one is marked exactly while a resolution is selected.
pub proof fn lemma_options_exclusive(pane: ControlsPane, tag: Option<LogoSize>)
    requires
        pane.offers(tag),
    ensures
        forall|i: int|
            0 <= i < 3 ==> (#[trigger] pane.options@[i].selected <==> tag == Some(
                pane.options@[i].value,
            )),
        forall|i: int, j: int|
            #![trigger pane.options@[i], pane.options@[j]]
            0 <= i < 3 && 0 <= j < 3 && pane.options@[i].selected && pane.options@[j].selected
                ==> i == j,
        (exists|i: int| 0 <= i < 3 && #[trigger] pane.options@[i].selected) <==> tag is Some,
{
    if tag is Some {
        let chosen: int = match tag.unwrap() {
            LogoSize::Px144 => 0,
            LogoSize::Px600 => 1,
            LogoSize::Px1024 => 2,
        };
        assert(pane.options@[chosen].selected);
    }
}

/// A click takes effect: after the event of a pane's option has been handled,
/// the controls that offer the new selection mark that option and no other.
pub proof fn lemma_click_marks_option(
    display: DisplayModel,
    assets: Assets,
    before: ControlsPane,
    after: ControlsPane,
    i: int,
)
    requires
        before.offers(display.tag),
        0 <= i < 3,
        after.offers(display.step(assets, Event::LogoSizeChanged(before.options@[i].value)).tag),
    ensures
        display.step(assets, Event::LogoSizeChanged(before.options@[i].value)).bytes
            == assets.bytes_of(before.options@[i].value),
        forall|j: int| 0 <= j < 3 ==> (#[trigger] after.options@[j].selected <==> j == i),
{
}

} // verus!
