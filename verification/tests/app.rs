use iced_native::image::Data;
use logo_panes::{
    App, Arrangement, Assets, ControlsPane, Event, ImagePane, Layout, LogoSize, PaneKind,
    RadioOption, Scene, SharedState,
};

fn table() -> Assets {
    Assets::new(vec![1, 4, 4], vec![6, 0, 0, 6], vec![1, 0, 2, 4, 9])
}

fn asset(size: LogoSize) -> Vec<u8> {
    match size {
        LogoSize::Px144 => vec![1, 4, 4],
        LogoSize::Px600 => vec![6, 0, 0, 6],
        LogoSize::Px1024 => vec![1, 0, 2, 4, 9],
    }
}

fn sizes() -> Vec<LogoSize> {
    vec![LogoSize::Px144, LogoSize::Px600, LogoSize::Px1024]
}

fn bytes_of(handle: &iced::image::Handle) -> Vec<u8> {
    match handle.data() {
        Data::Bytes(bytes) => bytes.clone(),
        other => panic!("the handle was not made from memory: {:?}", other),
    }
}

fn assert_controls(pane: &ControlsPane, tag: Option<LogoSize>) {
    assert_eq!(pane.title, "Controls");
    assert_eq!(pane.options.len(), 3);
    let labels = ["144px", "600px", "1024px"];
    for (i, size) in sizes().into_iter().enumerate() {
        assert_eq!(pane.options[i].value, size);
        assert_eq!(pane.options[i].label, labels[i]);
        assert_eq!(pane.options[i].selected, tag == Some(size));
    }
    let marked = pane.options.iter().filter(|option| option.selected).count();
    assert_eq!(marked, if tag.is_some() { 1 } else { 0 });
}

fn assert_scene(scene: &Scene, tag: Option<LogoSize>) {
    assert_eq!(scene.image.title, "Image");
    let expected = match tag {
        Some(size) => asset(size),
        None => Vec::new(),
    };
    assert_eq!(bytes_of(&scene.image.handle), expected);
    assert_controls(&scene.controls, tag);
}

#[test]
fn title_is_app() {
    let app = App::new(table());
    assert_eq!(app.title(), "App");
}

#[test]
fn app_starts_with_nothing_selected() {
    let app = App::new(table());
    assert_eq!(app.shared().logo_size(), None);
    assert_eq!(bytes_of(app.shared().img_handle()), Vec::<u8>::new());
}

#[test]
fn update_selects_each_size() {
    for size in sizes() {
        let mut app = App::new(table());
        app.update(Event::LogoSizeChanged(size));
        assert_eq!(app.shared().logo_size(), Some(size));
        assert_eq!(bytes_of(app.shared().img_handle()), asset(size));
    }
}

#[test]
fn update_twice_is_update_once() {
    for size in sizes() {
        let mut once = App::new(table());
        once.update(Event::LogoSizeChanged(size));
        let mut twice = App::new(table());
        twice.update(Event::LogoSizeChanged(size));
        twice.update(Event::LogoSizeChanged(size));
        assert_eq!(once.shared().logo_size(), twice.shared().logo_size());
        assert_eq!(
            bytes_of(once.shared().img_handle()),
            bytes_of(twice.shared().img_handle())
        );
        assert_scene(&twice.view(), Some(size));
    }
}

#[test]
fn update_back_and_forth_restores_the_image() {
    for a in sizes() {
        for b in sizes() {
            let mut app = App::new(table());
            app.update(Event::LogoSizeChanged(a));
            let first = bytes_of(app.shared().img_handle());
            app.update(Event::LogoSizeChanged(b));
            assert_eq!(app.shared().logo_size(), Some(b));
            assert_eq!(bytes_of(app.shared().img_handle()), asset(b));
            app.update(Event::LogoSizeChanged(a));
            assert_eq!(app.shared().logo_size(), Some(a));
            assert_eq!(bytes_of(app.shared().img_handle()), first);
            assert_eq!(first, asset(a));
        }
    }
}

#[test]
fn view_before_any_selection() {
    let app = App::new(table());
    let scene = app.view();
    assert_scene(&scene, None);
    assert!(scene.controls.options.iter().all(|option| !option.selected));
    assert_eq!(bytes_of(&scene.image.handle).len(), 0);
}

#[test]
fn view_after_each_selection() {
    let mut app = App::new(table());
    for size in sizes() {
        app.update(Event::LogoSizeChanged(size));
        assert_scene(&app.view(), Some(size));
    }
    for size in sizes().into_iter().rev() {
        app.update(Event::LogoSizeChanged(size));
        assert_scene(&app.view(), Some(size));
    }
}

#[test]
fn view_does_not_change_the_state() {
    let mut app = App::new(table());
    app.update(Event::LogoSizeChanged(LogoSize::Px600));
    let first = app.view();
    let second = app.view();
    assert_scene(&first, Some(LogoSize::Px600));
    assert_scene(&second, Some(LogoSize::Px600));
    assert_eq!(app.shared().logo_size(), Some(LogoSize::Px600));
    assert_eq!(first.image.handle.id(), second.image.handle.id());
    assert_eq!(first.image.handle.id(), app.shared().img_handle().id());
}

#[test]
fn controls_always_offer_three_options() {
    let assets = table();
    let mut states = vec![SharedState::new()];
    for size in sizes() {
        states.push(SharedState::selected(size, &assets));
    }
    for state in &states {
        let pane = ControlsPane::render(state);
        assert_controls(&pane, state.logo_size());
    }
}

#[test]
fn image_pane_of_a_blank_state_is_empty() {
    let pane = ImagePane::render(&SharedState::new());
    assert_eq!(pane.title, "Image");
    assert_eq!(bytes_of(&pane.handle), Vec::<u8>::new());
}

#[test]
fn image_pane_shares_the_handle_of_the_state() {
    let assets = table();
    for size in sizes() {
        let state = SharedState::selected(size, &assets);
        let pane = ImagePane::render(&state);
        assert_eq!(bytes_of(&pane.handle), asset(size));
        assert_eq!(pane.handle.id(), state.img_handle().id());
    }
}

#[test]
fn events_compare_by_their_size() {
    assert_eq!(
        Event::LogoSizeChanged(LogoSize::Px144),
        Event::LogoSizeChanged(LogoSize::Px144)
    );
    assert_ne!(
        Event::LogoSizeChanged(LogoSize::Px144),
        Event::LogoSizeChanged(LogoSize::Px600)
    );
}

#[test]
fn window_stacks_image_over_controls() {
    let layout = Layout::window();
    assert_eq!(layout.arrangement, Arrangement::Stacked);
    assert_eq!(layout.first, PaneKind::Image);
    assert_eq!(layout.second, PaneKind::Controls);
}

#[test]
fn click_emits_the_selection_of_the_option() {
    let app = App::new(table());
    let pane = app.view().controls;
    for (i, size) in sizes().into_iter().enumerate() {
        assert_eq!(pane.options[i].clicked(), Event::LogoSizeChanged(size));
    }
}

#[test]
fn click_marks_the_clicked_option() {
    for first in sizes() {
        for i in 0..3 {
            let mut app = App::new(table());
            app.update(Event::LogoSizeChanged(first));
            let event = app.view().controls.options[i].clicked();
            app.update(event);
            let pane = app.view().controls;
            for j in 0..3 {
                assert_eq!(pane.options[j].selected, i == j);
            }
            assert_eq!(bytes_of(&app.view().image.handle), asset(sizes()[i]));
        }
    }
}

#[test]
fn radio_option_is_marked_only_for_its_own_size() {
    for size in sizes() {
        assert!(!RadioOption::new(size, None).selected);
        for tag in sizes() {
            let option = RadioOption::new(size, Some(tag));
            assert_eq!(option.value, size);
            assert_eq!(option.label, size.label());
            assert_eq!(option.selected, size == tag);
        }
    }
}
