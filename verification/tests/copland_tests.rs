use copland::copland::{get_time_string, Copland};
use copland::message::{CoplandMsg, Effect, MoveEvent, Pointer};
use copland::snapshot::{Rendered, Snapshot};
use copland::theme::Theme;
use copland::window::{Window, WindowId, WindowPosition, WindowState};

fn desktop() -> Copland {
    Copland::new(Theme { background: 1 }, 9, 5)
}

fn nothing_shown() -> Snapshot {
    Snapshot {
        viewport_width: 1000,
        viewport_height: 800,
        area: None,
        elements: Vec::new(),
        hours: 0,
        minutes: 0,
    }
}

fn shown(width: i32, height: i32, elements: Vec<Rendered>) -> Snapshot {
    Snapshot {
        viewport_width: width,
        viewport_height: height,
        area: Some((width, height)),
        elements,
        hours: 0,
        minutes: 0,
    }
}

fn element(id: WindowId, left: i32, top: i32, height: u32) -> Rendered {
    Rendered { id, left, top, height }
}

fn mouse(x: i32, y: i32) -> MoveEvent {
    MoveEvent::MouseEvent(Pointer { client_x: x, client_y: y, on_button: false })
}

fn touch(x: i32, y: i32) -> MoveEvent {
    MoveEvent::TouchEvent(Pointer { client_x: x, client_y: y, on_button: false })
}

fn window(copland: &Copland, id: WindowId) -> Window {
    copland.get(id).expect("the window is in the registry").clone()
}

fn note(id: u32, x: i32, y: i32) -> Window {
    Window::sticky_note(id, String::from("note"), 0, x, y)
}

fn ids(copland: &Copland) -> Vec<WindowId> {
    copland.values().iter().map(|w| w.id).collect()
}

fn highest_other(copland: &Copland, id: WindowId) -> Option<u32> {
    copland.values().iter().filter(|w| w.id != id).map(|w| w.z_index).max()
}

#[test]
fn a_new_desktop_holds_the_home_window_alone() {
    let copland = desktop();
    assert_eq!(ids(&copland), vec![WindowId::Home]);
    assert_eq!(copland.values()[0].z_index, 0);
    assert_eq!(copland.values()[0].state, WindowState::Open);
    assert_eq!(copland.max_z_index(), 1);
    assert_eq!(copland.focused_window(), WindowId::Home);
    assert_eq!(copland.dragging(), None);
    assert_eq!(copland.theme(), Theme { background: 1 });
    assert_eq!(copland.taskbar_time(), "09:05");
}

#[test]
fn get_finds_windows_by_identity() {
    let mut copland = desktop();
    copland.open(Window::about_me());
    assert_eq!(window(&copland, WindowId::AboutMe).title, "About Me");
    assert_eq!(window(&copland, WindowId::Home).title, "Home");
    assert!(copland.get(WindowId::Films).is_none());
    assert!(copland.get(WindowId::StickyNote(1)).is_none());
}

#[test]
fn values_keep_the_order_of_opening() {
    let mut copland = desktop();
    copland.open(note(5, 0, 0));
    copland.open(Window::spotify());
    copland.open(Window::about_me());
    copland.focus(WindowId::Spotify);
    copland.open(note(2, 0, 0));
    assert_eq!(
        ids(&copland),
        vec![
            WindowId::Home,
            WindowId::StickyNote(5),
            WindowId::Spotify,
            WindowId::AboutMe,
            WindowId::StickyNote(2),
        ]
    );
}

#[test]
fn focus_moves_the_highlight_to_the_focused_window() {
    let mut copland = desktop();
    copland.open(Window::projects());
    assert_eq!(window(&copland, WindowId::Home).state, WindowState::Open);
    assert_eq!(window(&copland, WindowId::Projects).state, WindowState::Open);
    assert_eq!(window(&copland, WindowId::Projects).z_index, 2);
    assert_eq!(copland.focused_window(), WindowId::Projects);
    assert!(window(&copland, WindowId::Home).z_index < 2);

    copland.focus(WindowId::Home);

    assert_eq!(window(&copland, WindowId::Home).z_index, 3);
    assert_eq!(window(&copland, WindowId::Projects).z_index, 2);
    assert_eq!(copland.focused_window(), WindowId::Home);
    let taskbar = copland.taskbar();
    let a = taskbar.iter().find(|b| b.id == WindowId::Home).unwrap();
    let b = taskbar.iter().find(|b| b.id == WindowId::Projects).unwrap();
    assert!(a.active);
    assert!(!b.active);
}

#[test]
fn the_last_focused_window_is_strictly_topmost() {
    let mut copland = desktop();
    copland.open(Window::about_me());
    copland.open(Window::films());
    copland.open(note(1, 10, 10));
    let order = [
        WindowId::Home,
        WindowId::Films,
        WindowId::Films,
        WindowId::StickyNote(1),
        WindowId::AboutMe,
        WindowId::Home,
    ];
    for id in order {
        copland.focus(id);
        let z = window(&copland, id).z_index;
        assert!(highest_other(&copland, id).unwrap() < z);
        assert_eq!(z, copland.max_z_index());
        assert_eq!(copland.focused_window(), id);
    }
}

#[test]
fn focus_hands_out_the_next_index_each_time() {
    let mut copland = desktop();
    copland.focus(WindowId::Home);
    assert_eq!(window(&copland, WindowId::Home).z_index, 2);
    copland.focus(WindowId::Home);
    assert_eq!(window(&copland, WindowId::Home).z_index, 3);
    assert_eq!(copland.max_z_index(), 3);
}

#[test]
fn focus_on_an_unknown_window_changes_nothing() {
    let mut copland = desktop();
    copland.open(Window::about_me());
    copland.focus(WindowId::Films);
    assert_eq!(copland.focused_window(), WindowId::AboutMe);
    assert_eq!(copland.max_z_index(), 2);
    assert_eq!(ids(&copland), vec![WindowId::Home, WindowId::AboutMe]);
    assert_eq!(window(&copland, WindowId::AboutMe).z_index, 2);
}

#[test]
fn focus_on_an_unknown_window_still_asks_for_a_redraw() {
    let mut copland = desktop();
    let outcome = copland.update(CoplandMsg::FocusWindow(WindowId::Films), &nothing_shown());
    assert!(outcome.render);
    assert!(outcome.effects.is_empty());
}

#[test]
fn open_enters_a_new_window_in_focus_and_on_top() {
    let mut copland = desktop();
    copland.open(Window::about_me());
    assert_eq!(ids(&copland), vec![WindowId::Home, WindowId::AboutMe]);
    assert_eq!(copland.focused_window(), WindowId::AboutMe);
    assert_eq!(window(&copland, WindowId::AboutMe).z_index, 2);
    assert_eq!(copland.max_z_index(), 2);
}

#[test]
fn open_of_a_known_identity_adds_no_record() {
    let mut copland = desktop();
    copland.open(note(4, 10, 20));
    copland.open(Window::about_me());
    let before = copland.values().len();

    let mut other = note(4, 500, 600);
    other.title = String::from("another payload");
    copland.open(other);

    assert_eq!(copland.values().len(), before);
    assert_eq!(copland.focused_window(), WindowId::StickyNote(4));
    let kept = window(&copland, WindowId::StickyNote(4));
    assert_eq!(kept.title, "sticky note 4");
    assert_eq!(kept.left, WindowPosition::Close(10));
    assert_eq!(kept.top, WindowPosition::Close(20));
    assert_eq!(kept.z_index, 4);
    assert!(highest_other(&copland, WindowId::StickyNote(4)).unwrap() < kept.z_index);
}

#[test]
fn close_removes_a_window_with_the_close_policy() {
    let mut copland = desktop();
    copland.open(Window::about_me());
    copland.open(Window::films());
    let outcome = copland.close(WindowId::AboutMe);
    assert!(outcome.render);
    assert!(outcome.effects.is_empty());
    assert_eq!(ids(&copland), vec![WindowId::Home, WindowId::Films]);
    assert!(copland.get(WindowId::AboutMe).is_none());
}

#[test]
fn close_of_a_sticky_note_asks_the_store_to_delete_it() {
    let mut copland = desktop();
    copland.open(note(31, 0, 0));
    let outcome = copland.close(WindowId::StickyNote(31));
    assert_eq!(outcome.effects, vec![Effect::DeleteNote(31)]);
    assert!(copland.get(WindowId::StickyNote(31)).is_none());
}

#[test]
fn close_of_an_unknown_sticky_note_still_asks_for_deletion() {
    let mut copland = desktop();
    let outcome = copland.close(WindowId::StickyNote(8));
    assert!(outcome.render);
    assert_eq!(outcome.effects, vec![Effect::DeleteNote(8)]);
    assert_eq!(ids(&copland), vec![WindowId::Home]);
}

#[test]
fn close_never_removes_or_hides_the_home_window() {
    let mut copland = desktop();
    copland.open(Window::about_me());
    let before = window(&copland, WindowId::Home);
    for _ in 0..5 {
        copland.close(WindowId::Home);
        copland.close(WindowId::AboutMe);
        copland.close(WindowId::Films);
        let home = window(&copland, WindowId::Home);
        assert_eq!(home.state, before.state);
        assert_eq!(home.z_index, before.z_index);
        assert_eq!(home.left, before.left);
        assert_eq!(home.top, before.top);
    }
    assert_eq!(ids(&copland), vec![WindowId::Home]);
}

#[test]
fn close_through_update_leaves_the_home_window() {
    let mut copland = desktop();
    let outcome = copland.update(CoplandMsg::CloseWindow(WindowId::Home), &nothing_shown());
    assert!(outcome.render);
    assert!(outcome.effects.is_empty());
    assert_eq!(window(&copland, WindowId::Home).state, WindowState::Open);
}

#[test]
fn close_hides_a_window_with_the_hide_policy_and_open_brings_it_back() {
    let mut copland = desktop();
    copland.open(Window::spotify());
    copland.open(Window::about_me());

    copland.close(WindowId::Spotify);
    assert_eq!(window(&copland, WindowId::Spotify).state, WindowState::Hidden);
    assert_eq!(copland.values().len(), 3);
    assert!(copland.taskbar().iter().all(|b| b.id != WindowId::Spotify));

    copland.open(Window::spotify());
    assert_eq!(copland.values().len(), 3);
    let back = window(&copland, WindowId::Spotify);
    assert_eq!(back.state, WindowState::Open);
    assert_eq!(copland.focused_window(), WindowId::Spotify);
    assert!(highest_other(&copland, WindowId::Spotify).unwrap() < back.z_index);
    assert!(copland.taskbar().iter().any(|b| b.id == WindowId::Spotify && b.active));
}

#[test]
fn a_hidden_window_keeps_its_place_and_stacking_index() {
    let mut copland = desktop();
    copland.open(Window::spotify());
    let before = window(&copland, WindowId::Spotify);
    copland.close(WindowId::Spotify);
    let hidden = window(&copland, WindowId::Spotify);
    assert_eq!(hidden.z_index, before.z_index);
    assert_eq!(hidden.left, before.left);
    assert_eq!(hidden.top, before.top);
    assert_eq!(ids(&copland), vec![WindowId::Home, WindowId::Spotify]);
}

#[test]
fn minimise_remembers_whether_the_window_was_maximised() {
    let mut copland = desktop();
    copland.open(Window::about_me());
    assert!(copland.minimise(WindowId::AboutMe));
    assert_eq!(window(&copland, WindowId::AboutMe).state, WindowState::Minimised(false));

    assert!(copland.maximise(WindowId::Home));
    assert!(copland.minimise(WindowId::Home));
    assert_eq!(window(&copland, WindowId::Home).state, WindowState::Minimised(true));
}

#[test]
fn focus_restores_a_window_minimised_from_maximised_to_maximised() {
    let mut copland = desktop();
    copland.open(Window::films());
    copland.maximise(WindowId::Films);
    copland.minimise(WindowId::Films);
    copland.focus(WindowId::Films);
    assert_eq!(window(&copland, WindowId::Films).state, WindowState::Maximised);
}

#[test]
fn focus_restores_a_window_minimised_from_open_to_open() {
    let mut copland = desktop();
    copland.open(Window::films());
    copland.minimise(WindowId::Films);
    copland.focus(WindowId::Films);
    assert_eq!(window(&copland, WindowId::Films).state, WindowState::Open);
}

#[test]
fn focus_keeps_a_maximised_window_maximised() {
    let mut copland = desktop();
    copland.maximise(WindowId::Home);
    copland.focus(WindowId::Home);
    assert_eq!(window(&copland, WindowId::Home).state, WindowState::Maximised);
}

#[test]
fn maximise_and_restore_switch_between_the_two_views() {
    let mut copland = desktop();
    assert!(copland.maximise(WindowId::Home));
    assert_eq!(window(&copland, WindowId::Home).state, WindowState::Maximised);
    assert!(copland.restore(WindowId::Home));
    assert_eq!(window(&copland, WindowId::Home).state, WindowState::Open);
    copland.minimise(WindowId::Home);
    assert!(copland.maximise(WindowId::Home));
    assert_eq!(window(&copland, WindowId::Home).state, WindowState::Maximised);
}

#[test]
fn state_changes_on_an_unknown_window_do_nothing() {
    let mut copland = desktop();
    assert!(!copland.minimise(WindowId::Films));
    assert!(!copland.maximise(WindowId::Films));
    assert!(!copland.restore(WindowId::Films));
    assert!(!copland.resize(WindowId::Films, 10));
    assert_eq!(ids(&copland), vec![WindowId::Home]);
    assert_eq!(window(&copland, WindowId::Home).state, WindowState::Open);
}

#[test]
fn state_changes_keep_stacking_and_focus() {
    let mut copland = desktop();
    copland.open(Window::about_me());
    copland.minimise(WindowId::Home);
    copland.maximise(WindowId::Home);
    copland.restore(WindowId::Home);
    assert_eq!(window(&copland, WindowId::Home).z_index, 0);
    assert_eq!(copland.focused_window(), WindowId::AboutMe);
    assert_eq!(copland.max_z_index(), 2);
}

#[test]
fn resize_sets_the_height_that_the_content_asks_for() {
    let mut copland = desktop();
    copland.open(Window::spotify());
    assert_eq!(window(&copland, WindowId::Spotify).height, None);
    assert!(copland.resize(WindowId::Spotify, 240));
    assert_eq!(window(&copland, WindowId::Spotify).height, Some(240));
    let outcome =
        copland.update(CoplandMsg::ResizeWindow(WindowId::Spotify, 180), &nothing_shown());
    assert!(outcome.render);
    assert_eq!(window(&copland, WindowId::Spotify).height, Some(180));
    assert_eq!(window(&copland, WindowId::Spotify).width, 300);
}

#[test]
fn reconcile_brings_a_window_back_into_a_smaller_viewport() {
    let mut copland = desktop();
    let mut wide = note(1, 900, 700);
    wide.width = 300;
    copland.open(wide);
    let before = shown(1000, 800, vec![element(WindowId::StickyNote(1), 900, 700, 100)]);
    assert!(copland.reconcile(&before));
    assert_eq!(window(&copland, WindowId::StickyNote(1)).left, WindowPosition::Close(700));
    assert_eq!(window(&copland, WindowId::StickyNote(1)).top, WindowPosition::Close(700));

    let mut copland = desktop();
    let mut wide = note(1, 900, 700);
    wide.width = 300;
    copland.open(wide);
    let after = shown(400, 300, vec![element(WindowId::StickyNote(1), 900, 700, 100)]);
    assert!(copland.reconcile(&after));
    assert_eq!(window(&copland, WindowId::StickyNote(1)).left, WindowPosition::Close(100));
    assert_eq!(window(&copland, WindowId::StickyNote(1)).top, WindowPosition::Close(200));
}

#[test]
fn reconcile_pins_a_window_larger_than_the_viewport_to_the_near_edge() {
    let mut copland = desktop();
    copland.open(note(1, 50, 60));
    let snapshot = shown(150, 80, vec![element(WindowId::StickyNote(1), 50, 60, 100)]);
    assert!(copland.reconcile(&snapshot));
    assert_eq!(window(&copland, WindowId::StickyNote(1)).left, WindowPosition::Close(0));
    assert_eq!(window(&copland, WindowId::StickyNote(1)).top, WindowPosition::Close(0));
}

#[test]
fn reconcile_floors_negative_offsets_at_zero() {
    let mut copland = desktop();
    copland.open(note(1, -40, -3));
    let snapshot = shown(1000, 800, vec![element(WindowId::StickyNote(1), -40, -3, 100)]);
    assert!(copland.reconcile(&snapshot));
    assert_eq!(window(&copland, WindowId::StickyNote(1)).left, WindowPosition::Close(0));
    assert_eq!(window(&copland, WindowId::StickyNote(1)).top, WindowPosition::Close(0));
}

#[test]
fn reconcile_leaves_symbolic_positions() {
    let mut copland = desktop();
    copland.open(Window::spotify());
    let snapshot = shown(100, 100, vec![element(WindowId::Spotify, 0, 500, 300)]);
    copland.open(Window::socials());
    let mut snapshot = snapshot;
    snapshot.elements.push(element(WindowId::SocialLinks, 0, 0, 50));
    assert!(copland.reconcile(&snapshot));
    let spotify = window(&copland, WindowId::Spotify);
    assert_eq!(spotify.left, WindowPosition::Far);
    assert_eq!(spotify.top, WindowPosition::Close(0));
    let socials = window(&copland, WindowId::SocialLinks);
    assert_eq!(socials.left, WindowPosition::Half);
    assert_eq!(socials.top, WindowPosition::Far);
    let home = window(&copland, WindowId::Home);
    assert_eq!(home.left, WindowPosition::Half);
    assert_eq!(home.top, WindowPosition::Half);
}

#[test]
fn reconcile_clamps_the_explicit_axis_of_a_mixed_position() {
    let mut copland = desktop();
    let mut spotify = Window::spotify();
    spotify.top = WindowPosition::Close(900);
    copland.open(spotify);
    let snapshot = shown(400, 300, vec![element(WindowId::Spotify, 100, 900, 120)]);
    assert!(copland.reconcile(&snapshot));
    let spotify = window(&copland, WindowId::Spotify);
    assert_eq!(spotify.left, WindowPosition::Far);
    assert_eq!(spotify.top, WindowPosition::Close(180));
}

#[test]
fn reconcile_leaves_windows_that_are_not_open() {
    let mut copland = desktop();
    copland.open(note(1, 900, 700));
    copland.open(note(2, 900, 700));
    copland.open(note(3, 900, 700));
    copland.maximise(WindowId::StickyNote(1));
    copland.minimise(WindowId::StickyNote(2));
    let snapshot = shown(400, 300, vec![element(WindowId::StickyNote(3), 900, 700, 100)]);
    assert!(copland.reconcile(&snapshot));
    for id in [WindowId::StickyNote(1), WindowId::StickyNote(2)] {
        assert_eq!(window(&copland, id).left, WindowPosition::Close(900));
        assert_eq!(window(&copland, id).top, WindowPosition::Close(700));
    }
    assert_eq!(window(&copland, WindowId::StickyNote(3)).left, WindowPosition::Close(200));
    assert_eq!(window(&copland, WindowId::StickyNote(3)).top, WindowPosition::Close(200));
}

#[test]
fn reconcile_leaves_a_hidden_window() {
    let mut copland = desktop();
    let mut spotify = Window::spotify();
    spotify.left = WindowPosition::Close(900);
    spotify.top = WindowPosition::Close(700);
    copland.open(spotify);
    copland.close(WindowId::Spotify);
    assert!(copland.reconcile(&shown(400, 300, Vec::new())));
    assert_eq!(window(&copland, WindowId::Spotify).left, WindowPosition::Close(900));
    assert_eq!(window(&copland, WindowId::Spotify).top, WindowPosition::Close(700));
}

#[test]
fn reconcile_changes_nothing_when_an_element_is_missing() {
    let mut copland = desktop();
    copland.open(note(1, 900, 700));
    copland.open(note(2, 900, 700));
    let snapshot = shown(400, 300, vec![element(WindowId::StickyNote(1), 900, 700, 100)]);
    assert!(!copland.reconcile(&snapshot));
    for id in [WindowId::StickyNote(1), WindowId::StickyNote(2)] {
        assert_eq!(window(&copland, id).left, WindowPosition::Close(900));
        assert_eq!(window(&copland, id).top, WindowPosition::Close(700));
    }
    let outcome = copland.update(CoplandMsg::ResizeBrowser, &snapshot);
    assert!(!outcome.render);
    assert!(outcome.effects.is_empty());
}

#[test]
fn reconcile_uses_the_first_element_of_a_window() {
    let mut copland = desktop();
    copland.open(note(1, 900, 700));
    let snapshot = shown(
        400,
        300,
        vec![
            element(WindowId::StickyNote(1), 0, 0, 100),
            element(WindowId::StickyNote(1), 0, 0, 250),
        ],
    );
    assert_eq!(snapshot.find(WindowId::StickyNote(1)).unwrap().height, 100);
    assert!(snapshot.find(WindowId::StickyNote(2)).is_none());
    assert!(copland.reconcile(&snapshot));
    assert_eq!(window(&copland, WindowId::StickyNote(1)).top, WindowPosition::Close(200));
}

#[test]
fn reconcile_through_update_redraws() {
    let mut copland = desktop();
    copland.open(note(1, 900, 700));
    let snapshot = shown(400, 300, vec![element(WindowId::StickyNote(1), 900, 700, 100)]);
    let outcome = copland.update(CoplandMsg::ResizeBrowser, &snapshot);
    assert!(outcome.render);
    assert!(outcome.effects.is_empty());
    assert_eq!(window(&copland, WindowId::StickyNote(1)).left, WindowPosition::Close(200));
}

#[test]
fn drag_start_records_the_offset_and_attaches_the_listeners() {
    let mut copland = desktop();
    copland.open(note(1, 100, 100));
    let outcome = copland.drag_start(
        WindowId::StickyNote(1),
        &mouse(130, 110),
        Some(element(WindowId::StickyNote(1), 100, 100, 80)),
    );
    assert!(outcome.render);
    assert_eq!(
        outcome.effects,
        vec![Effect::PreventDefault, Effect::AttachDragListeners(WindowId::StickyNote(1))]
    );
    assert_eq!(copland.dragging(), Some(WindowId::StickyNote(1)));
}

#[test]
fn drag_start_by_touch_cannot_suppress_the_default() {
    let mut copland = desktop();
    copland.open(note(1, 100, 100));
    let outcome = copland.drag_start(
        WindowId::StickyNote(1),
        &touch(130, 110),
        Some(element(WindowId::StickyNote(1), 100, 100, 80)),
    );
    assert!(outcome.render);
    assert_eq!(outcome.effects, vec![Effect::AttachDragListeners(WindowId::StickyNote(1))]);
}

#[test]
fn drag_start_on_a_maximised_window_does_nothing() {
    let mut copland = desktop();
    copland.open(note(1, 100, 100));
    copland.maximise(WindowId::StickyNote(1));
    let outcome = copland.drag_start(
        WindowId::StickyNote(1),
        &mouse(130, 110),
        Some(element(WindowId::StickyNote(1), 0, 0, 800)),
    );
    assert!(!outcome.render);
    assert!(outcome.effects.is_empty());
    assert_eq!(copland.dragging(), None);

    let area = Some((1000, 800));
    let rendered = Some(element(WindowId::StickyNote(1), 0, 0, 800));
    assert!(!copland.drag_move(WindowId::StickyNote(1), &mouse(300, 300), rendered, area));
    assert_eq!(window(&copland, WindowId::StickyNote(1)).left, WindowPosition::Close(100));
    assert_eq!(window(&copland, WindowId::StickyNote(1)).top, WindowPosition::Close(100));
}

#[test]
fn drag_start_on_an_unknown_window_does_nothing() {
    let mut copland = desktop();
    let outcome = copland.drag_start(WindowId::Films, &mouse(1, 1), None);
    assert!(!outcome.render);
    assert!(outcome.effects.is_empty());
    assert_eq!(copland.dragging(), None);
}

#[test]
fn drag_start_on_a_control_button_starts_no_drag() {
    let mut copland = desktop();
    let press = MoveEvent::MouseEvent(Pointer { client_x: 5, client_y: 5, on_button: true });
    let outcome =
        copland.drag_start(WindowId::Home, &press, Some(element(WindowId::Home, 0, 0, 10)));
    assert!(!outcome.render);
    assert_eq!(outcome.effects, vec![Effect::PreventDefault]);
    assert_eq!(copland.dragging(), None);

    let press = MoveEvent::TouchEvent(Pointer { client_x: 5, client_y: 5, on_button: true });
    let outcome =
        copland.drag_start(WindowId::Home, &press, Some(element(WindowId::Home, 0, 0, 10)));
    assert!(!outcome.render);
    assert!(outcome.effects.is_empty());
}

#[test]
fn drag_start_during_a_drag_detaches_before_it_attaches() {
    let mut copland = desktop();
    copland.open(note(1, 100, 100));
    copland.drag_start(WindowId::Home, &touch(0, 0), None);
    let outcome = copland.drag_start(WindowId::StickyNote(1), &touch(0, 0), None);
    assert_eq!(
        outcome.effects,
        vec![
            Effect::DetachDragListeners,
            Effect::AttachDragListeners(WindowId::StickyNote(1)),
        ]
    );
    assert_eq!(copland.dragging(), Some(WindowId::StickyNote(1)));
}

#[test]
fn drag_move_follows_the_pointer_at_the_recorded_distance() {
    let mut copland = desktop();
    copland.open(note(1, 100, 100));
    let rendered = Some(element(WindowId::StickyNote(1), 100, 100, 80));
    copland.drag_start(WindowId::StickyNote(1), &mouse(130, 110), rendered);
    let moved =
        copland.drag_move(WindowId::StickyNote(1), &mouse(330, 260), rendered, Some((1000, 800)));
    assert!(moved);
    assert_eq!(window(&copland, WindowId::StickyNote(1)).left, WindowPosition::Close(300));
    assert_eq!(window(&copland, WindowId::StickyNote(1)).top, WindowPosition::Close(250));
}

#[test]
fn drag_move_keeps_the_window_inside_the_area() {
    let mut copland = desktop();
    copland.open(note(1, 100, 100));
    let rendered = Some(element(WindowId::StickyNote(1), 100, 100, 80));
    let area = Some((1000, 800));
    copland.drag_start(WindowId::StickyNote(1), &mouse(100, 100), rendered);
    let pointers = [
        (5000, 5000, 800, 720),
        (-5000, -5000, 0, 0),
        (5000, -1, 800, 0),
        (-1, 5000, 0, 720),
        (800, 720, 800, 720),
        (801, 721, 800, 720),
        (i32::MAX, i32::MIN, 800, 0),
    ];
    for (x, y, left, top) in pointers {
        assert!(copland.drag_move(WindowId::StickyNote(1), &mouse(x, y), rendered, area));
        let w = window(&copland, WindowId::StickyNote(1));
        assert_eq!(w.left, WindowPosition::Close(left));
        assert_eq!(w.top, WindowPosition::Close(top));
    }
}

#[test]
fn drag_move_pins_a_window_larger_than_the_area_to_the_near_edge() {
    let mut copland = desktop();
    copland.open(note(1, 10, 10));
    let rendered = Some(element(WindowId::StickyNote(1), 10, 10, 500));
    copland.drag_start(WindowId::StickyNote(1), &mouse(10, 10), rendered);
    assert!(copland.drag_move(WindowId::StickyNote(1), &mouse(60, 70), rendered, Some((150, 300))));
    let w = window(&copland, WindowId::StickyNote(1));
    assert_eq!(w.left, WindowPosition::Close(0));
    assert_eq!(w.top, WindowPosition::Close(0));
}

#[test]
fn drag_move_gives_a_symbolic_position_explicit_offsets() {
    let mut copland = desktop();
    copland.open(Window::about_me());
    // The centred window is drawn with its corner at (350, 300).
    let rendered = Some(element(WindowId::AboutMe, 350, 300, 200));
    copland.drag_start(WindowId::AboutMe, &mouse(400, 310), rendered);
    assert_eq!(window(&copland, WindowId::AboutMe).left, WindowPosition::Half);
    assert!(copland.drag_move(WindowId::AboutMe, &mouse(410, 330), rendered, Some((1000, 800))));
    let w = window(&copland, WindowId::AboutMe);
    assert_eq!(w.left, WindowPosition::Close(360));
    assert_eq!(w.top, WindowPosition::Close(320));
}

#[test]
fn drag_move_without_a_drag_does_nothing() {
    let mut copland = desktop();
    copland.open(note(1, 100, 100));
    let rendered = Some(element(WindowId::StickyNote(1), 100, 100, 80));
    assert!(!copland.drag_move(WindowId::StickyNote(1), &mouse(5, 5), rendered, Some((1000, 800))));
    assert_eq!(window(&copland, WindowId::StickyNote(1)).left, WindowPosition::Close(100));

    copland.drag_start(WindowId::Home, &mouse(0, 0), None);
    assert!(!copland.drag_move(WindowId::StickyNote(1), &mouse(5, 5), rendered, Some((1000, 800))));
    assert_eq!(window(&copland, WindowId::StickyNote(1)).left, WindowPosition::Close(100));
}

#[test]
fn drag_move_without_the_element_or_the_area_does_nothing() {
    let mut copland = desktop();
    copland.open(note(1, 100, 100));
    let rendered = Some(element(WindowId::StickyNote(1), 100, 100, 80));
    copland.drag_start(WindowId::StickyNote(1), &mouse(100, 100), rendered);
    assert!(!copland.drag_move(WindowId::StickyNote(1), &mouse(5, 5), None, Some((1000, 800))));
    assert!(!copland.drag_move(WindowId::StickyNote(1), &mouse(5, 5), rendered, None));
    assert_eq!(window(&copland, WindowId::StickyNote(1)).left, WindowPosition::Close(100));
    assert_eq!(window(&copland, WindowId::StickyNote(1)).top, WindowPosition::Close(100));
    let outcome = copland.drag_end(WindowId::StickyNote(1));
    assert_eq!(outcome.effects, vec![Effect::DetachDragListeners]);
}

#[test]
fn drag_move_leaves_a_window_minimised_during_the_drag() {
    let mut copland = desktop();
    copland.open(note(1, 100, 100));
    let rendered = Some(element(WindowId::StickyNote(1), 100, 100, 80));
    copland.drag_start(WindowId::StickyNote(1), &mouse(100, 100), rendered);
    copland.minimise(WindowId::StickyNote(1));
    assert!(!copland.drag_move(WindowId::StickyNote(1), &mouse(5, 5), rendered, Some((1000, 800))));
    assert_eq!(window(&copland, WindowId::StickyNote(1)).left, WindowPosition::Close(100));
    assert_eq!(window(&copland, WindowId::StickyNote(1)).top, WindowPosition::Close(100));
}

#[test]
fn drag_start_without_the_element_keeps_the_last_offset() {
    let mut copland = desktop();
    copland.open(note(1, 100, 100));
    let rendered = Some(element(WindowId::StickyNote(1), 100, 100, 80));
    copland.drag_start(WindowId::StickyNote(1), &mouse(130, 110), rendered);
    copland.drag_end(WindowId::StickyNote(1));
    let outcome = copland.drag_start(WindowId::StickyNote(1), &mouse(500, 500), None);
    assert!(outcome.render);
    assert!(copland.drag_move(WindowId::StickyNote(1), &mouse(230, 210), rendered, Some((1000, 800))));
    let w = window(&copland, WindowId::StickyNote(1));
    assert_eq!(w.left, WindowPosition::Close(200));
    assert_eq!(w.top, WindowPosition::Close(200));
}

#[test]
fn drag_end_saves_a_sticky_note_that_moved() {
    let mut copland = desktop();
    copland.open(note(6, 100, 100));
    let rendered = Some(element(WindowId::StickyNote(6), 100, 100, 80));
    copland.drag_start(WindowId::StickyNote(6), &mouse(100, 100), rendered);
    copland.drag_move(WindowId::StickyNote(6), &mouse(150, 150), rendered, Some((1000, 800)));
    let outcome = copland.drag_end(WindowId::StickyNote(6));
    assert!(!outcome.render);
    assert_eq!(outcome.effects, vec![Effect::DetachDragListeners, Effect::UpdateNote(6)]);
    assert_eq!(copland.dragging(), None);

    let again = copland.drag_end(WindowId::StickyNote(6));
    assert_eq!(again.effects, vec![Effect::DetachDragListeners]);
}

#[test]
fn drag_end_without_movement_saves_nothing() {
    let mut copland = desktop();
    copland.open(note(6, 100, 100));
    copland.drag_start(WindowId::StickyNote(6), &mouse(100, 100), None);
    let outcome = copland.drag_end(WindowId::StickyNote(6));
    assert_eq!(outcome.effects, vec![Effect::DetachDragListeners]);
}

#[test]
fn drag_end_of_another_kind_of_window_saves_nothing() {
    let mut copland = desktop();
    copland.open(Window::about_me());
    let rendered = Some(element(WindowId::AboutMe, 350, 300, 200));
    copland.drag_start(WindowId::AboutMe, &mouse(400, 310), rendered);
    copland.drag_move(WindowId::AboutMe, &mouse(410, 330), rendered, Some((1000, 800)));
    let outcome = copland.drag_end(WindowId::AboutMe);
    assert_eq!(outcome.effects, vec![Effect::DetachDragListeners]);
    assert_eq!(copland.dragging(), None);
}

#[test]
fn drag_end_keeps_focus_and_stacking() {
    let mut copland = desktop();
    copland.open(note(6, 100, 100));
    copland.open(Window::about_me());
    let rendered = Some(element(WindowId::StickyNote(6), 100, 100, 80));
    copland.drag_start(WindowId::StickyNote(6), &mouse(100, 100), rendered);
    copland.drag_move(WindowId::StickyNote(6), &mouse(150, 150), rendered, Some((1000, 800)));
    copland.drag_end(WindowId::StickyNote(6));
    assert_eq!(copland.focused_window(), WindowId::AboutMe);
    assert_eq!(copland.max_z_index(), 3);
    assert_eq!(window(&copland, WindowId::StickyNote(6)).z_index, 2);
}

#[test]
fn a_whole_drag_through_update() {
    let mut copland = desktop();
    copland.update(CoplandMsg::OpenWindow(note(3, 100, 100)), &nothing_shown());
    let id = WindowId::StickyNote(3);
    let snapshot = shown(1000, 800, vec![element(id, 100, 100, 80)]);

    let start = copland.update(CoplandMsg::DragWindowStart(id, mouse(120, 105)), &snapshot);
    assert!(start.render);
    assert_eq!(start.effects, vec![Effect::PreventDefault, Effect::AttachDragListeners(id)]);

    let step = copland.update(CoplandMsg::DragWindowMove(id, mouse(2000, 50)), &snapshot);
    assert!(step.render);
    assert!(step.effects.is_empty());
    assert_eq!(window(&copland, id).left, WindowPosition::Close(800));
    assert_eq!(window(&copland, id).top, WindowPosition::Close(45));

    let unmounted = nothing_shown();
    let lost = copland.update(CoplandMsg::DragWindowMove(id, mouse(0, 0)), &unmounted);
    assert!(!lost.render);
    assert_eq!(window(&copland, id).left, WindowPosition::Close(800));

    let end = copland.update(CoplandMsg::DragWindowEnd(id, mouse(2000, 50)), &snapshot);
    assert!(!end.render);
    assert_eq!(end.effects, vec![Effect::DetachDragListeners, Effect::UpdateNote(3)]);
}

#[test]
fn update_opens_and_focuses_in_one_step() {
    let mut copland = desktop();
    let outcome = copland.update(CoplandMsg::OpenWindow(Window::films()), &nothing_shown());
    assert!(outcome.render);
    assert!(outcome.effects.is_empty());
    assert_eq!(copland.focused_window(), WindowId::Films);
    assert_eq!(window(&copland, WindowId::Films).z_index, 2);
}

#[test]
fn update_changes_the_display_state() {
    let mut copland = desktop();
    let snapshot = nothing_shown();
    assert!(copland.update(CoplandMsg::MaximiseWindow(WindowId::Home), &snapshot).render);
    assert_eq!(window(&copland, WindowId::Home).state, WindowState::Maximised);
    assert!(copland.update(CoplandMsg::MinimiseWindow(WindowId::Home), &snapshot).render);
    assert_eq!(window(&copland, WindowId::Home).state, WindowState::Minimised(true));
    assert!(copland.update(CoplandMsg::RestoreWindow(WindowId::Home), &snapshot).render);
    assert_eq!(window(&copland, WindowId::Home).state, WindowState::Open);
    assert!(!copland.update(CoplandMsg::MinimiseWindow(WindowId::Films), &snapshot).render);
    assert!(!copland.update(CoplandMsg::MaximiseWindow(WindowId::Films), &snapshot).render);
    assert!(!copland.update(CoplandMsg::RestoreWindow(WindowId::Films), &snapshot).render);
    assert!(!copland.update(CoplandMsg::ResizeWindow(WindowId::Films, 1), &snapshot).render);
}

#[test]
fn update_asks_the_store_for_a_new_note() {
    let mut copland = desktop();
    let outcome = copland.update(CoplandMsg::NewSticky, &nothing_shown());
    assert!(outcome.render);
    assert_eq!(outcome.effects, vec![Effect::CreateNote]);
    assert_eq!(ids(&copland), vec![WindowId::Home]);
}

#[test]
fn update_takes_a_new_theme_and_reloads_the_background() {
    let mut copland = desktop();
    let outcome = copland
        .update(CoplandMsg::ThemeContextUpdated(Theme { background: 14 }), &nothing_shown());
    assert!(outcome.render);
    assert_eq!(outcome.effects, vec![Effect::ReloadBackground]);
    assert_eq!(copland.theme(), Theme { background: 14 });
}

#[test]
fn update_sets_the_taskbar_clock() {
    let mut copland = desktop();
    let mut snapshot = nothing_shown();
    snapshot.hours = 23;
    snapshot.minutes = 7;
    let outcome = copland.update(CoplandMsg::UpdateTaskbarTime, &snapshot);
    assert!(outcome.render);
    assert!(outcome.effects.is_empty());
    assert_eq!(copland.taskbar_time(), "23:07");
}

#[test]
fn time_string_pads_hours_and_minutes() {
    assert_eq!(get_time_string(0, 0), "00:00");
    assert_eq!(get_time_string(9, 5), "09:05");
    assert_eq!(get_time_string(12, 30), "12:30");
    assert_eq!(get_time_string(23, 59), "23:59");
}

#[test]
fn taskbar_lists_the_windows_that_are_not_hidden() {
    let mut copland = desktop();
    copland.open(Window::spotify());
    copland.open(Window::about_me());
    copland.open(note(2, 0, 0));
    copland.close(WindowId::Spotify);
    copland.minimise(WindowId::AboutMe);
    let taskbar = copland.taskbar();
    let listed: Vec<WindowId> = taskbar.iter().map(|b| b.id).collect();
    assert_eq!(listed, vec![WindowId::Home, WindowId::AboutMe, WindowId::StickyNote(2)]);
    let keys: Vec<&str> = taskbar.iter().map(|b| b.key.as_str()).collect();
    assert_eq!(
        keys,
        vec!["taskbar-button-Home", "taskbar-button-AboutMe", "taskbar-button-StickyNote(2)"]
    );
    let active: Vec<bool> = taskbar.iter().map(|b| b.active).collect();
    assert_eq!(active, vec![false, false, true]);
}

#[test]
fn taskbar_highlights_only_a_focused_window_in_view() {
    let mut copland = desktop();
    copland.open(Window::about_me());
    copland.minimise(WindowId::AboutMe);
    assert_eq!(copland.focused_window(), WindowId::AboutMe);
    assert!(copland.taskbar().iter().all(|b| !b.active));
    copland.focus(WindowId::AboutMe);
    copland.maximise(WindowId::AboutMe);
    let taskbar = copland.taskbar();
    assert!(taskbar.iter().any(|b| b.id == WindowId::AboutMe && b.active));
    assert!(taskbar.iter().any(|b| b.id == WindowId::Home && !b.active));
}

#[test]
fn a_hidden_window_has_no_taskbar_entry() {
    let mut copland = desktop();
    copland.open(Window::spotify());
    copland.close(WindowId::Spotify);
    let hidden = window(&copland, WindowId::Spotify);
    assert!(copland.view_taskbar_button(&hidden).is_none());
    let home = window(&copland, WindowId::Home);
    let entry = copland.view_taskbar_button(&home).unwrap();
    assert_eq!(entry.id, WindowId::Home);
    assert_eq!(entry.key, "taskbar-button-Home");
    assert!(!entry.active);
}

#[test]
fn a_click_on_the_taskbar_toggles_between_focus_and_minimise() {
    let mut copland = desktop();
    copland.open(Window::about_me());
    let taskbar = copland.taskbar();
    let home = taskbar.iter().find(|b| b.id == WindowId::Home).unwrap();
    let about = taskbar.iter().find(|b| b.id == WindowId::AboutMe).unwrap();
    assert!(matches!(home.on_click(), CoplandMsg::FocusWindow(WindowId::Home)));
    assert!(matches!(about.on_click(), CoplandMsg::MinimiseWindow(WindowId::AboutMe)));

    copland.update(about.on_click(), &nothing_shown());
    assert_eq!(window(&copland, WindowId::AboutMe).state, WindowState::Minimised(false));
    let taskbar = copland.taskbar();
    let about = taskbar.iter().find(|b| b.id == WindowId::AboutMe).unwrap();
    assert!(matches!(about.on_click(), CoplandMsg::FocusWindow(WindowId::AboutMe)));
    copland.update(about.on_click(), &nothing_shown());
    assert_eq!(window(&copland, WindowId::AboutMe).state, WindowState::Open);
}

#[test]
fn frames_are_drawn_for_the_windows_that_are_not_hidden() {
    let mut copland = desktop();
    copland.open(Window::spotify());
    copland.open(note(2, 15, 25));
    copland.close(WindowId::Spotify);
    copland.focus(WindowId::Home);
    let frames = copland.frames();
    assert_eq!(frames.len(), 2);
    assert_eq!(frames[0].id, WindowId::Home);
    assert_eq!(frames[0].key, "window-Home");
    assert!(!frames[0].inactive);
    assert!(!frames[0].offers_close);
    assert_eq!(frames[1].id, WindowId::StickyNote(2));
    assert_eq!(frames[1].key, "window-StickyNote(2)");
    assert_eq!(frames[1].style, "width: 200px;left: 15px;top: 25px;z-index: 3;");
    assert!(frames[1].inactive);
    assert!(frames[1].sticky);
    assert!(frames[1].offers_close);
    assert!(frames[1].offers_maximise);
}

#[test]
fn identities_stay_unique_and_stacking_indices_distinct() {
    let mut copland = desktop();
    let snapshot = nothing_shown();
    let msgs = vec![
        CoplandMsg::OpenWindow(Window::about_me()),
        CoplandMsg::OpenWindow(note(1, 0, 0)),
        CoplandMsg::OpenWindow(Window::about_me()),
        CoplandMsg::FocusWindow(WindowId::Home),
        CoplandMsg::OpenWindow(Window::spotify()),
        CoplandMsg::CloseWindow(WindowId::Spotify),
        CoplandMsg::CloseWindow(WindowId::AboutMe),
        CoplandMsg::OpenWindow(Window::about_me()),
        CoplandMsg::OpenWindow(Window::spotify()),
        CoplandMsg::MinimiseWindow(WindowId::Home),
        CoplandMsg::FocusWindow(WindowId::StickyNote(1)),
    ];
    for msg in msgs {
        copland.update(msg, &snapshot);
        let windows = copland.values();
        for (i, a) in windows.iter().enumerate() {
            assert!(a.z_index <= copland.max_z_index());
            for b in windows.iter().skip(i + 1) {
                assert_ne!(a.id, b.id);
                assert_ne!(a.z_index, b.z_index);
            }
        }
    }
    assert_eq!(
        ids(&copland),
        vec![WindowId::Home, WindowId::StickyNote(1), WindowId::Spotify, WindowId::AboutMe]
    );
}
