use bird_sim::simulation::{
    select_boid, CameraTarget, Command, InputEvent, Key, SimState, ZoomStep,
};

fn state(n: u32) -> SimState<u32> {
    SimState::new((0..n).collect())
}

#[test]
fn new_state_has_no_focus_and_no_directions() {
    let s = state(3);
    assert_eq!(s.boids, vec![0, 1, 2]);
    assert_eq!(s.focused_boid, None);
    assert!(!s.show_directions);
    assert_eq!(s.camera_target(), CameraTarget::Center);
}

#[test]
fn quit_and_escape_stop() {
    let mut s = state(2);
    assert_eq!(s.handle_event(InputEvent::Quit), Command::Stop);
    assert_eq!(s.handle_event(InputEvent::KeyDown(Some(Key::Escape))), Command::Stop);
    assert_eq!(s.boids, vec![0, 1]);
}

#[test]
fn up_asks_for_a_new_boid() {
    let mut s = state(2);
    assert_eq!(s.handle_event(InputEvent::KeyDown(Some(Key::Up))), Command::SpawnBoid);
    assert_eq!(s.boids.len(), 2);
    s.push_boid(9);
    assert_eq!(s.boids, vec![0, 1, 9]);
}

#[test]
fn down_removes_last_boid() {
    let mut s = state(3);
    assert_eq!(s.handle_event(InputEvent::KeyDown(Some(Key::Down))), Command::Continue);
    assert_eq!(s.boids, vec![0, 1]);
}

#[test]
fn law_down_on_empty_flock_changes_nothing() {
    let mut s = state(0);
    assert_eq!(s.handle_event(InputEvent::KeyDown(Some(Key::Down))), Command::Continue);
    assert!(s.boids.is_empty());
}

#[test]
fn law_down_undoes_spawn() {
    let mut s = state(4);
    s.push_boid(77);
    s.handle_event(InputEvent::KeyDown(Some(Key::Down)));
    assert_eq!(s.boids, vec![0, 1, 2, 3]);
}

#[test]
fn law_d_twice_restores_directions() {
    let mut s = state(1);
    s.handle_event(InputEvent::KeyDown(Some(Key::D)));
    assert!(s.show_directions);
    s.handle_event(InputEvent::KeyDown(Some(Key::D)));
    assert!(!s.show_directions);
}

#[test]
fn wheel_zoom_steps() {
    let mut s = state(1);
    assert_eq!(s.handle_event(InputEvent::MouseWheel(2)), Command::Zoom(ZoomStep::In));
    assert_eq!(s.handle_event(InputEvent::MouseWheel(-1)), Command::Zoom(ZoomStep::Out));
    assert_eq!(s.handle_event(InputEvent::MouseWheel(0)), Command::Zoom(ZoomStep::Hold));
}

#[test]
fn law_click_selects_first_hit() {
    let mut s = state(4);
    let c = s.handle_event(InputEvent::MouseButtonDown(vec![false, true, true, false]));
    assert_eq!(c, Command::Continue);
    assert_eq!(s.focused_boid, Some(1));
    assert!(s.is_selected(1));
    assert!(!s.is_selected(2));
    assert_eq!(s.camera_target(), CameraTarget::Follow(1));
}

#[test]
fn click_on_nothing_clears_focus() {
    let mut s = state(3);
    s.handle_event(InputEvent::MouseButtonDown(vec![false, false, true]));
    assert_eq!(s.focused_boid, Some(2));
    s.handle_event(InputEvent::MouseButtonDown(vec![false, false, false]));
    assert_eq!(s.focused_boid, None);
    assert_eq!(s.camera_target(), CameraTarget::Center);
}

#[test]
fn law_r_clears_flock_and_focus() {
    let mut s = state(3);
    s.handle_event(InputEvent::MouseButtonDown(vec![true, false, false]));
    assert_eq!(s.handle_event(InputEvent::KeyDown(Some(Key::R))), Command::Restart);
    assert_eq!(s.focused_boid, None);
    assert!(s.boids.is_empty());
    assert_eq!(s.camera_target(), CameraTarget::Center);
    s.push_boid(10);
    s.push_boid(11);
    assert_eq!(s.boids, vec![10, 11]);
}

#[test]
fn camera_stays_when_followed_boid_is_gone() {
    let mut s = state(3);
    s.handle_event(InputEvent::MouseButtonDown(vec![false, false, true]));
    s.handle_event(InputEvent::KeyDown(Some(Key::Down)));
    assert_eq!(s.focused_boid, Some(2));
    assert!(s.is_selected(2));
    assert_eq!(s.camera_target(), CameraTarget::Stay);
}

#[test]
fn ignored_events_change_nothing() {
    let mut s = state(2);
    s.handle_event(InputEvent::KeyDown(Some(Key::D)));
    assert_eq!(s.handle_event(InputEvent::KeyDown(None)), Command::Continue);
    assert_eq!(s.handle_event(InputEvent::Other), Command::Continue);
    assert_eq!(s.boids, vec![0, 1]);
    assert!(s.show_directions);
    assert_eq!(s.focused_boid, None);
}

#[test]
fn select_boid_edges() {
    assert_eq!(select_boid(&vec![], 5), None);
    assert_eq!(select_boid(&vec![false, false, true], 2), None);
    assert_eq!(select_boid(&vec![true], 3), Some(0));
    assert_eq!(select_boid(&vec![false, true, true], 0), None);
}
