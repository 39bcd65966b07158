//! The state of a running simulation that its input drives: the flock, the
//! boid the camera follows, and whether direction lines are shown; and the
//! decision, for each input event, of how that state changes and what the
//! caller must do next.

use vstd::prelude::*;

verus! {

/// The keys the simulation reacts to.
#[derive(Debug, Clone, Copy, PartialEq, Eq, Structural)]
pub enum Key {
    /// Leaves the simulation.
    Escape,
    /// Resets the simulation: clears all boids and starts afresh, with no
    /// followed boid, no zoom and a new initial flock.
    R,
    /// Adds a boid.
    Up,
    /// Removes the most recently added boid.
    Down,
    /// Toggles the display of direction lines.
    D,
}

/// An input event, as the simulation sees it.
pub enum InputEvent {
    /// The window was closed.
    Quit,
    /// A key was pressed; `None` for a key without a code or one the
    /// simulation ignores.
    KeyDown(Option<Key>),
    /// The mouse wheel turned by this many steps (positive: away from the
    /// user).
    MouseWheel(i32),
    /// A mouse button was pressed; entry `i` tells whether the click fell
    /// within selection distance of boid `i`.
    MouseButtonDown(Vec<bool>),
    /// Any other event.
    Other,
}

/// How the zoom level changes.
#[derive(Debug, Clone, Copy, PartialEq, Eq, Structural)]
pub enum ZoomStep {
    /// Zoom in by one step.
    In,
    /// Zoom out by one step.
    Out,
    /// Keep the zoom level (still brought back into its allowed range).
    Hold,
}

/// What the caller has to do after an event was handled.
#[derive(Debug, Clone, Copy, PartialEq, Eq, Structural)]
pub enum Command {
    /// Leave the simulation loop.
    Stop,
    /// Start afresh after the flock was cleared: set the zoom level back to
    /// its initial value and add `spawn::INITIAL_BOID_COUNT` boids at the
    /// points `spawn::spawn_points` gives, with `push_boid`.
    Restart,
    /// Create a boid at a random position and add it with `push_boid`.
    SpawnBoid,
    /// Change the zoom level.
    Zoom(ZoomStep),
    /// Nothing more to do.
    Continue,
}

/// Where the camera goes in a frame.
#[derive(Debug, Clone, Copy, PartialEq, Eq, Structural)]
pub enum CameraTarget {
    /// Center the camera on the boid with this index.
    Follow(usize),
    /// Leave the camera where it is.
    Stay,
    /// Center the camera on the middle of the window.
    Center,
}

/// The simulation state that input drives. The boids are kept in the order
/// in which they were added.
pub struct SimState<B> {
    /// The boids of the simulation.
    pub boids: Vec<B>,
    /// The index of the boid the camera follows, if any. It may name no boid
    /// any more once boids have been removed.
    pub focused_boid: Option<usize>,
    /// Whether each boid's direction line is drawn.
    pub show_directions: bool,
}

/// The mathematical value of a `SimState`.
pub struct SimView<B> {
    pub boids: Seq<B>,
    pub focused_boid: Option<usize>,
    pub show_directions: bool,
}

impl<B> View for SimState<B> {
    type V = SimView<B>;

    open spec fn view(&self) -> SimView<B> {
        SimView {
            boids: self.boids@,
            focused_boid: self.focused_boid,
            show_directions: self.show_directions,
        }
    }
}

/// The index of the first `true` among the first `k` entries of `hits`.
pub open spec fn first_hit(hits: Seq<bool>, k: nat) -> Option<usize>
    decreases k,
{
    if k == 0 {
        None
    } else {
        match first_hit(hits, (k - 1) as nat) {
            Some(i) => Some(i),
            None => if hits[k - 1] {
                Some((k - 1) as usize)
            } else {
                None
            },
        }
    }
}

/// The boid a click selects: the first one, in the order of the flock, that
/// the click hit.
pub open spec fn selected_boid(hits: Seq<bool>, boid_count: nat) -> Option<usize> {
    first_hit(hits, if hits.len() < boid_count { hits.len() } else { boid_count })
}

/// The zoom step that a turn of the mouse wheel by `y` asks for.
pub open spec fn zoom_step(y: i32) -> ZoomStep {
    if y > 0 {
        ZoomStep::In
    } else if y < 0 {
        ZoomStep::Out
    } else {
        ZoomStep::Hold
    }
}

/// What the caller has to do after `e`.
pub open spec fn command_for(e: InputEvent) -> Command {
    match e {
        InputEvent::Quit => Command::Stop,
        InputEvent::KeyDown(Some(Key::Escape)) => Command::Stop,
        InputEvent::KeyDown(Some(Key::R)) => Command::Restart,
        InputEvent::KeyDown(Some(Key::Up)) => Command::SpawnBoid,
        InputEvent::MouseWheel(y) => Command::Zoom(zoom_step(y)),
        _ => Command::Continue,
    }
}

/// The state after `e`.
pub open spec fn next_state<B>(s: SimView<B>, e: InputEvent) -> SimView<B> {
    match e {
        InputEvent::KeyDown(Some(Key::R)) => SimView {
            boids: Seq::empty(),
            focused_boid: None,
            ..s
        },
        InputEvent::KeyDown(Some(Key::Down)) => SimView {
            boids: if s.boids.len() > 0 {
                s.boids.drop_last()
            } else {
                s.boids
            },
            ..s
        },
        InputEvent::KeyDown(Some(Key::D)) => SimView { show_directions: !s.show_directions, ..s },
        InputEvent::MouseButtonDown(hits) => SimView {
            focused_boid: selected_boid(hits@, s.boids.len()),
            ..s
        },
        _ => s,
    }
}

/// Where the camera goes in state `s`: to the followed boid while it exists;
/// nowhere while the followed index names no boid; to the middle otherwise.
pub open spec fn camera_target_of<B>(s: SimView<B>) -> CameraTarget {
    match s.focused_boid {
        Some(i) => if i < s.boids.len() {
            CameraTarget::Follow(i)
        } else {
            CameraTarget::Stay
        },
        None => CameraTarget::Center,
    }
}

/// The first `true` entry of `hits` is where `first_hit` finds it.
pub proof fn lemma_first_hit(hits: Seq<bool>, k: nat)
    requires
        k <= hits.len(),
        k <= usize::MAX + 1,
    ensures
        first_hit(hits, k) matches Some(i) ==> i < k && hits[i as int] && forall|j: int|
            0 <= j < i ==> !hits[j],
        first_hit(hits, k) is None ==> forall|j: int| 0 <= j < k ==> !hits[j],
    decreases k,
{
    if k > 0 {
        lemma_first_hit(hits, (k - 1) as nat);
    }
}

/// The first hit among the first `k` entries stays the first hit among more.
proof fn lemma_first_hit_extends(hits: Seq<bool>, k: nat, m: nat)
    requires
        k <= m,
        first_hit(hits, k) is Some,
    ensures
        first_hit(hits, m) == first_hit(hits, k),
    decreases m,
{
    if m > k {
        lemma_first_hit_extends(hits, k, (m - 1) as nat);
    }
}

impl<B> SimState<B> {
    /// A state with the given boids, no followed boid and no direction lines.
    pub fn new(boids: Vec<B>) -> (s: Self)
        ensures
            s@.boids == boids@,
            s@.focused_boid is None,
            !s@.show_directions,
    {
        SimState { boids, focused_boid: None, show_directions: false }
    }

    /// Adds `boid` after all others.
    pub fn push_boid(&mut self, boid: B)
        ensures
            final(self)@.boids == old(self)@.boids.push(boid),
            final(self)@.focused_boid == old(self)@.focused_boid,
            final(self)@.show_directions == old(self)@.show_directions,
    {
        self.boids.push(boid);
    }

    /// Handles one input event: updates the state and says what the caller
    /// has to do next.
    pub fn handle_event(&mut self, event: InputEvent) -> (c: Command)
        ensures
            final(self)@ == next_state(old(self)@, event),
            c == command_for(event),
    {
        match event {
            InputEvent::Quit => Command::Stop,
            InputEvent::KeyDown(Some(Key::Escape)) => Command::Stop,
            InputEvent::KeyDown(Some(Key::R)) => {
                self.boids = Vec::new();
                self.focused_boid = None;
                Command::Restart
            },
            InputEvent::KeyDown(Some(Key::Up)) => Command::SpawnBoid,
            InputEvent::KeyDown(Some(Key::Down)) => {
                self.boids.pop();
                Command::Continue
            },
            InputEvent::KeyDown(Some(Key::D)) => {
                self.show_directions = !self.show_directions;
                Command::Continue
            },
            InputEvent::KeyDown(None) => Command::Continue,
            InputEvent::MouseWheel(y) => {
                if y > 0 {
                    Command::Zoom(ZoomStep::In)
                } else if y < 0 {
                    Command::Zoom(ZoomStep::Out)
                } else {
                    Command::Zoom(ZoomStep::Hold)
                }
            },
            InputEvent::MouseButtonDown(hits) => {
                self.focused_boid = select_boid(&hits, self.boids.len());
                Command::Continue
            },
            InputEvent::Other => Command::Continue,
        }
    }

    /// Where the camera goes in this frame.
    pub fn camera_target(&self) -> (t: CameraTarget)
        ensures
            t == camera_target_of(self@),
    {
        match self.focused_boid {
            Some(i) => if i < self.boids.len() {
                CameraTarget::Follow(i)
            } else {
                CameraTarget::Stay
            },
            None => CameraTarget::Center,
        }
    }

    /// Whether the boid with index `idx` is the one the camera follows.
    pub fn is_selected(&self, idx: usize) -> (b: bool)
        ensures
            b == (self@.focused_boid == Some(idx)),
    {
        match self.focused_boid {
            Some(i) => i == idx,
            None => false,
        }
    }
}

/// The first boid, among the first `boid_count`, that a click hit.
pub fn select_boid(hits: &Vec<bool>, boid_count: usize) -> (r: Option<usize>)
    ensures
        r == selected_boid(hits@, boid_count as nat),
{
    let n: usize = if hits.len() < boid_count {
        hits.len()
    } else {
        boid_count
    };
    let mut i: usize = 0;
    while i < n
        invariant
            i <= n,
            n <= hits.len(),
            n == (if hits@.len() < boid_count { hits@.len() } else { boid_count as nat }),
            first_hit(hits@, i as nat) is None,
        decreases n - i,
    {
        if hits[i] {
            proof {
                assert(first_hit(hits@, (i + 1) as nat) == Some(i));
                lemma_first_hit_extends(hits@, (i + 1) as nat, n as nat);
            }
            return Some(i);
        }
        i += 1;
    }
    None
}

/// Pressing D twice restores the state: direction lines are shown again
/// exactly when they were shown before.
pub proof fn lemma_toggle_directions_twice<B>(s: SimView<B>)
    ensures
        next_state(
            next_state(s, InputEvent::KeyDown(Some(Key::D))),
            InputEvent::KeyDown(Some(Key::D)),
        ) == s,
{
}

/// Down removes the boid that was added last: adding a boid and then pressing
/// Down restores the state.
pub proof fn lemma_remove_undoes_spawn<B>(s: SimView<B>, boid: B)
    ensures
        next_state(SimView { boids: s.boids.push(boid), ..s }, InputEvent::KeyDown(Some(Key::Down)))
            == s,
{
    assert(s.boids.push(boid).drop_last() =~= s.boids);
}

/// Down on an empty flock changes nothing.
pub proof fn lemma_remove_on_empty_flock<B>(s: SimView<B>)
    requires
        s.boids.len() == 0,
    ensures
        next_state(s, InputEvent::KeyDown(Some(Key::Down))) == s,
{
}

/// Only Down and R change the flock; every other event leaves the boids as
/// they were.
pub proof fn lemma_only_down_and_reset_change_flock<B>(s: SimView<B>, e: InputEvent)
    requires
        !(e matches InputEvent::KeyDown(Some(Key::Down))),
        !(e matches InputEvent::KeyDown(Some(Key::R))),
    ensures
        next_state(s, e).boids == s.boids,
{
}

/// R resets the simulation: no boid of the old flock remains, none is
/// followed, the camera goes back to the middle, and the caller is told to
/// start afresh.
pub proof fn lemma_reset_clears_flock<B>(s: SimView<B>)
    ensures
        ({
            let t = next_state(s, InputEvent::KeyDown(Some(Key::R)));
            &&& t.boids == Seq::<B>::empty()
            &&& t.focused_boid is None
            &&& t.show_directions == s.show_directions
            &&& camera_target_of(t) == CameraTarget::Center
            &&& command_for(InputEvent::KeyDown(Some(Key::R))) == Command::Restart
        }),
{
}

/// Only R and clicks change the followed boid, and R clears it.
pub proof fn lemma_focus_changes<B>(s: SimView<B>, e: InputEvent)
    ensures
        !(e matches InputEvent::KeyDown(Some(Key::R))) && !(e is MouseButtonDown) ==> next_state(
            s,
            e,
        ).focused_boid == s.focused_boid,
        e matches InputEvent::KeyDown(Some(Key::R)) ==> next_state(s, e).focused_boid is None
            && camera_target_of(next_state(s, e)) == CameraTarget::Center,
{
}

/// The simulation stops on Quit and Escape and on nothing else, and stopping
/// leaves the state unchanged.
pub proof fn lemma_stop_events<B>(s: SimView<B>, e: InputEvent)
    ensures
        command_for(e) == Command::Stop <==> (e is Quit || e matches InputEvent::KeyDown(
            Some(Key::Escape),
        )),
        command_for(e) == Command::Stop ==> next_state(s, e) == s,
{
}

/// A click makes the camera follow the first boid it hit, in the order of the
/// flock, and follow none if it hit none.
pub proof fn lemma_click_selects_first_hit<B>(s: SimView<B>, hits: Vec<bool>)
    ensures
        ({
            let t = next_state(s, InputEvent::MouseButtonDown(hits));
            &&& t.boids == s.boids
            &&& t.show_directions == s.show_directions
            &&& t.focused_boid matches Some(i) ==> {
                &&& i < s.boids.len()
                &&& i < hits@.len()
                &&& hits@[i as int]
                &&& forall|j: int| 0 <= j < i ==> !hits@[j]
                &&& camera_target_of(t) == CameraTarget::Follow(i)
            }
            &&& t.focused_boid is None ==> forall|j: int|
                0 <= j < s.boids.len() && j < hits@.len() ==> !hits@[j]
        }),
{
    let k: nat = if hits@.len() < s.boids.len() {
        hits@.len()
    } else {
        s.boids.len()
    };
    assert(hits@.len() == hits.len());
    lemma_first_hit(hits@, k);
}

/// A turn of the mouse wheel away from the user zooms in, one towards the
/// user zooms out, and no turn keeps the zoom; a wheel turn changes nothing
/// else.
pub proof fn lemma_wheel_zooms<B>(s: SimView<B>, y: i32)
    ensures
        y > 0 ==> command_for(InputEvent::MouseWheel(y)) == Command::Zoom(ZoomStep::In),
        y < 0 ==> command_for(InputEvent::MouseWheel(y)) == Command::Zoom(ZoomStep::Out),
        y == 0 ==> command_for(InputEvent::MouseWheel(y)) == Command::Zoom(ZoomStep::Hold),
        next_state(s, InputEvent::MouseWheel(y)) == s,
{
}

/// Which command each event gives: only Up asks for a new boid, only R for a
/// restart, only a wheel turn for a zoom change, only Quit and Escape for a
/// stop; every other event (Down, D, clicks, ignored keys and events) asks
/// for nothing more.
pub proof fn lemma_commands_of_events(e: InputEvent)
    ensures
        command_for(e) == Command::SpawnBoid <==> e matches InputEvent::KeyDown(Some(Key::Up)),
        command_for(e) == Command::Restart <==> e matches InputEvent::KeyDown(Some(Key::R)),
        command_for(e) is Zoom <==> e is MouseWheel,
        !(e is Quit) && !(e matches InputEvent::KeyDown(Some(Key::Escape))) && !(e matches InputEvent::KeyDown(
            Some(Key::R),
        )) && !(e matches InputEvent::KeyDown(Some(Key::Up))) && !(e is MouseWheel) ==> command_for(
            e,
        ) == Command::Continue,
{
}

/// The camera centres on the window whenever no boid is followed, whatever
/// the flock; it follows the followed boid while that boid exists, and stays
/// where it is while the followed index names no boid.
pub proof fn lemma_camera_targets<B>(s: SimView<B>)
    ensures
        s.focused_boid is None ==> camera_target_of(s) == CameraTarget::Center,
        forall|i: usize|
            s.focused_boid == Some(i) && i < s.boids.len() ==> camera_target_of(s)
                == CameraTarget::Follow(i),
        forall|i: usize|
            s.focused_boid == Some(i) && i >= s.boids.len() ==> camera_target_of(s)
                == CameraTarget::Stay,
{
}

} // verus!
