use vstd::prelude::*;

verus! {

/// The physical keys the controller claims. `Other` stands for every other
/// key; the windowing host maps its own key codes onto this enum.
#[derive(Clone, Copy, Debug, PartialEq, Eq, Structural)]
pub enum Key {
    Equal,
    Minus,
    KeyA,
    KeyD,
    KeyW,
    KeyS,
    ArrowUp,
    ArrowDown,
    ArrowLeft,
    ArrowRight,
    Other,
}

/// The persistent pressed-state the controller keeps: one independent flag
/// per movement. The pan flags are tracked for input compatibility but have
/// no effect on the camera yet.
#[derive(Clone, Copy, Debug, PartialEq, Eq, Structural)]
pub struct Pressed {
    pub zoom_in: bool,
    pub zoom_out: bool,
    pub orbit_right: bool,
    pub orbit_left: bool,
    pub orbit_down: bool,
    pub orbit_up: bool,
    pub pan_left: bool,
    pub pan_right: bool,
    pub pan_down: bool,
    pub pan_up: bool,
}

impl Pressed {
    /// The state with no flag set.
    pub open spec fn none() -> Pressed {
        Pressed {
            zoom_in: false,
            zoom_out: false,
            orbit_right: false,
            orbit_left: false,
            orbit_down: false,
            orbit_up: false,
            pan_left: false,
            pan_right: false,
            pan_down: false,
            pan_up: false,
        }
    }

    pub fn new() -> (p: Pressed)
        ensures
            p == Pressed::none(),
    {
        Pressed {
            zoom_in: false,
            zoom_out: false,
            orbit_right: false,
            orbit_left: false,
            orbit_down: false,
            orbit_up: false,
            pan_left: false,
            pan_right: false,
            pan_down: false,
            pan_up: false,
        }
    }
}

/// The flag state after one key transition: exactly the flag bound to the
/// key takes the new pressed value, every other flag keeps its value, and an
/// unrecognized key changes nothing.
pub open spec fn apply_key(p: Pressed, key: Key, is_pressed: bool) -> Pressed {
    match key {
        Key::Equal => Pressed { zoom_in: is_pressed, ..p },
        Key::Minus => Pressed { zoom_out: is_pressed, ..p },
        Key::KeyA => Pressed { orbit_left: is_pressed, ..p },
        Key::KeyD => Pressed { orbit_right: is_pressed, ..p },
        Key::KeyW => Pressed { orbit_up: is_pressed, ..p },
        Key::KeyS => Pressed { orbit_down: is_pressed, ..p },
        Key::ArrowUp => Pressed { pan_up: is_pressed, ..p },
        Key::ArrowDown => Pressed { pan_down: is_pressed, ..p },
        Key::ArrowLeft => Pressed { pan_left: is_pressed, ..p },
        Key::ArrowRight => Pressed { pan_right: is_pressed, ..p },
        Key::Other => p,
    }
}

/// One camera movement of a frame. The host applies zoom steps along the
/// current forward direction and rebuilds the eye on the orbit sphere for
/// orbit steps; the library decides which steps fire and in what order.
#[derive(Clone, Copy, Debug, PartialEq, Eq, Structural)]
pub enum CameraAction {
    ZoomIn,
    ZoomOut,
    OrbitDown,
    OrbitUp,
    OrbitLeft,
    OrbitRight,
}

/// The ordered movements one frame applies for a flag state: the zoom steps
/// first (zoom-in only under the distance guard, which the host computes as
/// "the eye-to-target distance still exceeds the speed"), then the four
/// orbit steps in the fixed order down, up, left, right. Later steps see
/// earlier steps' effect, so combined input composes rather than adds.
pub open spec fn plan_spec(p: Pressed, zoom_guard: bool) -> Seq<CameraAction> {
    (if p.zoom_in && zoom_guard {
        seq![CameraAction::ZoomIn]
    } else {
        Seq::empty()
    }) + (if p.zoom_out {
        seq![CameraAction::ZoomOut]
    } else {
        Seq::empty()
    }) + (if p.orbit_down {
        seq![CameraAction::OrbitDown]
    } else {
        Seq::empty()
    }) + (if p.orbit_up {
        seq![CameraAction::OrbitUp]
    } else {
        Seq::empty()
    }) + (if p.orbit_left {
        seq![CameraAction::OrbitLeft]
    } else {
        Seq::empty()
    }) + (if p.orbit_right {
        seq![CameraAction::OrbitRight]
    } else {
        Seq::empty()
    })
}

/// Maps key transitions to the pressed-state and turns that state, once per
/// frame, into the ordered list of camera movements.
pub struct CameraController {
    /// The raw 32-bit encoding of the movement speed scalar. The library
    /// carries it untouched for the host, which decodes it to step the eye.
    pub speed: u32,
    pub pressed: Pressed,
}

impl CameraController {
    pub fn new(speed: u32) -> (c: CameraController)
        ensures
            c.speed == speed,
            c.pressed == Pressed::none(),
    {
        CameraController { speed, pressed: Pressed::new() }
    }

    /// Feeds one key transition in. Exactly the flag bound to the key takes
    /// the new state; the return value says whether the key was claimed, so
    /// the host can route unclaimed input elsewhere.
    #[verifier::rlimit(50)]
    pub fn process_events(&mut self, key: Key, is_pressed: bool) -> (handled: bool)
        ensures
            final(self).pressed == apply_key(old(self).pressed, key, is_pressed),
            final(self).speed == old(self).speed,
            handled == !(key is Other),
    {
        match key {
            Key::Equal => {
                self.pressed.zoom_in = is_pressed;
                true
            },
            Key::Minus => {
                self.pressed.zoom_out = is_pressed;
                true
            },
            Key::KeyA => {
                self.pressed.orbit_left = is_pressed;
                true
            },
            Key::KeyD => {
                self.pressed.orbit_right = is_pressed;
                true
            },
            Key::KeyW => {
                self.pressed.orbit_up = is_pressed;
                true
            },
            Key::KeyS => {
                self.pressed.orbit_down = is_pressed;
                true
            },
            Key::ArrowUp => {
                self.pressed.pan_up = is_pressed;
                true
            },
            Key::ArrowDown => {
                self.pressed.pan_down = is_pressed;
                true
            },
            Key::ArrowLeft => {
                self.pressed.pan_left = is_pressed;
                true
            },
            Key::ArrowRight => {
                self.pressed.pan_right = is_pressed;
                true
            },
            Key::Other => false,
        }
    }

    /// The movements of one frame for the current flag snapshot, in the
    /// order the host must apply them. `zoom_guard` is the host-computed
    /// guard against crossing the target: zoom-in fires only while the
    /// eye-to-target distance still exceeds the speed.
    pub fn frame_actions(&self, zoom_guard: bool) -> (r: Vec<CameraAction>)
        ensures
            r@ == plan_spec(self.pressed, zoom_guard),
    {
        let mut r: Vec<CameraAction> = Vec::new();
        if self.pressed.zoom_in && zoom_guard {
            r.push(CameraAction::ZoomIn);
        }
        if self.pressed.zoom_out {
            r.push(CameraAction::ZoomOut);
        }
        if self.pressed.orbit_down {
            r.push(CameraAction::OrbitDown);
        }
        if self.pressed.orbit_up {
            r.push(CameraAction::OrbitUp);
        }
        if self.pressed.orbit_left {
            r.push(CameraAction::OrbitLeft);
        }
        if self.pressed.orbit_right {
            r.push(CameraAction::OrbitRight);
        }
        assert(r@ =~= plan_spec(self.pressed, zoom_guard));
        r
    }
}

/// LAW: a frame plans a zoom-in step exactly when the zoom-in flag is set
/// and the distance guard holds, so an honored guard can never be crossed.
pub proof fn lemma_zoom_in_guarded(p: Pressed, zoom_guard: bool)
    ensures
        plan_spec(p, zoom_guard).contains(CameraAction::ZoomIn) <==> (p.zoom_in && zoom_guard),
{
    if p.zoom_in && zoom_guard {
        assert(plan_spec(p, zoom_guard)[0] == CameraAction::ZoomIn);
    } else {
        assert forall|i: int|
            0 <= i < plan_spec(p, zoom_guard).len() implies plan_spec(p, zoom_guard)[i]
            != CameraAction::ZoomIn by {};
    }
}

/// LAW: while no zoom flag is set, a frame plans orbit steps only, the
/// moves that rebuild the eye on the sphere around the target; no planned
/// step changes the eye-to-target distance.
pub proof fn lemma_orbit_only_frames(p: Pressed, zoom_guard: bool)
    requires
        !p.zoom_in,
        !p.zoom_out,
    ensures
        forall|i: int|
            0 <= i < plan_spec(p, zoom_guard).len() ==> (#[trigger] plan_spec(p, zoom_guard)[i])
                != CameraAction::ZoomIn && plan_spec(p, zoom_guard)[i] != CameraAction::ZoomOut,
{
}

} // verus!
