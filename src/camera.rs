use vstd::prelude::*;

verus! {

/// Angles are held in millidegrees: one unit is a thousandth of a degree.
pub const MILLIDEGREES_PER_DEGREE: i32 = 1000;

/// Pitch stays within this many millidegrees of the horizon (80 degrees).
pub const PITCH_LIMIT: i32 = 80_000;

/// Yaw is taken modulo this many millidegrees (720 degrees).
pub const YAW_PERIOD: i32 = 720_000;

pub open spec fn clamp_int(v: int, lo: int, hi: int) -> int {
    if v < lo {
        lo
    } else if v > hi {
        hi
    } else {
        v
    }
}

/// The pitch after a vertical turn of `delta` millidegrees.
pub open spec fn turned_pitch(pitch: int, delta: int) -> int {
    clamp_int(pitch + delta, -PITCH_LIMIT as int, PITCH_LIMIT as int)
}

/// The yaw after a horizontal turn of `delta` millidegrees.
pub open spec fn turned_yaw(yaw: int, delta: int) -> int {
    (yaw + delta) % (YAW_PERIOD as int)
}

/// The angular and projective state of the free-fly camera.
///
/// The eye and target positions are floating-point vectors kept by the
/// renderer; this type holds what the controller decides on: the rotation
/// (yaw and pitch, in millidegrees) and the aspect ratio as an exact fraction
/// `aspect_width / aspect_height`.
#[derive(Clone, Copy, Debug, PartialEq, Eq, Structural)]
pub struct Camera {
    pub yaw: i32,
    pub pitch: i32,
    pub aspect_width: u32,
    pub aspect_height: u32,
    pub fovy: u32,
}

impl Camera {
    /// The pitch never leaves [-PITCH_LIMIT, PITCH_LIMIT].
    pub open spec fn wf(&self) -> bool {
        -PITCH_LIMIT <= self.pitch <= PITCH_LIMIT
    }

    /// The aspect ratio is exactly `w / h`, as a rational number.
    pub open spec fn aspect_is(&self, w: int, h: int) -> bool {
        self.aspect_width as int * h == w * self.aspect_height as int
    }

    /// A level camera turned `yaw` millidegrees, with aspect `width / height`
    /// and a vertical field of view of `fovy` degrees.
    pub fn new(yaw: i32, width: u32, height: u32, fovy: u32) -> (r: Camera)
        ensures
            r.wf(),
            r.yaw == yaw,
            r.pitch == 0,
            r.aspect_width == width,
            r.aspect_height == height,
            r.fovy == fovy,
    {
        Camera { yaw, pitch: 0, aspect_width: width, aspect_height: height, fovy }
    }

    /// Records a new surface size; only the aspect ratio changes.
    pub fn resize(&mut self, width: u32, height: u32)
        ensures
            final(self).aspect_width == width,
            final(self).aspect_height == height,
            final(self).aspect_is(width as int, height as int),
            final(self).yaw == old(self).yaw,
            final(self).pitch == old(self).pitch,
            final(self).fovy == old(self).fovy,
    {
        self.aspect_width = width;
        self.aspect_height = height;
    }

    /// Turns the camera by `yaw_delta` and `pitch_delta` millidegrees:
    /// the pitch is clamped to the limits and the yaw is wrapped into
    /// [0, YAW_PERIOD).
    pub fn rotate(&mut self, yaw_delta: i64, pitch_delta: i64)
        requires
            old(self).wf(),
            -0x4000_0000_0000_0000 <= yaw_delta <= 0x4000_0000_0000_0000,
            -0x4000_0000_0000_0000 <= pitch_delta <= 0x4000_0000_0000_0000,
        ensures
            final(self).wf(),
            final(self).yaw as int == turned_yaw(old(self).yaw as int, yaw_delta as int),
            final(self).pitch as int == turned_pitch(old(self).pitch as int, pitch_delta as int),
            0 <= final(self).yaw < YAW_PERIOD,
            -PITCH_LIMIT <= final(self).pitch <= PITCH_LIMIT,
            final(self).aspect_width == old(self).aspect_width,
            final(self).aspect_height == old(self).aspect_height,
            final(self).fovy == old(self).fovy,
    {
        let pitch: i64 = self.pitch as i64 + pitch_delta;
        let lo: i64 = -(PITCH_LIMIT as i64);
        let hi: i64 = PITCH_LIMIT as i64;
        let clamped: i64 = if pitch < lo {
            lo
        } else if pitch > hi {
            hi
        } else {
            pitch
        };
        self.pitch = clamped as i32;
        let yaw: i64 = self.yaw as i64 + yaw_delta;
        let period: i64 = YAW_PERIOD as i64;
        match yaw.checked_rem_euclid(period) {
            Some(w) => {
                self.yaw = w as i32;
            },
            None => {},
        }
    }
}

/// A key as the controller distinguishes keys.
#[derive(Clone, Copy, Debug, PartialEq, Eq, Structural)]
pub enum Key {
    W,
    Up,
    A,
    Left,
    S,
    Down,
    D,
    Right,
    F10,
    F11,
    Other,
}

/// What the controller made of a key event.
#[derive(Clone, Copy, Debug, PartialEq, Eq, Structural)]
pub enum KeyResponse {
    /// Not a key the controller uses: the event is left to others.
    Ignored,
    /// A movement key; its flag now follows the key's state.
    Movement,
    /// The window should grab the cursor.
    GrabCursor,
    /// The window should go borderless fullscreen.
    Fullscreen,
}

impl KeyResponse {
    /// Whether the controller claimed the event.
    pub fn claimed(&self) -> (r: bool)
        ensures
            r == !(*self is Ignored),
    {
        match self {
            KeyResponse::Ignored => false,
            _ => true,
        }
    }
}

/// How the eye and target move after one update: both are displaced by
/// `steps * speed * normalize(eye - target)`. When the mouse moved, the
/// target is first recomputed from the camera's new rotation.
#[derive(Clone, Copy, Debug, PartialEq, Eq, Structural)]
pub struct CameraMotion {
    pub target_changed: bool,
    pub steps: i32,
}

/// Turns keyboard and mouse input into camera changes.
///
/// Key presses set or clear four movement flags; a mouse motion stores its
/// delta and marks it as pending until the next update consumes it.
#[derive(Clone, Copy, Debug, PartialEq, Eq, Structural)]
pub struct CameraController {
    pub mouse_speed: i32,
    pub is_forward_pressed: bool,
    pub is_backwards_pressed: bool,
    pub is_left_pressed: bool,
    pub is_right_pressed: bool,
    pub mouse_dx: i32,
    pub mouse_dy: i32,
    pub mouse_event: bool,
}

/// A pending mouse delta after one more motion of `delta`: added to what is
/// pending, saturating at the bounds of `i32`; taken as is when nothing is
/// pending.
pub open spec fn accumulated(pending: bool, current: i32, delta: i32) -> i32 {
    if pending {
        clamp_int(current + delta, i32::MIN as int, i32::MAX as int) as i32
    } else {
        delta
    }
}

/// The number of speed steps that the movement flags ask for.
pub open spec fn steps_of(forward: bool, backwards: bool) -> int {
    (if backwards { 1int } else { 0int }) - (if forward { 1int } else { 0int })
}

impl CameraController {
    /// A controller with no key held and no pending mouse motion. The mouse
    /// turns the camera by `mouse_speed` millidegrees per unit of motion.
    pub fn new(mouse_speed: i32) -> (r: CameraController)
        ensures
            r.mouse_speed == mouse_speed,
            !r.is_forward_pressed,
            !r.is_backwards_pressed,
            !r.is_left_pressed,
            !r.is_right_pressed,
            r.mouse_dx == 0,
            r.mouse_dy == 0,
            !r.mouse_event,
    {
        CameraController {
            mouse_speed,
            is_forward_pressed: false,
            is_backwards_pressed: false,
            is_left_pressed: false,
            is_right_pressed: false,
            mouse_dx: 0,
            mouse_dy: 0,
            mouse_event: false,
        }
    }

    /// Handles a key going down (`pressed`) or up.
    pub fn process_event(&mut self, key: Key, pressed: bool) -> (r: KeyResponse)
        ensures
            r == (match key {
                Key::W | Key::Up | Key::A | Key::Left | Key::S | Key::Down | Key::D
                | Key::Right => KeyResponse::Movement,
                Key::F10 => KeyResponse::GrabCursor,
                Key::F11 => KeyResponse::Fullscreen,
                Key::Other => KeyResponse::Ignored,
            }),
            final(self).is_forward_pressed == (if key == Key::W || key == Key::Up {
                pressed
            } else {
                old(self).is_forward_pressed
            }),
            final(self).is_left_pressed == (if key == Key::A || key == Key::Left {
                pressed
            } else {
                old(self).is_left_pressed
            }),
            final(self).is_backwards_pressed == (if key == Key::S || key == Key::Down {
                pressed
            } else {
                old(self).is_backwards_pressed
            }),
            final(self).is_right_pressed == (if key == Key::D || key == Key::Right {
                pressed
            } else {
                old(self).is_right_pressed
            }),
            final(self).mouse_speed == old(self).mouse_speed,
            final(self).mouse_dx == old(self).mouse_dx,
            final(self).mouse_dy == old(self).mouse_dy,
            final(self).mouse_event == old(self).mouse_event,
    {
        match key {
            Key::W | Key::Up => {
                self.is_forward_pressed = pressed;
                KeyResponse::Movement
            },
            Key::A | Key::Left => {
                self.is_left_pressed = pressed;
                KeyResponse::Movement
            },
            Key::S | Key::Down => {
                self.is_backwards_pressed = pressed;
                KeyResponse::Movement
            },
            Key::D | Key::Right => {
                self.is_right_pressed = pressed;
                KeyResponse::Movement
            },
            Key::F10 => KeyResponse::GrabCursor,
            Key::F11 => KeyResponse::Fullscreen,
            Key::Other => KeyResponse::Ignored,
        }
    }

    /// Handles a device event: `Some(delta)` for a mouse motion, `None` for
    /// anything else. Motions accumulate until the next update consumes them:
    /// a motion while another is pending adds to it. Returns whether the
    /// event was a motion.
    pub fn process_mouse_event(&mut self, motion: Option<(i32, i32)>) -> (r: bool)
        ensures
            r == motion.is_some(),
            motion.is_some() ==> {
                &&& final(self).mouse_dx == accumulated(
                    old(self).mouse_event,
                    old(self).mouse_dx,
                    motion.unwrap().0,
                )
                &&& final(self).mouse_dy == accumulated(
                    old(self).mouse_event,
                    old(self).mouse_dy,
                    motion.unwrap().1,
                )
                &&& final(self).mouse_event
            },
            motion.is_none() ==> *final(self) == *old(self),
            final(self).mouse_speed == old(self).mouse_speed,
            final(self).is_forward_pressed == old(self).is_forward_pressed,
            final(self).is_backwards_pressed == old(self).is_backwards_pressed,
            final(self).is_left_pressed == old(self).is_left_pressed,
            final(self).is_right_pressed == old(self).is_right_pressed,
    {
        match motion {
            Some((dx, dy)) => {
                if self.mouse_event {
                    self.mouse_dx = saturating_sum(self.mouse_dx, dx);
                    self.mouse_dy = saturating_sum(self.mouse_dy, dy);
                } else {
                    self.mouse_dx = dx;
                    self.mouse_dy = dy;
                }
                self.mouse_event = true;
                true
            },
            None => false,
        }
    }

    /// One update tick. A pending mouse motion is consumed: the yaw changes
    /// by `dx * mouse_speed` and the pitch by `dy * mouse_speed` millidegrees,
    /// with the pitch clamped and the yaw wrapped. The result says whether the
    /// target must be recomputed and how many speed steps the eye and target
    /// move along `normalize(eye - target)`: one back for the backwards key,
    /// one forward for the forward key. The left and right keys move nothing.
    pub fn update_camera(&mut self, camera: &mut Camera) -> (r: CameraMotion)
        requires
            old(camera).wf(),
        ensures
            final(camera).wf(),
            !final(self).mouse_event,
            r.target_changed == old(self).mouse_event,
            r.steps as int == steps_of(old(self).is_forward_pressed, old(self).is_backwards_pressed),
            old(self).mouse_event ==> {
                &&& final(camera).yaw as int == turned_yaw(
                    old(camera).yaw as int,
                    old(self).mouse_dx * old(self).mouse_speed,
                )
                &&& final(camera).pitch as int == turned_pitch(
                    old(camera).pitch as int,
                    old(self).mouse_dy * old(self).mouse_speed,
                )
                &&& 0 <= final(camera).yaw < YAW_PERIOD
            },
            !old(self).mouse_event ==> *final(camera) == *old(camera),
            -PITCH_LIMIT <= final(camera).pitch <= PITCH_LIMIT,
            final(camera).aspect_width == old(camera).aspect_width,
            final(camera).aspect_height == old(camera).aspect_height,
            final(camera).fovy == old(camera).fovy,
            final(self).mouse_speed == old(self).mouse_speed,
            final(self).mouse_dx == old(self).mouse_dx,
            final(self).mouse_dy == old(self).mouse_dy,
            final(self).is_forward_pressed == old(self).is_forward_pressed,
            final(self).is_backwards_pressed == old(self).is_backwards_pressed,
            final(self).is_left_pressed == old(self).is_left_pressed,
            final(self).is_right_pressed == old(self).is_right_pressed,
    {
        let target_changed = self.mouse_event;
        if self.mouse_event {
            self.mouse_event = false;
            let dx = self.mouse_dx;
            let dy = self.mouse_dy;
            proof {
                lemma_product_bound(dx as int, self.mouse_speed as int);
                lemma_product_bound(dy as int, self.mouse_speed as int);
            }
            let yaw_delta: i64 = dx as i64 * self.mouse_speed as i64;
            let pitch_delta: i64 = dy as i64 * self.mouse_speed as i64;
            camera.rotate(yaw_delta, pitch_delta);
        }
        let mut steps: i32 = 0;
        if self.is_forward_pressed {
            steps = steps - 1;
        }
        if self.is_backwards_pressed {
            steps = steps + 1;
        }
        CameraMotion { target_changed, steps }
    }
}

/// Whatever the current rotation and the turn, a turned camera has its
/// pitch within [-PITCH_LIMIT, PITCH_LIMIT] and its yaw within
/// [0, YAW_PERIOD); a yaw already in that range that is not turned stays.
pub proof fn lemma_turn_bounds(yaw: int, pitch: int, yaw_delta: int, pitch_delta: int)
    ensures
        -PITCH_LIMIT <= turned_pitch(pitch, pitch_delta) <= PITCH_LIMIT,
        0 <= turned_yaw(yaw, yaw_delta) < YAW_PERIOD,
        0 <= yaw < YAW_PERIOD ==> turned_yaw(yaw, 0) == yaw,
        -PITCH_LIMIT <= pitch <= PITCH_LIMIT ==> turned_pitch(pitch, 0) == pitch,
{
    if 0 <= yaw < YAW_PERIOD {
        vstd::arithmetic::div_mod::lemma_small_mod(yaw as nat, YAW_PERIOD as nat);
    }
}

fn saturating_sum(a: i32, b: i32) -> (r: i32)
    ensures
        r == clamp_int(a + b, i32::MIN as int, i32::MAX as int),
{
    let sum: i64 = a as i64 + b as i64;
    if sum < i32::MIN as i64 {
        i32::MIN
    } else if sum > i32::MAX as i64 {
        i32::MAX
    } else {
        sum as i32
    }
}

proof fn lemma_product_bound(a: int, b: int)
    requires
        i32::MIN <= a <= i32::MAX,
        i32::MIN <= b <= i32::MAX,
    ensures
        -0x4000_0000_0000_0000 <= a * b <= 0x4000_0000_0000_0000,
{
    assert(-0x4000_0000_0000_0000 <= a * b <= 0x4000_0000_0000_0000) by (nonlinear_arith)
        requires
            -0x8000_0000 <= a <= 0x7fff_ffff,
            -0x8000_0000 <= b <= 0x7fff_ffff,
    ;
}

} // verus!
