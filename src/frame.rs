use vstd::prelude::*;

use crate::camera::{Camera, CameraController, CameraMotion, steps_of, turned_pitch, turned_yaw};
use crate::ui::{RenderTarget, TARGET_COUNT, target_index};

verus! {

/// A failure to acquire the next surface image.
#[derive(Clone, Copy, Debug, PartialEq, Eq, Structural)]
pub enum SurfaceFault {
    Lost,
    Outdated,
    Timeout,
    OutOfMemory,
}

/// What the event loop does next.
#[derive(Clone, Copy, Debug, PartialEq, Eq, Structural)]
pub enum LoopAction {
    /// Go on with the next event.
    Continue,
    /// Reconfigure the surface at its current size, then go on.
    Reconfigure,
    /// Report the fault and skip the frame; the next frame tries again.
    Skip,
    /// Leave the event loop.
    Exit,
    /// Resize the surface to `width` x `height`.
    Resize(u32, u32),
}

/// A window event as the event loop distinguishes them.
#[derive(Clone, Copy, Debug, PartialEq, Eq, Structural)]
pub enum WindowInput {
    CloseRequested,
    EscapePressed,
    Resized(u32, u32),
    ScaleFactorChanged(u32, u32),
    Other,
}

/// The recovery policy for a failed frame: a lost surface is reconfigured,
/// running out of memory ends the program, anything else drops the frame.
pub fn on_surface_error(fault: SurfaceFault) -> (r: LoopAction)
    ensures
        r == (match fault {
            SurfaceFault::Lost => LoopAction::Reconfigure,
            SurfaceFault::OutOfMemory => LoopAction::Exit,
            _ => LoopAction::Skip,
        }),
{
    match fault {
        SurfaceFault::Lost => LoopAction::Reconfigure,
        SurfaceFault::OutOfMemory => LoopAction::Exit,
        _ => LoopAction::Skip,
    }
}

/// What to do with a window event that the camera controller did or did
/// not claim: an unclaimed close request or Escape press ends the loop, an
/// unclaimed size change resizes, everything else goes on.
pub fn on_window_event(claimed: bool, event: WindowInput) -> (r: LoopAction)
    ensures
        claimed ==> r == LoopAction::Continue,
        !claimed ==> r == (match event {
            WindowInput::CloseRequested | WindowInput::EscapePressed => LoopAction::Exit,
            WindowInput::Resized(w, h) => LoopAction::Resize(w, h),
            WindowInput::ScaleFactorChanged(w, h) => LoopAction::Resize(w, h),
            WindowInput::Other => LoopAction::Continue,
        }),
{
    if claimed {
        return LoopAction::Continue;
    }
    match event {
        WindowInput::CloseRequested | WindowInput::EscapePressed => LoopAction::Exit,
        WindowInput::Resized(w, h) => LoopAction::Resize(w, h),
        WindowInput::ScaleFactorChanged(w, h) => LoopAction::Resize(w, h),
        WindowInput::Other => LoopAction::Continue,
    }
}

/// The per-frame state of the renderer that is not on the GPU: the surface
/// size, the camera and its controller, whether the light buffer must be
/// uploaded again, and the target chosen in the overlay.
#[derive(Clone, Copy, Debug, PartialEq, Eq, Structural)]
pub struct FrameState {
    pub width: u32,
    pub height: u32,
    pub camera: Camera,
    pub camera_controller: CameraController,
    pub lights_are_dirty: bool,
    pub render_target: RenderTarget,
}

impl FrameState {
    pub open spec fn wf(&self) -> bool {
        self.camera.wf()
    }

    /// The state at start-up: the lights still have to be uploaded and the
    /// overlay shows the lit scene.
    pub fn new(width: u32, height: u32, camera: Camera, camera_controller: CameraController) -> (r:
        FrameState)
        requires
            camera.wf(),
        ensures
            r.wf(),
            r.width == width,
            r.height == height,
            r.camera == camera,
            r.camera_controller == camera_controller,
            r.lights_are_dirty,
            r.render_target == RenderTarget::Default,
    {
        FrameState {
            width,
            height,
            camera,
            camera_controller,
            lights_are_dirty: true,
            render_target: RenderTarget::Default,
        }
    }

    /// Takes a new surface size. A size with a zero side is ignored; any
    /// other becomes the surface size and the camera's aspect ratio. Returns
    /// whether the size was taken, in which case the surface and the depth
    /// texture must be rebuilt.
    pub fn resize(&mut self, width: u32, height: u32) -> (r: bool)
        ensures
            r == (width > 0 && height > 0),
            r ==> final(self).width == width && final(self).height == height
                && final(self).camera.aspect_is(width as int, height as int)
                && final(self).camera.yaw == old(self).camera.yaw
                && final(self).camera.pitch == old(self).camera.pitch
                && final(self).camera.fovy == old(self).camera.fovy,
            !r ==> *final(self) == *old(self),
            final(self).camera_controller == old(self).camera_controller,
            final(self).lights_are_dirty == old(self).lights_are_dirty,
            final(self).render_target == old(self).render_target,
    {
        if width > 0 && height > 0 {
            self.width = width;
            self.height = height;
            self.camera.resize(width, height);
            true
        } else {
            false
        }
    }

    /// The update phase: the controller moves the camera.
    pub fn update(&mut self) -> (r: CameraMotion)
        requires
            old(self).wf(),
        ensures
            final(self).wf(),
            !final(self).camera_controller.mouse_event,
            r.target_changed == old(self).camera_controller.mouse_event,
            r.steps as int == steps_of(
                old(self).camera_controller.is_forward_pressed,
                old(self).camera_controller.is_backwards_pressed,
            ),
            old(self).camera_controller.mouse_event ==> {
                &&& final(self).camera.yaw as int == turned_yaw(
                    old(self).camera.yaw as int,
                    old(self).camera_controller.mouse_dx * old(self).camera_controller.mouse_speed,
                )
                &&& final(self).camera.pitch as int == turned_pitch(
                    old(self).camera.pitch as int,
                    old(self).camera_controller.mouse_dy * old(self).camera_controller.mouse_speed,
                )
            },
            !old(self).camera_controller.mouse_event ==> final(self).camera == old(self).camera,
            final(self).camera.aspect_width == old(self).camera.aspect_width,
            final(self).camera.aspect_height == old(self).camera.aspect_height,
            final(self).camera_controller == (CameraController {
                mouse_event: false,
                ..old(self).camera_controller
            }),
            final(self).width == old(self).width,
            final(self).height == old(self).height,
            final(self).lights_are_dirty == old(self).lights_are_dirty,
            final(self).render_target == old(self).render_target,
    {
        self.camera_controller.update_camera(&mut self.camera)
    }

    /// Marks the lights as changed, so that the next frame uploads them.
    pub fn mark_lights_dirty(&mut self)
        ensures
            *final(self) == (FrameState { lights_are_dirty: true, ..*old(self) }),
    {
        self.lights_are_dirty = true;
    }

    /// Starts the render phase. Returns whether the light buffer must be
    /// repopulated this frame; the flag is consumed, so the next frame does
    /// not upload again unless the lights are marked once more.
    pub fn begin_render(&mut self) -> (r: bool)
        ensures
            r == old(self).lights_are_dirty,
            *final(self) == (FrameState { lights_are_dirty: false, ..*old(self) }),
    {
        let dirty = self.lights_are_dirty;
        self.lights_are_dirty = false;
        dirty
    }

    /// Applies the overlay's radio-button outcome to the chosen target.
    pub fn select_target(&mut self, clicked: bool, index: u32)
        ensures
            clicked && index < TARGET_COUNT ==> target_index(final(self).render_target) == index,
            !(clicked && index < TARGET_COUNT) ==> final(self).render_target == old(self).render_target,
            *final(self) == (FrameState { render_target: final(self).render_target, ..*old(self) }),
    {
        self.render_target = self.render_target.select(clicked, index);
    }

    /// The selector value to upload to the render-target buffer.
    pub fn render_target_index(&self) -> (r: u32)
        ensures
            r == target_index(self.render_target),
    {
        self.render_target.index()
    }
}

} // verus!
