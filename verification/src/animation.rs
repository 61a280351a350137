//! The life of an animation: from the moment its canvas is mounted to the
//! moment it is removed.
//!
//! An [`AnimationHandle`] owns the drawing context of the mounted canvas and
//! the registration of the frame callback. It holds both or neither, so a
//! frame is never painted on a canvas that is gone, and removing the canvas
//! releases both at once.

use vstd::prelude::*;
use crate::draw::{paintable, DrawCommand};
use crate::time::TimeOfDay;
use crate::works::Renderer;

verus! {

/// Binds one animation to the canvas it is mounted on.
///
/// `C` is the drawing context of the host and `L` the registration of a
/// frame callback, which the host cancels when the registration is dropped.
pub struct AnimationHandle<C, L> {
    renderer: Renderer,
    context: Option<C>,
    frame_loop: Option<L>,
}

/// What an [`AnimationHandle`] holds.
pub struct AnimationHandleView<C, L> {
    pub renderer: Renderer,
    pub context: Option<C>,
    pub frame_loop: Option<L>,
}

impl<C, L> AnimationHandleView<C, L> {
    /// Number of frame callbacks that the handle keeps registered.
    pub open spec fn frame_callbacks(self) -> nat {
        if self.frame_loop is Some {
            1
        } else {
            0
        }
    }

    /// The handle holds nothing.
    pub open spec fn idle(self) -> bool {
        self.context is None && self.frame_loop is None
    }

    /// The handle after its canvas has been removed.
    pub open spec fn unmounted(self) -> AnimationHandleView<C, L> {
        AnimationHandleView { renderer: self.renderer, context: None, frame_loop: None }
    }

    /// What a frame callback paints at `now` milliseconds since the epoch,
    /// where `local` is the time of day of that moment: the frame of the
    /// animation while a context is held, and nothing at all without one.
    pub open spec fn frame(self, now: int, local: Option<TimeOfDay>) -> Option<Seq<DrawCommand>> {
        if self.context is Some {
            Some(self.renderer.spec_frame(now, local))
        } else {
            None
        }
    }

    /// What the frame callback paints at `now` milliseconds since the epoch,
    /// where the clocks of the host stand `offset` seconds ahead of
    /// Greenwich.
    pub open spec fn tick(self, now: int, offset: int) -> Option<Seq<DrawCommand>> {
        self.frame(now, self.renderer.spec_time_shown(now, offset))
    }
}

impl<C, L> View for AnimationHandle<C, L> {
    type V = AnimationHandleView<C, L>;

    closed spec fn view(&self) -> AnimationHandleView<C, L> {
        AnimationHandleView {
            renderer: self.renderer,
            context: self.context,
            frame_loop: self.frame_loop,
        }
    }
}

impl<C, L> AnimationHandle<C, L> {
    /// The animation can draw, and a frame callback is registered exactly
    /// while a context is held.
    #[verifier::type_invariant]
    spec fn inv(self) -> bool {
        self.renderer.wf() && (self.frame_loop is Some <==> self.context is Some)
    }

    /// A handle for `renderer` that holds nothing yet.
    pub fn new(renderer: Renderer) -> (handle: Self)
        requires
            renderer.wf(),
        ensures
            handle@ == (AnimationHandleView::<C, L> { renderer, context: None, frame_loop: None }),
    {
        AnimationHandle { renderer, context: None, frame_loop: None }
    }

    /// The canvas has been mounted and has given `context`, its 2D drawing
    /// context; `start` registers the frame callback with the host.
    ///
    /// The handle takes the context and registers one frame callback; what
    /// it held before is released. A canvas that gives no context cannot be
    /// mounted: there is nothing to call this with, and the host fails
    /// before it gets here.
    pub fn set_canvas_context<F: FnOnce() -> L>(&mut self, context: C, start: F)
        requires
            start.requires(()),
        ensures
            final(self)@.renderer == old(self)@.renderer,
            final(self)@.context == Some(context),
            final(self)@.frame_loop is Some,
            start.ensures((), final(self)@.frame_loop->0),
    {
        proof {
            use_type_invariant(&*self);
        }
        let registration: L = Self::start_animation(start);
        *self = AnimationHandle {
            renderer: self.renderer,
            context: Some(context),
            frame_loop: Some(registration),
        };
    }

    /// Registers the frame callback with the host.
    fn start_animation<F: FnOnce() -> L>(start: F) -> (registration: L)
        requires
            start.requires(()),
        ensures
            start.ensures((), registration),
    {
        start()
    }

    /// The canvas has been removed: the frame callback is deregistered and
    /// the context released. Safe in every state; on a handle that holds
    /// nothing it does nothing.
    pub fn remove_canvas_context(&mut self)
        ensures
            final(self)@ == old(self)@.unmounted(),
    {
        proof {
            use_type_invariant(&*self);
        }
        *self = AnimationHandle { renderer: self.renderer, context: None, frame_loop: None };
    }

    /// The animation of the handle.
    pub fn renderer(&self) -> (renderer: Renderer)
        ensures
            renderer == self@.renderer,
            renderer.wf(),
    {
        proof {
            use_type_invariant(self);
        }
        self.renderer
    }

    /// The drawing context, while a canvas is mounted.
    pub fn context(&self) -> (context: Option<&C>)
        ensures
            context is Some <==> self@.context is Some,
            context is Some ==> *context->0 == self@.context->0,
    {
        self.context.as_ref()
    }

    /// Number of frame callbacks that the handle keeps registered: one while
    /// a canvas is mounted, none otherwise.
    pub fn frame_callbacks(&self) -> (count: usize)
        ensures
            count == self@.frame_callbacks(),
            count == (if self@.context is Some { 1nat } else { 0nat }),
    {
        proof {
            use_type_invariant(self);
        }
        if self.frame_loop.is_some() {
            1
        } else {
            0
        }
    }

    /// What the frame callback paints at `now_millis`, where `local` is the
    /// time of day of that moment: `None` without a context.
    pub fn frame(&self, now_millis: i64, local: Option<TimeOfDay>) -> (commands: Option<
        Vec<DrawCommand>,
    >)
        requires
            local is Some ==> local->0.wf(),
        ensures
            commands is Some <==> self@.context is Some,
            commands is Some ==> Some(commands->0@) == self@.frame(now_millis as int, local),
            commands is Some ==> paintable(commands->0@),
    {
        proof {
            use_type_invariant(self);
        }
        if self.context.is_some() {
            Some(self.renderer.draw(now_millis, local))
        } else {
            None
        }
    }

    /// The frame callback: what it paints at `now_millis`, the moment that
    /// the host has read from its clock, where the clocks of the host stand
    /// `offset_seconds` ahead of Greenwich. `None` without a context.
    ///
    /// An animation that shows the time of day is painted with the time of
    /// day of that moment in that zone. The others are the same in every
    /// zone.
    pub fn tick(&self, now_millis: i64, offset_seconds: i32) -> (commands: Option<
        Vec<DrawCommand>,
    >)
        ensures
            commands is Some <==> self@.context is Some,
            commands is Some ==> Some(commands->0@) == self@.tick(
                now_millis as int,
                offset_seconds as int,
            ),
            commands is Some ==> paintable(commands->0@),
    {
        proof {
            use_type_invariant(self);
        }
        if self.context.is_some() {
            Some(self.renderer.draw_at(now_millis, offset_seconds))
        } else {
            None
        }
    }
}

/// Removing the canvas leaves a handle that holds nothing, whatever it held
/// before, and removing it once more changes nothing.
pub proof fn lemma_unmount_idempotent<C, L>(handle: AnimationHandleView<C, L>)
    ensures
        handle.unmounted().idle(),
        handle.unmounted().frame_callbacks() == 0,
        handle.unmounted().unmounted() == handle.unmounted(),
        handle.idle() ==> handle.unmounted() == handle,
{
}

} // verus!
