//! The decisions of the frame loop.
//!
//! The loop itself belongs to the caller, which owns the window and the
//! surface. For every event it asks [`handle_event`] what to do; when that
//! answers [`Action::Redraw`] it tries to acquire the surface's next image
//! and asks [`redraw`] what follows from the attempt.

use crate::app::background;
use crate::app::draws_of;
use crate::app::AppRender;
use crate::app::Frame;
use crate::surface::PhysicalSize;
use vstd::prelude::*;
use wgpu::SurfaceError;

verus! {

/// The exit code of a loop that ended because its window was closed.
pub const EXIT_CLOSED: i32 = 0;

/// The exit code of a loop that ended because no memory was left for the
/// surface's next image.
pub const EXIT_OUT_OF_MEMORY: i32 = -1;

/// The state of the frame loop. `Exiting` is final: no event leaves it, and
/// the exit code that was set first stands.
#[derive(Debug, Clone, Copy, PartialEq, Eq, Structural)]
pub enum LoopState {
    Running,
    Exiting { code: i32 },
}

impl LoopState {
    /// The state after an exit with `code` was asked for.
    pub open spec fn exited(self, code: i32) -> LoopState {
        match self {
            LoopState::Running => LoopState::Exiting { code },
            LoopState::Exiting { .. } => self,
        }
    }

    /// Asks for an exit with `code`.
    pub fn exit(&mut self, code: i32)
        ensures
            *final(self) == old(self).exited(code),
    {
        match *self {
            LoopState::Running => {
                *self = LoopState::Exiting { code };
            },
            LoopState::Exiting { .. } => {},
        }
    }
}

/// What happened to a window.
#[derive(Debug, Clone, Copy, PartialEq, Eq, Structural)]
pub enum WindowEvent {
    CloseRequested,
    Resized(PhysicalSize),
    ScaleFactorChanged { new_inner_size: PhysicalSize },
    /// Anything else.
    Other,
}

/// An event of the event source. `for_this_window` says whether the event
/// is about the window that the graphics context draws to.
#[derive(Debug, Clone, Copy, PartialEq, Eq, Structural)]
pub enum Event {
    WindowEvent { for_this_window: bool, event: WindowEvent },
    RedrawRequested { for_this_window: bool },
    /// All queued events have been handled.
    MainEventsCleared,
    /// Anything else.
    Other,
}

/// What the caller does after an event.
#[derive(Debug, Clone, Copy, PartialEq, Eq, Structural)]
pub enum Action {
    Nothing,
    /// Configure the surface with the context's configuration.
    Configure,
    /// Ask the window for a redraw.
    RequestRedraw,
    /// Try to acquire the surface's next image, and call [`redraw`].
    Redraw,
}

/// The size that an event gives the window, where it gives one.
pub open spec fn new_size_of(event: Event) -> Option<PhysicalSize> {
    match event {
        Event::WindowEvent { for_this_window: true, event: WindowEvent::Resized(size) } => Some(
            size,
        ),
        Event::WindowEvent {
            for_this_window: true,
            event: WindowEvent::ScaleFactorChanged { new_inner_size },
        } => Some(new_inner_size),
        _ => None,
    }
}

/// The graphics context after an event: resized where the event gives the
/// window a size, else unchanged.
pub open spec fn renderer_after(renderer: AppRender, event: Event) -> AppRender {
    match new_size_of(event) {
        Some(size) => renderer.resized(size),
        None => renderer,
    }
}

/// The state of the loop after an event: a request to close the window
/// ends the loop, and nothing else does.
pub open spec fn state_after(state: LoopState, event: Event) -> LoopState {
    match event {
        Event::WindowEvent { for_this_window: true, event: WindowEvent::CloseRequested } =>
            state.exited(EXIT_CLOSED),
        _ => state,
    }
}

/// What the caller does after an event.
pub open spec fn action_for(event: Event) -> Action {
    match event {
        Event::WindowEvent { for_this_window: true, event: WindowEvent::Resized(_) } =>
            Action::Configure,
        Event::WindowEvent {
            for_this_window: true,
            event: WindowEvent::ScaleFactorChanged { .. },
        } => Action::Configure,
        Event::RedrawRequested { for_this_window: true } => Action::Redraw,
        Event::MainEventsCleared => Action::RequestRedraw,
        _ => Action::Nothing,
    }
}

/// Handles one event of the event source.
pub fn handle_event(renderer: &mut AppRender, state: &mut LoopState, event: Event) -> (action:
    Action)
    ensures
        *final(renderer) == renderer_after(*old(renderer), event),
        *final(state) == state_after(*old(state), event),
        action == action_for(event),
{
    match event {
        Event::WindowEvent { for_this_window, event } => {
            if for_this_window {
                match event {
                    WindowEvent::CloseRequested => {
                        state.exit(EXIT_CLOSED);
                        Action::Nothing
                    },
                    WindowEvent::Resized(new_size) => {
                        renderer.resize(new_size);
                        Action::Configure
                    },
                    WindowEvent::ScaleFactorChanged { new_inner_size } => {
                        renderer.resize(new_inner_size);
                        Action::Configure
                    },
                    WindowEvent::Other => Action::Nothing,
                }
            } else {
                Action::Nothing
            }
        },
        Event::RedrawRequested { for_this_window } => {
            if for_this_window {
                Action::Redraw
            } else {
                Action::Nothing
            }
        },
        Event::MainEventsCleared => Action::RequestRedraw,
        Event::Other => Action::Nothing,
    }
}

/// What the caller does after it tried to acquire the surface's next image.
#[derive(Debug)]
pub enum Redraw {
    /// Encode the frame's draw calls, submit them and present the image.
    Present(Frame),
    /// Configure the surface with the context's configuration.
    Configure,
    /// Leave the loop.
    Exit,
    /// Report the failure, and go on with the next frame.
    Report(SurfaceError),
}

/// The graphics context after an image could not be acquired: a lost
/// surface is set up again at the window's size, and nothing else changes
/// the context.
pub open spec fn renderer_on(renderer: AppRender, failure: SurfaceError) -> AppRender {
    match failure {
        SurfaceError::Lost => renderer.resized(renderer.size),
        _ => renderer,
    }
}

/// The state of the loop after an image could not be acquired: running out
/// of memory ends the loop, and no other failure does.
pub open spec fn state_on(state: LoopState, failure: SurfaceError) -> LoopState {
    match failure {
        SurfaceError::OutOfMemory => state.exited(EXIT_OUT_OF_MEMORY),
        _ => state,
    }
}

/// What the caller does after an image could not be acquired.
pub open spec fn outcome_on(failure: SurfaceError) -> Redraw {
    match failure {
        SurfaceError::Lost => Redraw::Configure,
        SurfaceError::OutOfMemory => Redraw::Exit,
        _ => Redraw::Report(failure),
    }
}

/// Decides how the loop goes on after an image could not be acquired.
pub fn recover(renderer: &mut AppRender, state: &mut LoopState, failure: SurfaceError) -> (outcome:
    Redraw)
    ensures
        *final(renderer) == renderer_on(*old(renderer), failure),
        *final(state) == state_on(*old(state), failure),
        outcome == outcome_on(failure),
{
    match failure {
        SurfaceError::Lost => {
            let size = renderer.size;
            renderer.resize(size);
            Redraw::Configure
        },
        SurfaceError::OutOfMemory => {
            state.exit(EXIT_OUT_OF_MEMORY);
            Redraw::Exit
        },
        _ => Redraw::Report(failure),
    }
}

/// Handles a request to redraw, once the caller has tried to acquire the
/// surface's next image: updates the context, then either hands out the
/// frame to present or decides how the loop goes on without one.
pub fn redraw(
    renderer: &mut AppRender,
    state: &mut LoopState,
    acquired: Result<(), SurfaceError>,
) -> (outcome: Redraw)
    ensures
        match acquired {
            Ok(_) => {
                &&& *final(renderer) == *old(renderer)
                &&& *final(state) == *old(state)
                &&& match outcome {
                    Redraw::Present(frame) => {
                        &&& frame.clear@ == background()
                        &&& frame.store
                        &&& frame.draws@ == draws_of(old(renderer).widgets@)
                    },
                    _ => false,
                }
            },
            Err(error) => {
                &&& *final(renderer) == renderer_on(*old(renderer), error)
                &&& *final(state) == state_on(*old(state), error)
                &&& outcome == outcome_on(error)
            },
        },
{
    let updated = renderer.update();
    assert(updated is Ok);
    match renderer.render(acquired) {
        Ok(frame) => Redraw::Present(frame),
        Err(error) => recover(renderer, state, error),
    }
}

/// A redraw changes neither the window's size nor what is registered, and
/// it leaves the surface configured at the window's size where it was so
/// before; after a lost surface it is so in any case.
pub proof fn lemma_failure_keeps_objects(renderer: AppRender, failure: SurfaceError)
    ensures
        renderer_on(renderer, failure).size == renderer.size,
        renderer_on(renderer, failure).widgets == renderer.widgets,
        renderer.mirrors_window() ==> renderer_on(renderer, failure).mirrors_window(),
        failure == SurfaceError::Lost ==> renderer_on(renderer, failure).mirrors_window(),
{
}

/// After a lost surface the loop keeps its state, the caller is told to
/// configure the surface again, and the configuration it is told to use has
/// the window's unchanged size. The frame of the next redraw is the one
/// that would have been drawn.
pub proof fn lemma_lost_surface_is_configured_again(renderer: AppRender, state: LoopState)
    ensures
        state_on(state, SurfaceError::Lost) == state,
        outcome_on(SurfaceError::Lost) == Redraw::Configure,
        renderer_on(renderer, SurfaceError::Lost).size == renderer.size,
        renderer_on(renderer, SurfaceError::Lost).config.width == renderer.size.width,
        renderer_on(renderer, SurfaceError::Lost).config.height == renderer.size.height,
        renderer_on(renderer, SurfaceError::Lost).config.format == renderer.config.format,
        draws_of(renderer_on(renderer, SurfaceError::Lost).widgets@) == draws_of(
            renderer.widgets@,
        ),
{
}

/// Running out of memory ends a running loop with an exit code that is not
/// the one of a closed window, and not zero.
pub proof fn lemma_out_of_memory_exits(state: LoopState)
    ensures
        state_on(LoopState::Running, SurfaceError::OutOfMemory) == (LoopState::Exiting {
            code: EXIT_OUT_OF_MEMORY,
        }),
        state_on(state, SurfaceError::OutOfMemory) is Exiting,
        outcome_on(SurfaceError::OutOfMemory) == Redraw::Exit,
        EXIT_OUT_OF_MEMORY != EXIT_CLOSED,
        EXIT_OUT_OF_MEMORY != 0,
{
}

/// Only a request to close the window and a surface that ran out of memory
/// end a running loop; the first with the code of a closed window.
pub proof fn lemma_what_ends_the_loop(event: Event, failure: SurfaceError)
    ensures
        state_after(LoopState::Running, event) != LoopState::Running <==> event == (
        Event::WindowEvent { for_this_window: true, event: WindowEvent::CloseRequested }),
        state_after(LoopState::Running, event) != LoopState::Running ==> state_after(
            LoopState::Running,
            event,
        ) == (LoopState::Exiting { code: EXIT_CLOSED }),
        state_on(LoopState::Running, failure) != LoopState::Running <==> failure
            == SurfaceError::OutOfMemory,
{
}

/// A loop that is exiting stays so, with the exit code it has.
pub proof fn lemma_exiting_is_final(code: i32, event: Event, failure: SurfaceError)
    ensures
        state_after(LoopState::Exiting { code }, event) == (LoopState::Exiting { code }),
        state_on(LoopState::Exiting { code }, failure) == (LoopState::Exiting { code }),
{
}

/// After any event the surface's configuration has the window's size,
/// where it had so before; after an event that gives the window a size, it
/// has that size in any case.
pub proof fn lemma_event_keeps_mirror(renderer: AppRender, event: Event)
    ensures
        renderer.mirrors_window() ==> renderer_after(renderer, event).mirrors_window(),
        renderer_after(renderer, event).widgets == renderer.widgets,
        match new_size_of(event) {
            Some(size) => {
                &&& renderer_after(renderer, event).size == size
                &&& renderer_after(renderer, event).config.width == size.width
                &&& renderer_after(renderer, event).config.height == size.height
            },
            None => renderer_after(renderer, event) == renderer,
        },
{
}

} // verus!
