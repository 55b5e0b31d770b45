use vstd::prelude::*;

verus! {

/// The keys that the program distinguishes.
#[derive(Clone, Copy, Debug, PartialEq, Eq, Structural)]
pub enum Key {
    Escape,
    Other,
}

/// What happened to a key.
#[derive(Clone, Copy, Debug, PartialEq, Eq, Structural)]
pub enum KeyAction {
    Press,
    Release,
    Repeat,
}

/// A window event, reduced to what the program reads of it.
#[derive(Clone, Copy, Debug, PartialEq, Eq, Structural)]
pub enum WindowEvent {
    /// The framebuffer was resized to the given width and height in pixels.
    FramebufferSize(i32, i32),
    /// A key changed state.
    Key(Key, KeyAction),
    /// Any other event.
    Other,
}

/// What the program does in answer to an event.
#[derive(Clone, Copy, Debug, PartialEq, Eq, Structural)]
pub enum Response {
    /// Set the drawing viewport to the rectangle at (`x`, `y`) of the given size.
    Viewport { x: i32, y: i32, width: i32, height: i32 },
    /// Ask the window to close.
    Close,
}

/// The answer to one event: a resize makes the viewport cover the whole new
/// framebuffer, a press of Escape closes the window, and anything else is
/// ignored.
pub open spec fn response_spec(e: WindowEvent) -> Option<Response> {
    match e {
        WindowEvent::FramebufferSize(w, h) => Some(
            Response::Viewport { x: 0, y: 0, width: w, height: h },
        ),
        WindowEvent::Key(Key::Escape, KeyAction::Press) => Some(Response::Close),
        _ => None,
    }
}

/// The answers to a run of events, in the order of the events that gave them.
pub open spec fn responses_spec(es: Seq<WindowEvent>) -> Seq<Response>
    decreases es.len(),
{
    if es.len() == 0 {
        Seq::empty()
    } else {
        let rest = responses_spec(es.drop_last());
        match response_spec(es.last()) {
            Some(r) => rest.push(r),
            None => rest,
        }
    }
}

/// The answer to one event, if it calls for one.
pub fn respond(e: &WindowEvent) -> (r: Option<Response>)
    ensures
        r == response_spec(*e),
{
    match e {
        WindowEvent::FramebufferSize(w, h) => Some(
            Response::Viewport { x: 0, y: 0, width: *w, height: *h },
        ),
        WindowEvent::Key(Key::Escape, KeyAction::Press) => Some(Response::Close),
        _ => None,
    }
}

/// The answers to the events that arrived since the last frame, in order.
pub fn process_events(events: &Vec<WindowEvent>) -> (r: Vec<Response>)
    ensures
        r@ == responses_spec(events@),
{
    let mut r: Vec<Response> = Vec::new();
    let mut i: usize = 0;
    while i < events.len()
        invariant
            i <= events@.len(),
            r@ == responses_spec(events@.take(i as int)),
        decreases events@.len() - i,
    {
        assert(events@.take(i as int + 1).drop_last() =~= events@.take(i as int));
        match respond(&events[i]) {
            Some(resp) => r.push(resp),
            None => {},
        }
        i = i + 1;
    }
    assert(events@.take(events@.len() as int) =~= events@);
    r
}

} // verus!
