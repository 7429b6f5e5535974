//! The event bus: raw windowing events queue up in a FIFO from the
//! `queues` crate and are drained once per loop tick.  The queue itself is
//! outside code behind trusted wrappers; the draining — close handling,
//! translation, listener updates, state dispatch — is verified.
use crate::batch::quad_fits;
use crate::events::{translateEvent, RawEvent, NUM_KEY_CODES, NUM_MOUSE_CODES};
use crate::input::{KeyListener, MouseListener};
use crate::state::{spec_brush_quad, AppState};
use vstd::prelude::*;

verus! {

#[verifier::external_type_specification]
#[verifier::external_body]
#[verifier::reject_recursive_types(T)]
pub struct ExQueue<T: Clone>(queues::Queue<T>);

/// What the event queue holds, front to back.
pub uninterp spec fn spec_queue_events(q: queues::Queue<RawEvent>) -> Seq<RawEvent>;

/// Relies on `queues::Queue::new`: a new queue holds nothing.
#[verifier::external_body]
pub fn event_queue_new() -> (q: queues::Queue<RawEvent>)
    ensures
        spec_queue_events(q) == Seq::<RawEvent>::empty(),
{
    queues::Queue::new()
}

/// Relies on `queues::Queue::add` (its `IsQueue` impl): pushes the value
/// to the back of the queue's storage and always succeeds.
#[verifier::external_body]
pub fn event_queue_add(q: &mut queues::Queue<RawEvent>, e: RawEvent)
    ensures
        spec_queue_events(*final(q)) == spec_queue_events(*old(q)).push(e),
{
    let _ = queues::IsQueue::add(q, e);
}

/// Relies on `queues::Queue::remove` (its `IsQueue` impl): pops and
/// returns the front element, or errs on an empty queue, which it leaves
/// empty.
#[verifier::external_body]
pub fn event_queue_remove(q: &mut queues::Queue<RawEvent>) -> (r: Option<RawEvent>)
    ensures
        spec_queue_events(*old(q)).len() == 0 ==> r is None && spec_queue_events(*final(q))
            == spec_queue_events(*old(q)),
        spec_queue_events(*old(q)).len() > 0 ==> r == Some(spec_queue_events(*old(q))[0])
            && spec_queue_events(*final(q)) == spec_queue_events(*old(q)).drop_first(),
{
    match queues::IsQueue::remove(q) {
        Ok(e) => Some(e),
        Err(_) => None,
    }
}

/// Relies on `queues::Queue::size` (its `IsQueue` impl): the number of
/// held elements.
#[verifier::external_body]
pub fn event_queue_size(q: &queues::Queue<RawEvent>) -> (n: usize)
    ensures
        n == spec_queue_events(*q).len(),
{
    queues::IsQueue::size(q)
}

/// A raw event the listeners and the state accept: key and button codes in
/// range, and cursor positions at which the brush quad's corners fit.
pub open spec fn valid_raw_event(e: RawEvent) -> bool {
    &&& (e matches RawEvent::Key { key, .. } ==> key < NUM_KEY_CODES as u32)
    &&& (e matches RawEvent::MouseButton { button, .. } ==> button < NUM_MOUSE_CODES as u32)
    &&& (e matches RawEvent::CursorPos { x, y } ==> quad_fits(spec_brush_quad((x, y))))
}

/// Whether some queued event asks the window to close.
pub open spec fn has_close(events: Seq<RawEvent>) -> bool {
    exists|i: int| 0 <= i < events.len() && (#[trigger] events[i]) matches RawEvent::Close
}

/// Drains the event bus, front to back, once per loop tick: a `Close` raw
/// event asks the window to close; every other event updates the
/// listeners and is translated and dispatched to the state.  Returns
/// whether the window should close; the bus is left empty either way, so
/// no event is ever lost or carried over.
pub fn drain_events(
    bus: &mut queues::Queue<RawEvent>,
    state: &mut AppState,
    key: &mut KeyListener,
    mouse: &mut MouseListener,
) -> (should_close: bool)
    requires
        forall|i: int|
            0 <= i < spec_queue_events(*old(bus)).len() ==> valid_raw_event(
                #[trigger] spec_queue_events(*old(bus))[i],
            ),
        old(state).data.renderer.wf(),
        old(key).wf(),
        old(mouse).wf(),
        quad_fits(spec_brush_quad(old(mouse).MousePos)),
    ensures
        spec_queue_events(*final(bus)).len() == 0,
        should_close == has_close(spec_queue_events(*old(bus))),
        final(state).data.renderer.wf(),
        final(key).wf(),
        final(mouse).wf(),
{
    let ghost orig = spec_queue_events(*old(bus));
    let mut should_close = false;
    let ghost mut processed: int = 0;
    let mut remaining = event_queue_size(bus);
    while remaining > 0
        invariant
            0 <= processed <= orig.len(),
            spec_queue_events(*bus) == orig.skip(processed),
            remaining == orig.len() - processed,
            forall|i: int| 0 <= i < orig.len() ==> valid_raw_event(#[trigger] orig[i]),
            should_close == exists|j: int|
                0 <= j < processed && (#[trigger] orig[j]) matches RawEvent::Close,
            state.data.renderer.wf(),
            key.wf(),
            mouse.wf(),
            quad_fits(spec_brush_quad(mouse.MousePos)),
        decreases remaining,
    {
        let next = event_queue_remove(bus);
        match next {
            None => {
                proof {
                    assert(false);
                }
            },
            Some(event) => {
                proof {
                    assert(orig.skip(processed)[0] == orig[processed]);
                    assert(orig.skip(processed).drop_first() =~= orig.skip(processed + 1));
                }
                if matches!(event, RawEvent::Close) {
                    should_close = true;
                } else {
                    key.onEvent(&event);
                    mouse.onEvent(&event);
                    let translated = translateEvent(event);
                    state.onEvent(translated, key, mouse);
                }
                proof {
                    processed = processed + 1;
                }
            },
        }
        remaining = remaining - 1;
    }
    proof {
        assert(orig.skip(processed) =~= spec_queue_events(*bus));
    }
    should_close
}

} // verus!
