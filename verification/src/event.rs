use vstd::prelude::*;

verus! {

/// A decoded unit of protocol data.
#[derive(Clone, Debug)]
pub enum WireEvent {
    /// A screen update of `width` by `height` pixels.
    Bitmap { width: u16, height: u16, data: Vec<u8> },
    /// The pointer moved to (`x`, `y`).
    Pointer { x: u16, y: u16 },
    /// The key with scancode `code` was pressed or released.
    Key { code: u16, pressed: bool },
}

/// What the caller is told about one event.
#[derive(Clone, Copy, Debug, PartialEq, Eq, Structural)]
pub enum Notification {
    /// A screen update of the given size arrived.
    ScreenUpdate { width: u16, height: u16 },
    /// The pointer moved.
    PointerMoved { x: u16, y: u16 },
    /// A key changed its state.
    KeyChanged { code: u16, pressed: bool },
}

#[verifier::external_type_specification]
#[verifier::external_body]
pub struct ExProtocolEvent(rdp::core::event::RdpEvent);

/// The notification that belongs to `event`.
pub open spec fn notification_of(event: WireEvent) -> Notification {
    match event {
        WireEvent::Bitmap { width, height, data } => Notification::ScreenUpdate { width, height },
        WireEvent::Pointer { x, y } => Notification::PointerMoved { x, y },
        WireEvent::Key { code, pressed } => Notification::KeyChanged { code, pressed },
    }
}

/// The notifications that belong to `events`, one for each, in their order.
pub open spec fn notifications_of(events: Seq<WireEvent>) -> Seq<Notification> {
    Seq::new(events.len(), |i: int| notification_of(events[i]))
}

/// Maps one event to its notification.
pub fn dispatch(event: &WireEvent) -> (n: Notification)
    ensures
        n == notification_of(*event),
{
    match event {
        WireEvent::Bitmap { width, height, data: _ } => Notification::ScreenUpdate {
            width: *width,
            height: *height,
        },
        WireEvent::Pointer { x, y } => Notification::PointerMoved { x: *x, y: *y },
        WireEvent::Key { code, pressed } => Notification::KeyChanged {
            code: *code,
            pressed: *pressed,
        },
    }
}

/// Maps a run of events to their notifications: one for each event, in the
/// order of arrival, none dropped, repeated or merged.
pub fn dispatch_all(events: &Vec<WireEvent>) -> (out: Vec<Notification>)
    ensures
        out@ == notifications_of(events@),
        out@.len() == events@.len(),
        forall|i: int| 0 <= i < events@.len() ==> out@[i] == notification_of(#[trigger] events@[i]),
{
    let mut out: Vec<Notification> = Vec::new();
    let mut i: usize = 0;
    while i < events.len()
        invariant
            i <= events@.len(),
            out@.len() == i,
            forall|j: int| 0 <= j < i ==> out@[j] == notification_of(#[trigger] events@[j]),
        decreases events@.len() - i,
    {
        out.push(dispatch(&events[i]));
        i = i + 1;
    }
    assert(out@ =~= notifications_of(events@));
    out
}

/// The event that a decoded event of the protocol crate stands for: the
/// variant of `rdp::core::event::RdpEvent` with the fields of its payload
/// that the session reads.
pub uninterp spec fn decoded_event(event: rdp::core::event::RdpEvent) -> WireEvent;

/// Moves the fields of an `rdp::core::event::RdpEvent` into the variant of
/// the same name.  The event that comes back depends on the outside event
/// alone; the contract gives it its name and claims no more of it.
#[verifier::external_body]
pub(crate) fn wire_event(event: rdp::core::event::RdpEvent) -> (out: WireEvent)
    ensures
        out == decoded_event(event),
{
    match event {
        rdp::core::event::RdpEvent::Bitmap(b) => WireEvent::Bitmap {
            width: b.width,
            height: b.height,
            data: b.data,
        },
        rdp::core::event::RdpEvent::Pointer(p) => WireEvent::Pointer { x: p.x, y: p.y },
        rdp::core::event::RdpEvent::Key(k) => WireEvent::Key { code: k.code, pressed: k.down },
    }
}

} // verus!
