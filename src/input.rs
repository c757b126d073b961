//! One frame's input events, and their translation into the coordinates of
//! an embedded interface.
use vstd::prelude::*;
use crate::geometry::{Pos, Rect};

verus! {

/// A mouse button, or a touch acting as one.
#[derive(Clone, Copy, Debug, PartialEq, Eq, Structural)]
pub enum PointerButton {
    Primary,
    Secondary,
    Middle,
    Extra1,
    Extra2,
}

/// State of the modifier keys when an event happened.
#[derive(Clone, Copy, Debug, PartialEq, Eq, Structural)]
pub struct Modifiers {
    pub alt: bool,
    pub ctrl: bool,
    pub shift: bool,
    pub mac_cmd: bool,
    pub command: bool,
}

/// An input event, as far as the translation is concerned.
#[derive(Clone, Copy, Debug, PartialEq, Eq, Structural)]
pub enum InputEvent {
    /// The pointer moved to `Pos`.
    PointerMoved(Pos),
    /// A button was pressed or released with the pointer at `pos`.
    PointerButton { pos: Pos, button: PointerButton, pressed: bool, modifiers: Modifiers },
    /// Any event that carries no pointer position; it is passed on untouched.
    Other,
}

/// A frame's input: the screen rectangle the interface is told it owns, and
/// the events of the frame in order.
#[derive(Debug)]
pub struct FrameInput {
    pub screen_rect: Option<Rect>,
    pub events: Vec<InputEvent>,
}

/// What a `FrameInput` holds, as mathematical values.
pub struct InputView {
    pub screen_rect: Option<Rect>,
    pub events: Seq<InputEvent>,
}

impl View for FrameInput {
    type V = InputView;

    open spec fn view(&self) -> InputView {
        InputView { screen_rect: self.screen_rect, events: self.events@ }
    }
}

impl InputEvent {
    /// The pointer position the event carries, if any.
    pub open spec fn pointer_pos(self) -> Option<Pos> {
        match self {
            InputEvent::PointerMoved(p) => Some(p),
            InputEvent::PointerButton { pos, .. } => Some(pos),
            InputEvent::Other => None,
        }
    }

    /// The event with its pointer position, if it has one, replaced by `p`.
    pub open spec fn with_pointer_pos(self, p: Pos) -> InputEvent {
        match self {
            InputEvent::PointerMoved(_) => InputEvent::PointerMoved(p),
            InputEvent::PointerButton { pos, button, pressed, modifiers } => {
                InputEvent::PointerButton { pos: p, button, pressed, modifiers }
            },
            InputEvent::Other => InputEvent::Other,
        }
    }

    /// The event's pointer position, if it has one, is within `COORD_LIMIT`.
    pub open spec fn in_range(self) -> bool {
        match self.pointer_pos() {
            Some(p) => p.in_range(),
            None => true,
        }
    }

    /// The event as seen from `origin`.
    pub open spec fn translated(self, origin: Pos) -> InputEvent {
        match self.pointer_pos() {
            Some(p) => self.with_pointer_pos(p.shifted(origin)),
            None => self,
        }
    }

    /// Whether the event's pointer position, if any, is within `COORD_LIMIT`.
    pub fn is_in_range(&self) -> (r: bool)
        ensures
            r == self.in_range(),
    {
        match self {
            InputEvent::PointerMoved(p) => p.is_in_range(),
            InputEvent::PointerButton { pos, .. } => pos.is_in_range(),
            InputEvent::Other => true,
        }
    }

    /// The event as seen from `origin`: a pointer position has `origin`
    /// subtracted, unclamped; every other field, and every other kind of
    /// event, is left as it is.
    pub fn translate(&self, origin: Pos) -> (r: InputEvent)
        requires
            self.in_range(),
            origin.in_range(),
        ensures
            r == self.translated(origin),
    {
        match *self {
            InputEvent::PointerMoved(p) => InputEvent::PointerMoved(p.relative_to(origin)),
            InputEvent::PointerButton { pos, button, pressed, modifiers } => {
                InputEvent::PointerButton { pos: pos.relative_to(origin), button, pressed, modifiers }
            },
            InputEvent::Other => InputEvent::Other,
        }
    }
}

/// Every event of `events` as seen from `origin`, in the same order.
pub open spec fn translated_events(events: Seq<InputEvent>, origin: Pos) -> Seq<InputEvent> {
    events.map_values(|e: InputEvent| e.translated(origin))
}

impl InputView {
    /// Every pointer position in the events is within `COORD_LIMIT`.
    pub open spec fn in_range(self) -> bool {
        forall|i: int| 0 <= i < self.events.len() ==> (#[trigger] self.events[i]).in_range()
    }

    /// The input as the embedded interface receives it: it owns `screen`,
    /// and its pointer positions are taken relative to `origin`.
    pub open spec fn translated(self, origin: Pos, screen: Rect) -> InputView {
        InputView { screen_rect: Some(screen), events: translated_events(self.events, origin) }
    }
}

impl FrameInput {
    /// Whether every pointer position in the events is within `COORD_LIMIT`.
    pub fn is_in_range(&self) -> (r: bool)
        ensures
            r == self@.in_range(),
    {
        let n = self.events.len();
        let mut i: usize = 0;
        while i < n
            invariant
                n == self.events@.len(),
                i <= n,
                forall|j: int| 0 <= j < i ==> (#[trigger] self.events@[j]).in_range(),
            decreases n - i,
        {
            if !self.events[i].is_in_range() {
                assert(!self@.events[i as int].in_range());
                return false;
            }
            i += 1;
        }
        true
    }

    /// Rewrites the input for an embedded interface shown with its top left
    /// corner at `origin`: the interface is told it owns `screen`, and every
    /// pointer position has `origin` subtracted. Nothing else changes.
    pub fn translate(&mut self, origin: Pos, screen: Rect)
        requires
            old(self)@.in_range(),
            origin.in_range(),
        ensures
            final(self)@ == old(self)@.translated(origin, screen),
    {
        let n = self.events.len();
        let mut i: usize = 0;
        while i < n
            invariant
                n == old(self).events@.len(),
                n == self.events@.len(),
                i <= n,
                old(self)@.in_range(),
                origin.in_range(),
                forall|j: int|
                    0 <= j < i ==> #[trigger] self.events@[j] == old(self).events@[j].translated(
                        origin,
                    ),
                forall|j: int| i <= j < n ==> #[trigger] self.events@[j] == old(self).events@[j],
            decreases n - i,
        {
            assert(old(self)@.events[i as int].in_range());
            let e = self.events[i].translate(origin);
            self.events.set(i, e);
            i += 1;
        }
        self.screen_rect = Some(screen);
        assert(self.events@ =~= translated_events(old(self).events@, origin));
    }
}

} // verus!
