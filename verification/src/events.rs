use vstd::prelude::*;

use crate::geometry::scale_coord;
use crate::geometry::scaled_coord;
use crate::instance::Instance;
use crate::pool::Pool;
use crate::pool::Ruffle;

verus! {

/// A pointer position scaled by the device pixel ratio, carried exactly in
/// thousandths of a device pixel.
#[derive(Clone, Copy, PartialEq, Eq, Debug)]
pub struct PointerPoint {
    pub x_milli: i64,
    pub y_milli: i64,
}

/// Whether a pointer point is the given surface-local offsets scaled by the
/// given device pixel ratio.
pub open spec fn scaled_point(p: PointerPoint, x: i32, y: i32, ratio_milli: u32) -> bool {
    p.x_milli == scaled_coord(x as int, ratio_milli as int)
    && p.y_milli == scaled_coord(y as int, ratio_milli as int)
}

/// What a pointer-move event asks the host glue to do.
#[derive(Clone, Copy, PartialEq, Eq, Debug)]
pub struct PointerMoveOutcome {
    /// Engine move event to forward; absent for a stale handle.
    pub forward: Option<PointerPoint>,
    /// Suppress the host's default handling of the event.
    pub prevent_default: bool,
}

/// What a surface pointer-down event asks the host glue to do.
#[derive(Clone, Copy, PartialEq, Eq, Debug)]
pub struct PointerDownOutcome {
    /// Resume playback: put the engine session into a playing state.
    pub set_playing: bool,
    /// Begin pointer capture on the surface for this pointer identifier, so
    /// later motion and release events keep targeting the surface.
    pub capture_pointer: Option<i32>,
    /// Engine down event to forward.
    pub forward: Option<PointerPoint>,
    /// Suppress the host's default handling of the event.
    pub prevent_default: bool,
}

/// What a pointer-up event asks the host glue to do.
#[derive(Clone, Copy, PartialEq, Eq, Debug)]
pub struct PointerUpOutcome {
    /// Release pointer capture for this pointer identifier.
    pub release_pointer: Option<i32>,
    /// Engine up event to forward.
    pub forward: Option<PointerPoint>,
    /// Suppress the host's default handling of the event.
    pub prevent_default: bool,
}

/// What a key-down event asks the host glue to do.
#[derive(Clone, Copy, PartialEq, Eq, Debug)]
pub struct KeyDownOutcome {
    /// Push the host-reported key code into the engine's input sub-backend,
    /// so the engine can query raw key state.
    pub forward_raw: bool,
    /// Text-input codepoint to forward, when the pressed key maps to one.
    pub text_input: Option<char>,
    /// Logical key-code event to forward, when the key maps to one.
    pub key_event: Option<u32>,
    /// Suppress the host's default handling of the event.
    pub prevent_default: bool,
}

/// What a key-up event asks the host glue to do.
#[derive(Clone, Copy, PartialEq, Eq, Debug)]
pub struct KeyUpOutcome {
    /// Push the host-reported key code into the engine's input sub-backend.
    pub forward_raw: bool,
    /// Logical key-code event to forward, when the key maps to one.
    pub key_event: Option<u32>,
    /// Suppress the host's default handling of the event.
    pub prevent_default: bool,
}

impl Ruffle {
    /// Surface-scoped pointer-move handler: always forwards a move event with
    /// the surface-local coordinates scaled by the instance's current device
    /// pixel ratio, and suppresses the host's default handling only while
    /// focused. A stale handle is a silent no-op.
    pub fn pointer_move(&self, pool: &Pool, offset_x: i32, offset_y: i32) -> (o: PointerMoveOutcome)
        ensures
            pool.live(*self) ==> {
                let inst = pool.entries()[self.id()];
                &&& o.forward is Some
                &&& scaled_point(o.forward->Some_0, offset_x, offset_y, inst.ratio_milli)
                &&& o.prevent_default == inst.has_focus
            },
            !pool.live(*self) ==> o.forward is None && !o.prevent_default,
    {
        match pool.get(self) {
            Some(inst) => PointerMoveOutcome {
                forward: Some(PointerPoint {
                    x_milli: scale_coord(offset_x, inst.ratio_milli),
                    y_milli: scale_coord(offset_y, inst.ratio_milli),
                }),
                prevent_default: inst.has_focus,
            },
            None => PointerMoveOutcome { forward: None, prevent_default: false },
        }
    }

    /// Surface-scoped pointer-down handler: sets focus, resumes playback,
    /// begins pointer capture for the event's pointer identifier, forwards a
    /// down event with scaled coordinates, and always suppresses the host's
    /// default handling. A stale handle is a silent no-op.
    pub fn pointer_down(&self, pool: &mut Pool, offset_x: i32, offset_y: i32, pointer_id: i32) -> (o: PointerDownOutcome)
        ensures
            old(pool).live(*self) ==> {
                let inst = old(pool).entries()[self.id()];
                &&& final(pool).entries() == old(pool).entries().insert(self.id(), (Instance { has_focus: true, ..inst }))
                &&& o.set_playing
                &&& o.capture_pointer == Some(pointer_id)
                &&& o.forward is Some
                &&& scaled_point(o.forward->Some_0, offset_x, offset_y, inst.ratio_milli)
                &&& o.prevent_default
            },
            !old(pool).live(*self) ==> {
                &&& final(pool).entries() == old(pool).entries()
                &&& o == (PointerDownOutcome {
                    set_playing: false,
                    capture_pointer: None,
                    forward: None,
                    prevent_default: false,
                })
            },
    {
        match pool.get(self) {
            Some(inst) => {
                pool.put(self, Instance { has_focus: true, ..inst });
                PointerDownOutcome {
                    set_playing: true,
                    capture_pointer: Some(pointer_id),
                    forward: Some(PointerPoint {
                        x_milli: scale_coord(offset_x, inst.ratio_milli),
                        y_milli: scale_coord(offset_y, inst.ratio_milli),
                    }),
                    prevent_default: true,
                }
            },
            None => PointerDownOutcome {
                set_playing: false,
                capture_pointer: None,
                forward: None,
                prevent_default: false,
            },
        }
    }

    /// Capture-phase pointer-down handler on the host's global input surface:
    /// unconditionally clears focus. Capture-phase ordering makes it fire
    /// before the surface handler, so a pointer-down that lands on the bound
    /// surface ends the gesture focused (this handler clears focus, the
    /// surface handler then sets it), and a pointer-down anywhere else ends
    /// it unfocused. A stale handle is a silent no-op.
    pub fn global_pointer_down(&self, pool: &mut Pool)
        ensures
            old(pool).live(*self) ==> {
                let inst = old(pool).entries()[self.id()];
                final(pool).entries() == old(pool).entries().insert(self.id(), (Instance { has_focus: false, ..inst }))
            },
            !old(pool).live(*self) ==> final(pool).entries() == old(pool).entries(),
    {
        match pool.get(self) {
            Some(inst) => {
                pool.put(self, Instance { has_focus: false, ..inst });
            },
            None => {},
        }
    }

    /// Surface-scoped pointer-up handler: releases pointer capture for the
    /// event's pointer identifier, forwards an up event with scaled
    /// coordinates, and suppresses the host's default handling only while
    /// focused. A stale handle is a silent no-op.
    pub fn pointer_up(&self, pool: &Pool, offset_x: i32, offset_y: i32, pointer_id: i32) -> (o: PointerUpOutcome)
        ensures
            pool.live(*self) ==> {
                let inst = pool.entries()[self.id()];
                &&& o.release_pointer == Some(pointer_id)
                &&& o.forward is Some
                &&& scaled_point(o.forward->Some_0, offset_x, offset_y, inst.ratio_milli)
                &&& o.prevent_default == inst.has_focus
            },
            !pool.live(*self) ==> {
                &&& o.release_pointer is None
                &&& o.forward is None
                &&& !o.prevent_default
            },
    {
        match pool.get(self) {
            Some(inst) => PointerUpOutcome {
                release_pointer: Some(pointer_id),
                forward: Some(PointerPoint {
                    x_milli: scale_coord(offset_x, inst.ratio_milli),
                    y_milli: scale_coord(offset_y, inst.ratio_milli),
                }),
                prevent_default: inst.has_focus,
            },
            None => PointerUpOutcome { release_pointer: None, forward: None, prevent_default: false },
        }
    }

    /// Global key-down handler: only while focused, pushes the raw key state
    /// into the input sub-backend, forwards a text-input codepoint and/or a
    /// logical key-code event when the pressed key maps to them (the caller's
    /// key tables supply both translations), and suppresses the host's
    /// default handling. While unfocused, nothing at all happens. A stale
    /// handle is a silent no-op.
    pub fn key_down(&self, pool: &Pool, codepoint: Option<char>, key_code: Option<u32>) -> (o: KeyDownOutcome)
        ensures
            pool.live(*self) && pool.entries()[self.id()].has_focus ==> o == (KeyDownOutcome {
                forward_raw: true,
                text_input: codepoint,
                key_event: key_code,
                prevent_default: true,
            }),
            !(pool.live(*self) && pool.entries()[self.id()].has_focus) ==> o == (KeyDownOutcome {
                forward_raw: false,
                text_input: None,
                key_event: None,
                prevent_default: false,
            }),
    {
        match pool.get(self) {
            Some(inst) if inst.has_focus => KeyDownOutcome {
                forward_raw: true,
                text_input: codepoint,
                key_event: key_code,
                prevent_default: true,
            },
            _ => KeyDownOutcome {
                forward_raw: false,
                text_input: None,
                key_event: None,
                prevent_default: false,
            },
        }
    }

    /// Global key-up handler: only while focused, pushes the raw key state
    /// into the input sub-backend and forwards a logical key-code event when
    /// the key maps to one. The host's default handling is suppressed whether
    /// or not the instance is focused, or even live — an asymmetry with
    /// key-down that is preserved deliberately.
    pub fn key_up(&self, pool: &Pool, key_code: Option<u32>) -> (o: KeyUpOutcome)
        ensures
            o.prevent_default,
            pool.live(*self) && pool.entries()[self.id()].has_focus ==> o.forward_raw && o.key_event == key_code,
            !(pool.live(*self) && pool.entries()[self.id()].has_focus) ==> !o.forward_raw && o.key_event is None,
    {
        match pool.get(self) {
            Some(inst) if inst.has_focus => KeyUpOutcome {
                forward_raw: true,
                key_event: key_code,
                prevent_default: true,
            },
            _ => KeyUpOutcome { forward_raw: false, key_event: None, prevent_default: true },
        }
    }
}

} // verus!
