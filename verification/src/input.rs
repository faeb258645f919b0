//! Decoding of remote control-input events.
//!
//! Each text message on a peer's side channel carries one JSON object with a
//! `type` tag naming the event and the fields that event needs: coordinates
//! and wheel deltas as numbers (held in fixed-point milli-units), a mouse
//! button as a small integer, a key code as a string. Fields may come in any
//! order, with any whitespace; a message that is not exactly one recognized
//! event — unknown tag, unknown or repeated or missing fields, a value of
//! the wrong shape, trailing text — is malformed. Malformed messages are
//! discarded and never terminate the channel; decoding one message never
//! depends on any message before it.

use vstd::prelude::*;

use crate::json::{
    parse_number_at, parse_string_at, skip_ws, spec_parse_number, spec_parse_string, spec_skip_ws,
    SpecNum, JsonNum,
};

verus! {

/// The recognized field names of an input-event object.
#[derive(Clone, Copy, PartialEq, Eq, Structural)]
pub enum KeyKind {
    KType,
    KX,
    KY,
    KDx,
    KDy,
    KButton,
    KCode,
    KOther,
}

/// The recognized values of the `type` tag.
#[derive(Clone, Copy, PartialEq, Eq, Structural)]
pub enum TagKind {
    TMouseMove,
    TMouseDown,
    TMouseUp,
    TMouseScroll,
    TKeyDown,
    TKeyUp,
    TOther,
}

/// Which field a decoded key name denotes. The byte values spell `type`,
/// `x`, `y`, `dx`, `dy`, `button` and `code` in ASCII.
pub open spec fn spec_key_kind(s: Seq<u8>) -> KeyKind {
    if s.len() == 1 && s[0] == 120 {
        KeyKind::KX
    } else if s.len() == 1 && s[0] == 121 {
        KeyKind::KY
    } else if s.len() == 2 && s[0] == 100 && s[1] == 120 {
        KeyKind::KDx
    } else if s.len() == 2 && s[0] == 100 && s[1] == 121 {
        KeyKind::KDy
    } else if s.len() == 4 && s[0] == 116 && s[1] == 121 && s[2] == 112 && s[3] == 101 {
        KeyKind::KType
    } else if s.len() == 4 && s[0] == 99 && s[1] == 111 && s[2] == 100 && s[3] == 101 {
        KeyKind::KCode
    } else if s.len() == 6 && s[0] == 98 && s[1] == 117 && s[2] == 116 && s[3] == 116 && s[4]
        == 111 && s[5] == 110 {
        KeyKind::KButton
    } else {
        KeyKind::KOther
    }
}

/// Which event a decoded `type` value names. The byte values spell
/// `mouse_move`, `mouse_down`, `mouse_up`, `mouse_scroll`, `key_down` and
/// `key_up` in ASCII.
pub open spec fn spec_tag_kind(s: Seq<u8>) -> TagKind {
    if s.len() == 10 && s[0] == 109 && s[1] == 111 && s[2] == 117 && s[3] == 115 && s[4] == 101
        && s[5] == 95 && s[6] == 109 && s[7] == 111 && s[8] == 118 && s[9] == 101 {
        TagKind::TMouseMove
    } else if s.len() == 10 && s[0] == 109 && s[1] == 111 && s[2] == 117 && s[3] == 115 && s[4]
        == 101 && s[5] == 95 && s[6] == 100 && s[7] == 111 && s[8] == 119 && s[9] == 110 {
        TagKind::TMouseDown
    } else if s.len() == 8 && s[0] == 109 && s[1] == 111 && s[2] == 117 && s[3] == 115 && s[4]
        == 101 && s[5] == 95 && s[6] == 117 && s[7] == 112 {
        TagKind::TMouseUp
    } else if s.len() == 12 && s[0] == 109 && s[1] == 111 && s[2] == 117 && s[3] == 115 && s[4]
        == 101 && s[5] == 95 && s[6] == 115 && s[7] == 99 && s[8] == 114 && s[9] == 111 && s[10]
        == 108 && s[11] == 108 {
        TagKind::TMouseScroll
    } else if s.len() == 8 && s[0] == 107 && s[1] == 101 && s[2] == 121 && s[3] == 95 && s[4]
        == 100 && s[5] == 111 && s[6] == 119 && s[7] == 110 {
        TagKind::TKeyDown
    } else if s.len() == 6 && s[0] == 107 && s[1] == 101 && s[2] == 121 && s[3] == 95 && s[4]
        == 117 && s[5] == 112 {
        TagKind::TKeyUp
    } else {
        TagKind::TOther
    }
}

fn key_kind(k: &Vec<u8>) -> (r: KeyKind)
    ensures
        r == spec_key_kind(k@),
{
    if k.len() == 1 && k[0] == 120 {
        KeyKind::KX
    } else if k.len() == 1 && k[0] == 121 {
        KeyKind::KY
    } else if k.len() == 2 && k[0] == 100 && k[1] == 120 {
        KeyKind::KDx
    } else if k.len() == 2 && k[0] == 100 && k[1] == 121 {
        KeyKind::KDy
    } else if k.len() == 4 && k[0] == 116 && k[1] == 121 && k[2] == 112 && k[3] == 101 {
        KeyKind::KType
    } else if k.len() == 4 && k[0] == 99 && k[1] == 111 && k[2] == 100 && k[3] == 101 {
        KeyKind::KCode
    } else if k.len() == 6 && k[0] == 98 && k[1] == 117 && k[2] == 116 && k[3] == 116 && k[4]
        == 111 && k[5] == 110 {
        KeyKind::KButton
    } else {
        KeyKind::KOther
    }
}

fn tag_kind(t: &Vec<u8>) -> (r: TagKind)
    ensures
        r == spec_tag_kind(t@),
{
    if t.len() == 10 && t[0] == 109 && t[1] == 111 && t[2] == 117 && t[3] == 115 && t[4] == 101
        && t[5] == 95 && t[6] == 109 && t[7] == 111 && t[8] == 118 && t[9] == 101 {
        TagKind::TMouseMove
    } else if t.len() == 10 && t[0] == 109 && t[1] == 111 && t[2] == 117 && t[3] == 115 && t[4]
        == 101 && t[5] == 95 && t[6] == 100 && t[7] == 111 && t[8] == 119 && t[9] == 110 {
        TagKind::TMouseDown
    } else if t.len() == 8 && t[0] == 109 && t[1] == 111 && t[2] == 117 && t[3] == 115 && t[4]
        == 101 && t[5] == 95 && t[6] == 117 && t[7] == 112 {
        TagKind::TMouseUp
    } else if t.len() == 12 && t[0] == 109 && t[1] == 111 && t[2] == 117 && t[3] == 115 && t[4]
        == 101 && t[5] == 95 && t[6] == 115 && t[7] == 99 && t[8] == 114 && t[9] == 111 && t[10]
        == 108 && t[11] == 108 {
        TagKind::TMouseScroll
    } else if t.len() == 8 && t[0] == 107 && t[1] == 101 && t[2] == 121 && t[3] == 95 && t[4]
        == 100 && t[5] == 111 && t[6] == 119 && t[7] == 110 {
        TagKind::TKeyDown
    } else if t.len() == 6 && t[0] == 107 && t[1] == 101 && t[2] == 121 && t[3] == 95 && t[4]
        == 117 && t[5] == 112 {
        TagKind::TKeyUp
    } else {
        TagKind::TOther
    }
}

/// Field values collected while walking one event object.
pub struct SpecSlots {
    pub typ: Option<TagKind>,
    pub x: Option<SpecNum>,
    pub y: Option<SpecNum>,
    pub dx: Option<SpecNum>,
    pub dy: Option<SpecNum>,
    pub button: Option<SpecNum>,
    pub code: Option<Seq<u8>>,
}

/// No field seen yet.
pub open spec fn empty_spec_slots() -> SpecSlots {
    SpecSlots { typ: None, x: None, y: None, dx: None, dy: None, button: None, code: None }
}

/// Parse one `"key": value` pair starting at `i` (leading whitespace
/// allowed) and record it. A repeated field, an unrecognized field, an
/// unrecognized tag or a value of the wrong shape is malformed.
pub open spec fn spec_field(s: Seq<u8>, i: int, sl: SpecSlots) -> Option<(SpecSlots, int)> {
    let ik = spec_skip_ws(s, i);
    match spec_parse_string(s, ik) {
        None => None,
        Some((key, j1)) => {
            let j2 = spec_skip_ws(s, j1);
            if !(0 <= j2 < s.len() && s[j2] == 0x3a) {
                None
            } else {
                let j3 = spec_skip_ws(s, j2 + 1);
                match spec_key_kind(key) {
                    KeyKind::KType => match spec_parse_string(s, j3) {
                        None => None,
                        Some((tv, j4)) => if sl.typ is Some || spec_tag_kind(tv) is TOther {
                            None
                        } else {
                            Some((SpecSlots { typ: Some(spec_tag_kind(tv)), ..sl }, j4))
                        },
                    },
                    KeyKind::KCode => match spec_parse_string(s, j3) {
                        None => None,
                        Some((cv, j4)) => if sl.code is Some {
                            None
                        } else {
                            Some((SpecSlots { code: Some(cv), ..sl }, j4))
                        },
                    },
                    KeyKind::KX => match spec_parse_number(s, j3) {
                        None => None,
                        Some((n, j4)) => if sl.x is Some {
                            None
                        } else {
                            Some((SpecSlots { x: Some(n), ..sl }, j4))
                        },
                    },
                    KeyKind::KY => match spec_parse_number(s, j3) {
                        None => None,
                        Some((n, j4)) => if sl.y is Some {
                            None
                        } else {
                            Some((SpecSlots { y: Some(n), ..sl }, j4))
                        },
                    },
                    KeyKind::KDx => match spec_parse_number(s, j3) {
                        None => None,
                        Some((n, j4)) => if sl.dx is Some {
                            None
                        } else {
                            Some((SpecSlots { dx: Some(n), ..sl }, j4))
                        },
                    },
                    KeyKind::KDy => match spec_parse_number(s, j3) {
                        None => None,
                        Some((n, j4)) => if sl.dy is Some {
                            None
                        } else {
                            Some((SpecSlots { dy: Some(n), ..sl }, j4))
                        },
                    },
                    KeyKind::KButton => match spec_parse_number(s, j3) {
                        None => None,
                        Some((n, j4)) => if sl.button is Some {
                            None
                        } else {
                            Some((SpecSlots { button: Some(n), ..sl }, j4))
                        },
                    },
                    KeyKind::KOther => None,
                }
            }
        },
    }
}

/// Parse fields separated by commas until the closing brace. `fuel` bounds
/// the number of fields; the callers pass the message length, which no
/// object can exhaust.
pub open spec fn spec_fields(s: Seq<u8>, i: int, sl: SpecSlots, fuel: int) -> Option<
    (SpecSlots, int),
>
    decreases fuel,
{
    if fuel <= 0 {
        None
    } else {
        match spec_field(s, i, sl) {
            None => None,
            Some((sl2, j4)) => {
                let j5 = spec_skip_ws(s, j4);
                if !(0 <= j5 < s.len()) {
                    None
                } else if s[j5] == 0x2c {
                    spec_fields(s, j5 + 1, sl2, fuel - 1)
                } else if s[j5] == 0x7d {
                    Some((sl2, j5 + 1))
                } else {
                    None
                }
            },
        }
    }
}

/// Spec-level view of one decoded input event. Coordinates and wheel deltas
/// are in milli-units; the button is the plain integer from the wire; the
/// key code is the decoded string.
pub enum InputEventView {
    MouseMove { x: int, y: int },
    MouseDown { x: int, y: int, button: int },
    MouseUp { x: int, y: int, button: int },
    MouseScroll { dx: int, dy: int },
    KeyDown { code: Seq<u8> },
    KeyUp { code: Seq<u8> },
}

/// Interpret the collected fields: the tag must be present, the fields must
/// be exactly those of the tagged variant, and a button must be a plain
/// integer in `0 ..= 255`.
pub open spec fn spec_event_of_slots(sl: SpecSlots) -> Option<InputEventView> {
    match sl.typ {
        None => None,
        Some(tag) => match tag {
            TagKind::TMouseMove => match (sl.x, sl.y, sl.dx, sl.dy, sl.button, sl.code) {
                (Some(x), Some(y), None, None, None, None) => Some(
                    InputEventView::MouseMove { x: x.milli, y: y.milli },
                ),
                _ => None,
            },
            TagKind::TMouseDown => match (sl.x, sl.y, sl.dx, sl.dy, sl.button, sl.code) {
                (Some(x), Some(y), None, None, Some(b), None) => if b.integral && 0 <= b.milli
                    <= 255000 {
                    Some(
                        InputEventView::MouseDown { x: x.milli, y: y.milli, button: b.milli / 1000 },
                    )
                } else {
                    None
                },
                _ => None,
            },
            TagKind::TMouseUp => match (sl.x, sl.y, sl.dx, sl.dy, sl.button, sl.code) {
                (Some(x), Some(y), None, None, Some(b), None) => if b.integral && 0 <= b.milli
                    <= 255000 {
                    Some(InputEventView::MouseUp { x: x.milli, y: y.milli, button: b.milli / 1000 })
                } else {
                    None
                },
                _ => None,
            },
            TagKind::TMouseScroll => match (sl.x, sl.y, sl.dx, sl.dy, sl.button, sl.code) {
                (None, None, Some(dx), Some(dy), None, None) => Some(
                    InputEventView::MouseScroll { dx: dx.milli, dy: dy.milli },
                ),
                _ => None,
            },
            TagKind::TKeyDown => match (sl.x, sl.y, sl.dx, sl.dy, sl.button, sl.code) {
                (None, None, None, None, None, Some(code)) => Some(
                    InputEventView::KeyDown { code },
                ),
                _ => None,
            },
            TagKind::TKeyUp => match (sl.x, sl.y, sl.dx, sl.dy, sl.button, sl.code) {
                (None, None, None, None, None, Some(code)) => Some(InputEventView::KeyUp { code }),
                _ => None,
            },
            TagKind::TOther => None,
        },
    }
}

/// What one complete message decodes to: one object, nothing but whitespace
/// around it, interpreted as a tagged event.
pub open spec fn spec_parse_event(msg: Seq<u8>) -> Option<InputEventView> {
    let i0 = spec_skip_ws(msg, 0);
    if !(0 <= i0 < msg.len() && msg[i0] == 0x7b) {
        None
    } else {
        match spec_fields(msg, i0 + 1, empty_spec_slots(), msg.len() as int) {
            None => None,
            Some((sl, j)) => {
                if spec_skip_ws(msg, j) == msg.len() {
                    spec_event_of_slots(sl)
                } else {
                    None
                }
            },
        }
    }
}

/// One remote input event, decoded. Coordinates and wheel deltas are held in
/// fixed-point milli-units (the wire value times 1000); the key code is the
/// decoded string's bytes.
#[derive(PartialEq, Eq, Debug)]
pub enum InputEvent {
    MouseMove { x: i64, y: i64 },
    MouseDown { x: i64, y: i64, button: u8 },
    MouseUp { x: i64, y: i64, button: u8 },
    MouseScroll { dx: i64, dy: i64 },
    KeyDown { code: Vec<u8> },
    KeyUp { code: Vec<u8> },
}

impl View for InputEvent {
    type V = InputEventView;

    open spec fn view(&self) -> InputEventView {
        match self {
            InputEvent::MouseMove { x, y } => InputEventView::MouseMove {
                x: *x as int,
                y: *y as int,
            },
            InputEvent::MouseDown { x, y, button } => InputEventView::MouseDown {
                x: *x as int,
                y: *y as int,
                button: *button as int,
            },
            InputEvent::MouseUp { x, y, button } => InputEventView::MouseUp {
                x: *x as int,
                y: *y as int,
                button: *button as int,
            },
            InputEvent::MouseScroll { dx, dy } => InputEventView::MouseScroll {
                dx: *dx as int,
                dy: *dy as int,
            },
            InputEvent::KeyDown { code } => InputEventView::KeyDown { code: code@ },
            InputEvent::KeyUp { code } => InputEventView::KeyUp { code: code@ },
        }
    }
}

/// Executable mirror of [`SpecSlots`].
struct Slots {
    typ: Option<TagKind>,
    x: Option<JsonNum>,
    y: Option<JsonNum>,
    dx: Option<JsonNum>,
    dy: Option<JsonNum>,
    button: Option<JsonNum>,
    code: Option<Vec<u8>>,
}

impl View for Slots {
    type V = SpecSlots;

    closed spec fn view(&self) -> SpecSlots {
        SpecSlots {
            typ: self.typ,
            x: match self.x {
                Some(n) => Some(n@),
                None => None,
            },
            y: match self.y {
                Some(n) => Some(n@),
                None => None,
            },
            dx: match self.dx {
                Some(n) => Some(n@),
                None => None,
            },
            dy: match self.dy {
                Some(n) => Some(n@),
                None => None,
            },
            button: match self.button {
                Some(n) => Some(n@),
                None => None,
            },
            code: match &self.code {
                Some(c) => Some(c@),
                None => None,
            },
        }
    }
}

fn parse_field(s: &[u8], i: usize, sl: Slots) -> (r: Option<(Slots, usize)>)
    requires
        i <= s@.len(),
    ensures
        match r {
            Some(p) => {
                &&& spec_field(s@, i as int, sl@) == Some((p.0@, p.1 as int))
                &&& p.1 <= s@.len()
            },
            None => spec_field(s@, i as int, sl@) is None,
        },
{
    let ik = skip_ws(s, i);
    match parse_string_at(s, ik) {
        None => None,
        Some((key, j1)) => {
            let j2 = skip_ws(s, j1);
            if j2 >= s.len() || s[j2] != 0x3a {
                return None;
            }
            let j3 = skip_ws(s, j2 + 1);
            match key_kind(&key) {
                KeyKind::KType => match parse_string_at(s, j3) {
                    None => None,
                    Some((tv, j4)) => {
                        let tag = tag_kind(&tv);
                        if sl.typ.is_some() || matches!(tag, TagKind::TOther) {
                            None
                        } else {
                            Some((Slots { typ: Some(tag), ..sl }, j4))
                        }
                    },
                },
                KeyKind::KCode => match parse_string_at(s, j3) {
                    None => None,
                    Some((cv, j4)) => {
                        if sl.code.is_some() {
                            None
                        } else {
                            Some((Slots { code: Some(cv), ..sl }, j4))
                        }
                    },
                },
                KeyKind::KX => match parse_number_at(s, j3) {
                    None => None,
                    Some((n, j4)) => {
                        if sl.x.is_some() {
                            None
                        } else {
                            Some((Slots { x: Some(n), ..sl }, j4))
                        }
                    },
                },
                KeyKind::KY => match parse_number_at(s, j3) {
                    None => None,
                    Some((n, j4)) => {
                        if sl.y.is_some() {
                            None
                        } else {
                            Some((Slots { y: Some(n), ..sl }, j4))
                        }
                    },
                },
                KeyKind::KDx => match parse_number_at(s, j3) {
                    None => None,
                    Some((n, j4)) => {
                        if sl.dx.is_some() {
                            None
                        } else {
                            Some((Slots { dx: Some(n), ..sl }, j4))
                        }
                    },
                },
                KeyKind::KDy => match parse_number_at(s, j3) {
                    None => None,
                    Some((n, j4)) => {
                        if sl.dy.is_some() {
                            None
                        } else {
                            Some((Slots { dy: Some(n), ..sl }, j4))
                        }
                    },
                },
                KeyKind::KButton => match parse_number_at(s, j3) {
                    None => None,
                    Some((n, j4)) => {
                        if sl.button.is_some() {
                            None
                        } else {
                            Some((Slots { button: Some(n), ..sl }, j4))
                        }
                    },
                },
                KeyKind::KOther => None,
            }
        },
    }
}

fn event_of_slots(sl: Slots) -> (r: Option<InputEvent>)
    ensures
        match r {
            Some(ev) => spec_event_of_slots(sl@) == Some(ev@),
            None => spec_event_of_slots(sl@) is None,
        },
{
    let Slots { typ, x, y, dx, dy, button, code } = sl;
    match typ {
        None => None,
        Some(tag) => match tag {
            TagKind::TMouseMove => match (x, y, dx, dy, button, code) {
                (Some(xn), Some(yn), None, None, None, None) => Some(
                    InputEvent::MouseMove { x: xn.milli, y: yn.milli },
                ),
                _ => None,
            },
            TagKind::TMouseDown => match (x, y, dx, dy, button, code) {
                (Some(xn), Some(yn), None, None, Some(b), None) => {
                    if b.integral && b.milli >= 0 && b.milli <= 255000 {
                        Some(
                            InputEvent::MouseDown {
                                x: xn.milli,
                                y: yn.milli,
                                button: (b.milli / 1000) as u8,
                            },
                        )
                    } else {
                        None
                    }
                },
                _ => None,
            },
            TagKind::TMouseUp => match (x, y, dx, dy, button, code) {
                (Some(xn), Some(yn), None, None, Some(b), None) => {
                    if b.integral && b.milli >= 0 && b.milli <= 255000 {
                        Some(
                            InputEvent::MouseUp {
                                x: xn.milli,
                                y: yn.milli,
                                button: (b.milli / 1000) as u8,
                            },
                        )
                    } else {
                        None
                    }
                },
                _ => None,
            },
            TagKind::TMouseScroll => match (x, y, dx, dy, button, code) {
                (None, None, Some(dxn), Some(dyn_), None, None) => Some(
                    InputEvent::MouseScroll { dx: dxn.milli, dy: dyn_.milli },
                ),
                _ => None,
            },
            TagKind::TKeyDown => match (x, y, dx, dy, button, code) {
                (None, None, None, None, None, Some(c)) => Some(InputEvent::KeyDown { code: c }),
                _ => None,
            },
            TagKind::TKeyUp => match (x, y, dx, dy, button, code) {
                (None, None, None, None, None, Some(c)) => Some(InputEvent::KeyUp { code: c }),
                _ => None,
            },
            TagKind::TOther => None,
        },
    }
}

/// Decode one channel message into an input event; `None` when the message
/// is malformed in any way.
pub fn parse_input_event(msg: &[u8]) -> (r: Option<InputEvent>)
    ensures
        match r {
            Some(ev) => spec_parse_event(msg@) == Some(ev@),
            None => spec_parse_event(msg@) is None,
        },
{
    let i0 = skip_ws(msg, 0);
    if i0 >= msg.len() || msg[i0] != 0x7b {
        return None;
    }
    let mut sl = Slots { typ: None, x: None, y: None, dx: None, dy: None, button: None, code: None };
    let mut pos: usize = i0 + 1;
    let mut fuel: usize = msg.len();
    loop
        invariant
            pos <= msg@.len(),
            fuel <= msg@.len(),
            msg@.len() <= usize::MAX,
            0 <= spec_skip_ws(msg@, 0) < msg@.len(),
            msg@[spec_skip_ws(msg@, 0)] == 0x7b,
            spec_fields(msg@, spec_skip_ws(msg@, 0) + 1, empty_spec_slots(), msg@.len() as int)
                == spec_fields(msg@, pos as int, sl@, fuel as int),
        decreases fuel,
    {
        if fuel == 0 {
            return None;
        }
        match parse_field(msg, pos, sl) {
            None => {
                return None;
            },
            Some((sl2, j4)) => {
                let j5 = skip_ws(msg, j4);
                if j5 >= msg.len() {
                    return None;
                }
                if msg[j5] == 0x2c {
                    sl = sl2;
                    pos = j5 + 1;
                    fuel = fuel - 1;
                } else if msg[j5] == 0x7d {
                    // Object complete: nothing but whitespace may follow.
                    let j6 = skip_ws(msg, j5 + 1);
                    if j6 != msg.len() {
                        return None;
                    }
                    return event_of_slots(sl2);
                } else {
                    return None;
                }
            },
        }
    }
}

/// Handler state for one peer's input channel: whether the channel is open
/// and how many events were dispatched to the injection collaborator.
pub struct InputChannelHandler {
    pub channel_open: bool,
    pub dispatched: Ghost<int>,
}

impl InputChannelHandler {
    /// A fresh handler for a newly established channel.
    pub fn new() -> (h: InputChannelHandler)
        ensures
            h.channel_open,
            h.dispatched@ == 0,
    {
        InputChannelHandler { channel_open: true, dispatched: Ghost(0) }
    }

    /// Consume one message: decode it and, when it is a well-formed event,
    /// hand it out for injection — exactly once per message, in arrival
    /// order. A malformed message is discarded; the channel always stays
    /// open, and what a message decodes to depends on that message alone,
    /// never on earlier traffic.
    pub fn handle_message(&mut self, msg: &[u8]) -> (r: Option<InputEvent>)
        requires
            old(self).channel_open,
        ensures
            final(self).channel_open,
            match r {
                Some(ev) => {
                    &&& spec_parse_event(msg@) == Some(ev@)
                    &&& final(self).dispatched@ == old(self).dispatched@ + 1
                },
                None => {
                    &&& spec_parse_event(msg@) is None
                    &&& final(self).dispatched@ == old(self).dispatched@
                },
            },
    {
        let r = parse_input_event(msg);
        if r.is_some() {
            self.dispatched = Ghost(self.dispatched@ + 1);
        }
        r
    }
}

} // verus!
