//! The input translator and frame-lifecycle controller: one struct that owns
//! the accumulated per-frame input state, translates each platform event
//! into normalized UI events, and drives the per-frame begin/end lifecycle.
//!
//! The caller owns the windowing and GUI collaborators. It hands each
//! platform event to [`Platform::handle_event`] as plain values, pushes what
//! [`Platform::begin_frame`] returns into the GUI library, and performs the
//! side effects that [`Platform::end_frame`] decides (clipboard writes, at
//! most one cursor-resource creation).

use vstd::prelude::*;
use crate::input::{
    MouseButton, PlatformEvent, PointerButton, Pos, UiEvent, SCROLL_POINTS_PER_NOTCH, map_button,
    spec_map_button, spec_to_logical, to_logical,
};
use crate::keymap::{Key, key_for, spec_key_for};
use crate::modifiers::{Modifiers, decode_modifiers, spec_decode_modifiers};
use crate::output::{
    FrameEffects, GuiOutput, SystemCursor, collect_copy_texts, copy_texts, map_cursor,
    spec_map_cursor,
};

verus! {

/// What `begin_frame` hands over for the GUI library's frame-start call: the
/// whole pending buffer in arrival order, the logical screen size, the scale
/// factor, the frame timestamp and the current modifier state.
pub struct FrameInput {
    /// The accumulated normalized events, in arrival order.
    pub events: Vec<UiEvent>,
    /// Logical screen width, in hundredths of a point.
    pub screen_width: u64,
    /// Logical screen height, in hundredths of a point.
    pub screen_height: u64,
    /// Pixels per logical point, in hundredths.
    pub scale_centi: u32,
    /// Elapsed time since construction, in microseconds.
    pub time_micros: u64,
    /// The modifier state from the most recent key event.
    pub modifiers: Modifiers,
}

/// The bridge state: pending input, pointer and modifier state, display
/// metrics and the cursor bookkeeping.
pub struct Platform {
    /// Normalized events accumulated since the last frame began.
    pub pending: Vec<UiEvent>,
    /// Current pointer position in logical coordinates (hundredths of a
    /// point), updated on every motion event.
    pub pointer_pos: Pos,
    /// Modifier state decoded from the most recent key event.
    pub modifiers: Modifiers,
    /// Physical window width in pixels, replaced on resize and at frame
    /// begin.
    pub screen_width: u32,
    /// Physical window height in pixels.
    pub screen_height: u32,
    /// Pixels per logical point, in hundredths; always at least 1.
    pub scale_centi: u32,
    /// Identifier of the system cursor currently applied.
    pub system_cursor: SystemCursor,
    /// Whether a platform cursor resource is held; when the initial creation
    /// failed, cursor updates are skipped for good.
    pub has_cursor: bool,
}

/// The clipboard intent a ctrl chord emits before the key event itself:
/// copy for C, cut for X, and paste for V when the clipboard holds text.
pub open spec fn spec_clipboard_intents(key: Key, mods: Modifiers, clipboard: Option<String>) -> Seq<
    UiEvent,
> {
    if mods.ctrl {
        if key == Key::C {
            seq![UiEvent::Copy]
        } else if key == Key::X {
            seq![UiEvent::Cut]
        } else if key == Key::V {
            match clipboard {
                Some(text) => seq![UiEvent::Paste { text }],
                None => Seq::empty(),
            }
        } else {
            Seq::empty()
        }
    } else {
        Seq::empty()
    }
}

/// What a key-down with code `code`, raw bitmask `keymod` and the given
/// clipboard contents appends to the pending buffer: the clipboard intent,
/// if any, then the key-pressed event — nothing when the code has no
/// mapping.
pub open spec fn spec_key_down_events(code: u32, keymod: u16, clipboard: Option<String>) -> Seq<
    UiEvent,
> {
    let mods = spec_decode_modifiers(keymod);
    match spec_key_for(code) {
        Some(key) => spec_clipboard_intents(key, mods, clipboard).push(
            UiEvent::Key { key, pressed: true, modifiers: mods },
        ),
        None => Seq::empty(),
    }
}

/// What a key-up appends: the key-released event when the code maps, and no
/// clipboard handling.
pub open spec fn spec_key_up_events(code: u32, keymod: u16) -> Seq<UiEvent> {
    let mods = spec_decode_modifiers(keymod);
    match spec_key_for(code) {
        Some(key) => seq![UiEvent::Key { key, pressed: false, modifiers: mods }],
        None => Seq::empty(),
    }
}

impl Platform {
    /// Well-formedness: the scale factor is positive.
    pub open spec fn inv(self) -> bool {
        1 <= self.scale_centi
    }

    /// `post` equals `pre` in every component, the pending buffer included.
    pub open spec fn same_state(pre: Platform, post: Platform) -> bool {
        &&& post.pending@ == pre.pending@
        &&& post.pointer_pos == pre.pointer_pos
        &&& post.modifiers == pre.modifiers
        &&& post.screen_width == pre.screen_width
        &&& post.screen_height == pre.screen_height
        &&& post.scale_centi == pre.scale_centi
        &&& post.system_cursor == pre.system_cursor
        &&& post.has_cursor == pre.has_cursor
    }

    /// `post` is `pre` with `tail` appended to the pending buffer and
    /// nothing else changed.
    pub open spec fn appends(pre: Platform, post: Platform, tail: Seq<UiEvent>) -> bool {
        &&& post.pending@ == pre.pending@ + tail
        &&& post.pointer_pos == pre.pointer_pos
        &&& post.modifiers == pre.modifiers
        &&& post.screen_width == pre.screen_width
        &&& post.screen_height == pre.screen_height
        &&& post.scale_centi == pre.scale_centi
        &&& post.system_cursor == pre.system_cursor
        &&& post.has_cursor == pre.has_cursor
    }

    /// The whole event-translation relation: how one platform event takes
    /// the state from `pre` to `post`, given the clipboard contents at the
    /// time of the event.
    pub open spec fn handles(
        pre: Platform,
        post: Platform,
        event: PlatformEvent,
        clipboard: Option<String>,
    ) -> bool {
        match event {
            PlatformEvent::WindowResized { width, height } => {
                &&& post.screen_width == width
                &&& post.screen_height == height
                &&& post.pending@ == pre.pending@
                &&& post.pointer_pos == pre.pointer_pos
                &&& post.modifiers == pre.modifiers
                &&& post.scale_centi == pre.scale_centi
                &&& post.system_cursor == pre.system_cursor
                &&& post.has_cursor == pre.has_cursor
            },
            PlatformEvent::MouseButtonDown { button } => {
                match spec_map_button(button) {
                    Some(b) => Platform::appends(
                        pre,
                        post,
                        seq![
                            (UiEvent::PointerButton {
                                pos: pre.pointer_pos,
                                button: b,
                                pressed: true,
                                modifiers: pre.modifiers,
                            }),
                        ],
                    ),
                    None => Platform::same_state(pre, post),
                }
            },
            PlatformEvent::MouseButtonUp { button } => {
                match spec_map_button(button) {
                    Some(b) => Platform::appends(
                        pre,
                        post,
                        seq![
                            (UiEvent::PointerButton {
                                pos: pre.pointer_pos,
                                button: b,
                                pressed: false,
                                modifiers: pre.modifiers,
                            }),
                        ],
                    ),
                    None => Platform::same_state(pre, post),
                }
            },
            PlatformEvent::MouseMotion { x, y } => {
                let pos = Pos {
                    x: spec_to_logical(x, pre.scale_centi) as u64,
                    y: spec_to_logical(y, pre.scale_centi) as u64,
                };
                &&& post.pointer_pos == pos
                &&& post.pending@ == pre.pending@.push(UiEvent::PointerMoved { pos })
                &&& post.modifiers == pre.modifiers
                &&& post.screen_width == pre.screen_width
                &&& post.screen_height == pre.screen_height
                &&& post.scale_centi == pre.scale_centi
                &&& post.system_cursor == pre.system_cursor
                &&& post.has_cursor == pre.has_cursor
            },
            PlatformEvent::MouseWheel { x, y } => {
                Platform::appends(
                    pre,
                    post,
                    seq![
                        (UiEvent::MouseWheel {
                            delta_x: ((x as int) * (SCROLL_POINTS_PER_NOTCH as int)) as i64,
                            delta_y: ((y as int) * (SCROLL_POINTS_PER_NOTCH as int)) as i64,
                            modifiers: Modifiers::spec_none(),
                        }),
                    ],
                )
            },
            PlatformEvent::KeyDown { keycode, keymod } => {
                match keycode {
                    Some(code) => {
                        &&& post.modifiers == spec_decode_modifiers(keymod)
                        &&& post.pending@ == pre.pending@ + spec_key_down_events(
                            code,
                            keymod,
                            clipboard,
                        )
                        &&& post.pointer_pos == pre.pointer_pos
                        &&& post.screen_width == pre.screen_width
                        &&& post.screen_height == pre.screen_height
                        &&& post.scale_centi == pre.scale_centi
                        &&& post.system_cursor == pre.system_cursor
                        &&& post.has_cursor == pre.has_cursor
                    },
                    None => Platform::same_state(pre, post),
                }
            },
            PlatformEvent::KeyUp { keycode, keymod } => {
                match keycode {
                    Some(code) => {
                        &&& post.modifiers == spec_decode_modifiers(keymod)
                        &&& post.pending@ == pre.pending@ + spec_key_up_events(code, keymod)
                        &&& post.pointer_pos == pre.pointer_pos
                        &&& post.screen_width == pre.screen_width
                        &&& post.screen_height == pre.screen_height
                        &&& post.scale_centi == pre.scale_centi
                        &&& post.system_cursor == pre.system_cursor
                        &&& post.has_cursor == pre.has_cursor
                    },
                    None => Platform::same_state(pre, post),
                }
            },
            PlatformEvent::TextInput { text } => {
                Platform::appends(pre, post, seq![(UiEvent::Text { text })])
            },
            PlatformEvent::Other => Platform::same_state(pre, post),
        }
    }

    /// Construct the bridge in its initial state: empty pending buffer,
    /// pointer at the origin, no modifiers, scale factor one, arrow cursor.
    /// `has_cursor` records whether the caller managed to create the initial
    /// cursor resource; when it did not, cursor updates stay off.
    pub fn new(screen_width: u32, screen_height: u32, has_cursor: bool) -> (r: Platform)
        ensures
            r.inv(),
            r.pending@ == Seq::<UiEvent>::empty(),
            r.pointer_pos == Pos::spec_zero(),
            r.modifiers == Modifiers::spec_none(),
            r.screen_width == screen_width,
            r.screen_height == screen_height,
            r.scale_centi == 100,
            r.system_cursor == SystemCursor::Arrow,
            r.has_cursor == has_cursor,
    {
        Platform {
            pending: Vec::new(),
            pointer_pos: Pos::zero(),
            modifiers: Modifiers::none(),
            screen_width,
            screen_height,
            scale_centi: 100,
            system_cursor: SystemCursor::Arrow,
            has_cursor,
        }
    }

    /// Translate one platform event. Never fails: events that map to
    /// nothing leave the state unchanged. `clipboard` is the platform
    /// clipboard's current text, read by the caller; it is consulted only
    /// for the paste chord.
    #[verifier::rlimit(100)]
    pub fn handle_event(&mut self, event: PlatformEvent, clipboard: Option<String>)
        requires
            old(self).inv(),
        ensures
            final(self).inv(),
            Platform::handles(*old(self), *final(self), event, clipboard),
    {
        match event {
            PlatformEvent::WindowResized { width, height } => {
                self.screen_width = width;
                self.screen_height = height;
            },
            PlatformEvent::MouseButtonDown { button } => {
                if let Some(b) = map_button(button) {
                    let pos = self.pointer_pos;
                    let mods = self.modifiers;
                    self.pending.push(
                        UiEvent::PointerButton { pos, button: b, pressed: true, modifiers: mods },
                    );
                    proof {
                        assert(self.pending@ =~= old(self).pending@ + seq![
                            (UiEvent::PointerButton {
                                pos,
                                button: b,
                                pressed: true,
                                modifiers: mods,
                            }),
                        ]);
                    }
                }
            },
            PlatformEvent::MouseButtonUp { button } => {
                if let Some(b) = map_button(button) {
                    let pos = self.pointer_pos;
                    let mods = self.modifiers;
                    self.pending.push(
                        UiEvent::PointerButton { pos, button: b, pressed: false, modifiers: mods },
                    );
                    proof {
                        assert(self.pending@ =~= old(self).pending@ + seq![
                            (UiEvent::PointerButton {
                                pos,
                                button: b,
                                pressed: false,
                                modifiers: mods,
                            }),
                        ]);
                    }
                }
            },
            PlatformEvent::MouseMotion { x, y } => {
                let lx = to_logical(x, self.scale_centi);
                let ly = to_logical(y, self.scale_centi);
                let pos = Pos { x: lx, y: ly };
                self.pointer_pos = pos;
                self.pending.push(UiEvent::PointerMoved { pos });
            },
            PlatformEvent::MouseWheel { x, y } => {
                let dx: i64 = (x as i64) * SCROLL_POINTS_PER_NOTCH;
                let dy: i64 = (y as i64) * SCROLL_POINTS_PER_NOTCH;
                let mods = Modifiers::none();
                self.pending.push(UiEvent::MouseWheel { delta_x: dx, delta_y: dy, modifiers: mods });
                proof {
                    assert(self.pending@ =~= old(self).pending@ + seq![
                        (UiEvent::MouseWheel { delta_x: dx, delta_y: dy, modifiers: mods }),
                    ]);
                }
            },
            PlatformEvent::KeyDown { keycode, keymod } => {
                if let Some(code) = keycode {
                    let mods = decode_modifiers(keymod);
                    self.modifiers = mods;
                    if let Some(key) = key_for(code) {
                        if mods.ctrl {
                            match key {
                                Key::C => {
                                    self.pending.push(UiEvent::Copy);
                                },
                                Key::X => {
                                    self.pending.push(UiEvent::Cut);
                                },
                                Key::V => {
                                    if let Some(text) = clipboard {
                                        self.pending.push(UiEvent::Paste { text });
                                    }
                                },
                                _ => {},
                            }
                        }
                        self.pending.push(UiEvent::Key { key, pressed: true, modifiers: mods });
                    }
                    proof {
                        assert(self.pending@ =~= old(self).pending@ + spec_key_down_events(
                            code,
                            keymod,
                            clipboard,
                        ));
                    }
                }
            },
            PlatformEvent::KeyUp { keycode, keymod } => {
                if let Some(code) = keycode {
                    let mods = decode_modifiers(keymod);
                    self.modifiers = mods;
                    if let Some(key) = key_for(code) {
                        self.pending.push(UiEvent::Key { key, pressed: false, modifiers: mods });
                    }
                    proof {
                        assert(self.pending@ =~= old(self).pending@ + spec_key_up_events(
                            code,
                            keymod,
                        ));
                    }
                }
            },
            PlatformEvent::TextInput { text } => {
                self.pending.push(UiEvent::Text { text });
                proof {
                    assert(self.pending@ =~= old(self).pending@ + seq![
                        (UiEvent::Text { text }),
                    ]);
                }
            },
            PlatformEvent::Other => {},
        }
    }

    /// Begin a frame: store the fresh display metrics, move the whole
    /// pending buffer out — leaving it empty — and return it with the
    /// logical screen rectangle, the timestamp and the modifier state for
    /// the GUI library's frame-start call.
    pub fn begin_frame(&mut self, width: u32, height: u32, scale_centi: u32, time_micros: u64) -> (r:
        FrameInput)
        requires
            old(self).inv(),
            1 <= scale_centi,
        ensures
            final(self).inv(),
            final(self).pending@ == Seq::<UiEvent>::empty(),
            final(self).screen_width == width,
            final(self).screen_height == height,
            final(self).scale_centi == scale_centi,
            final(self).pointer_pos == old(self).pointer_pos,
            final(self).modifiers == old(self).modifiers,
            final(self).system_cursor == old(self).system_cursor,
            final(self).has_cursor == old(self).has_cursor,
            r.events@ == old(self).pending@,
            r.screen_width == spec_to_logical(width, scale_centi),
            r.screen_height == spec_to_logical(height, scale_centi),
            r.scale_centi == scale_centi,
            r.time_micros == time_micros,
            r.modifiers == old(self).modifiers,
    {
        self.screen_width = width;
        self.screen_height = height;
        self.scale_centi = scale_centi;
        let mut events: Vec<UiEvent> = Vec::new();
        core::mem::swap(&mut events, &mut self.pending);
        let screen_width = to_logical(width, scale_centi);
        let screen_height = to_logical(height, scale_centi);
        let modifiers = self.modifiers;
        FrameInput { events, screen_width, screen_height, scale_centi, time_micros, modifiers }
    }

    /// End a frame: collect the clipboard writes the caller must perform,
    /// and resolve the requested cursor icon. A new cursor resource is due
    /// only when a resource is held and the resolved identifier differs
    /// from the one applied; repeating the same request changes nothing.
    pub fn end_frame(&mut self, output: &GuiOutput) -> (r: FrameEffects)
        requires
            old(self).inv(),
        ensures
            final(self).inv(),
            r.clipboard_writes@ == copy_texts(output.commands@),
            ({
                let requested = spec_map_cursor(output.cursor_icon);
                if old(self).has_cursor && requested != old(self).system_cursor {
                    &&& r.cursor_change == Some(requested)
                    &&& final(self).system_cursor == requested
                } else {
                    &&& r.cursor_change is None
                    &&& final(self).system_cursor == old(self).system_cursor
                }
            }),
            final(self).pending@ == old(self).pending@,
            final(self).pointer_pos == old(self).pointer_pos,
            final(self).modifiers == old(self).modifiers,
            final(self).screen_width == old(self).screen_width,
            final(self).screen_height == old(self).screen_height,
            final(self).scale_centi == old(self).scale_centi,
            final(self).has_cursor == old(self).has_cursor,
    {
        let clipboard_writes = collect_copy_texts(&output.commands);
        let mut cursor_change: Option<SystemCursor> = None;
        if self.has_cursor {
            let requested = map_cursor(output.cursor_icon);
            if requested != self.system_cursor {
                self.system_cursor = requested;
                cursor_change = Some(requested);
            }
        }
        FrameEffects { clipboard_writes, cursor_change }
    }
}

/// After a pointer-motion event, the stored logical position is the
/// physical position divided by the scale factor, and a button event
/// translated next carries exactly that position.
pub proof fn lemma_motion_then_button(
    pre: Platform,
    mid: Platform,
    post: Platform,
    x: u32,
    y: u32,
    button: MouseButton,
    b: PointerButton,
    clip_a: Option<String>,
    clip_b: Option<String>,
)
    requires
        pre.inv(),
        Platform::handles(pre, mid, PlatformEvent::MouseMotion { x, y }, clip_a),
        Platform::handles(mid, post, PlatformEvent::MouseButtonDown { button }, clip_b),
        spec_map_button(button) == Some(b),
    ensures
        mid.pointer_pos.x == spec_to_logical(x, pre.scale_centi),
        mid.pointer_pos.y == spec_to_logical(y, pre.scale_centi),
        post.pending@.len() == mid.pending@.len() + 1,
        post.pending@.last() == (UiEvent::PointerButton {
            pos: mid.pointer_pos,
            button: b,
            pressed: true,
            modifiers: mid.modifiers,
        }),
{
    assert(0 <= (x as int) * 10000 / (pre.scale_centi as int) <= (x as int) * 10000)
        by (nonlinear_arith)
        requires 1 <= pre.scale_centi;
    assert(0 <= (y as int) * 10000 / (pre.scale_centi as int) <= (y as int) * 10000)
        by (nonlinear_arith)
        requires 1 <= pre.scale_centi;
    assert(post.pending@ == mid.pending@ + seq![
        (UiEvent::PointerButton {
            pos: mid.pointer_pos,
            button: b,
            pressed: true,
            modifiers: mid.modifiers,
        }),
    ]);
}

} // verus!
