//! Frame-lifecycle tests: begin-frame state threading, end-frame clipboard
//! and cursor side effects, and the error type.

use egui_sdl3_bridge::input::{PlatformEvent, UiEvent};
use egui_sdl3_bridge::modifiers::Modifiers;
use egui_sdl3_bridge::output::{
    collect_copy_texts, map_cursor, CursorIcon, FrameEffects, GuiOutput, OutputCommand,
    SystemCursor,
};
use egui_sdl3_bridge::platform::Platform;
use egui_sdl3_bridge::Error;

#[test]
fn new_starts_in_the_initial_state() {
    let p = Platform::new(640, 480, true);
    assert!(p.pending.is_empty());
    assert_eq!(p.pointer_pos.x, 0);
    assert_eq!(p.pointer_pos.y, 0);
    assert_eq!(p.modifiers, Modifiers::none());
    assert_eq!(p.screen_width, 640);
    assert_eq!(p.screen_height, 480);
    assert_eq!(p.scale_centi, 100);
    assert_eq!(p.system_cursor, SystemCursor::Arrow);
    assert!(p.has_cursor);
}

#[test]
fn begin_frame_empties_pending_and_returns_it_in_order() {
    let mut p = Platform::new(800, 600, true);
    p.handle_event(PlatformEvent::MouseMotion { x: 4, y: 8 }, None);
    p.handle_event(PlatformEvent::TextInput { text: String::from("a") }, None);
    let frame = p.begin_frame(800, 600, 100, 16_000);
    assert!(p.pending.is_empty());
    assert_eq!(frame.events.len(), 2);
    assert!(matches!(frame.events[0], UiEvent::PointerMoved { .. }));
    assert_eq!(frame.events[1], UiEvent::Text { text: String::from("a") });
    assert_eq!(frame.time_micros, 16_000);
}

#[test]
fn begin_frame_on_empty_buffer_stays_empty() {
    let mut p = Platform::new(800, 600, true);
    let frame = p.begin_frame(800, 600, 100, 0);
    assert!(p.pending.is_empty());
    assert!(frame.events.is_empty());
}

#[test]
fn begin_frame_computes_the_logical_screen_rect() {
    // 1920 x 1080 at scale 1.5: 1280.00 x 720.00 points, in hundredths.
    let mut p = Platform::new(640, 480, true);
    let frame = p.begin_frame(1920, 1080, 150, 0);
    assert_eq!(frame.screen_width, 128_000);
    assert_eq!(frame.screen_height, 72_000);
    assert_eq!(frame.scale_centi, 150);
    assert_eq!(p.screen_width, 1920);
    assert_eq!(p.screen_height, 1080);
    assert_eq!(p.scale_centi, 150);
}

#[test]
fn begin_frame_keeps_pointer_and_modifiers() {
    let mut p = Platform::new(800, 600, true);
    p.handle_event(PlatformEvent::MouseMotion { x: 10, y: 10 }, None);
    p.handle_event(PlatformEvent::KeyDown { keycode: Some(0x61), keymod: 0x0001 }, None);
    let frame = p.begin_frame(800, 600, 100, 0);
    assert_eq!(p.pointer_pos.x, 1000);
    assert!(p.modifiers.shift);
    assert!(frame.modifiers.shift);
}

#[test]
fn wait_cursor_twice_creates_once() {
    // First request resolves to a new identifier and asks for a resource;
    // repeating it asks for none.
    let mut p = Platform::new(800, 600, true);
    let fx = p.end_frame(&GuiOutput { commands: Vec::new(), cursor_icon: CursorIcon::Wait });
    assert_eq!(fx.cursor_change, Some(SystemCursor::Wait));
    assert_eq!(p.system_cursor, SystemCursor::Wait);
    let fx = p.end_frame(&GuiOutput { commands: Vec::new(), cursor_icon: CursorIcon::Wait });
    assert_eq!(fx.cursor_change, None);
    assert_eq!(p.system_cursor, SystemCursor::Wait);
}

#[test]
fn default_icon_on_fresh_state_changes_nothing() {
    // The arrow is already applied at construction.
    let mut p = Platform::new(800, 600, true);
    let fx = p.end_frame(&GuiOutput { commands: Vec::new(), cursor_icon: CursorIcon::Default });
    assert_eq!(fx.cursor_change, None);
    assert_eq!(p.system_cursor, SystemCursor::Arrow);
}

#[test]
fn without_a_cursor_resource_updates_stay_off() {
    let mut p = Platform::new(800, 600, false);
    let fx = p.end_frame(&GuiOutput { commands: Vec::new(), cursor_icon: CursorIcon::Wait });
    assert_eq!(fx.cursor_change, None);
    assert_eq!(p.system_cursor, SystemCursor::Arrow);
}

#[test]
fn end_frame_collects_clipboard_writes_in_order() {
    let mut p = Platform::new(800, 600, true);
    let out = GuiOutput {
        commands: vec![
            OutputCommand::CopyText { text: String::from("first") },
            OutputCommand::Other,
            OutputCommand::CopyText { text: String::from("second") },
        ],
        cursor_icon: CursorIcon::Default,
    };
    let fx = p.end_frame(&out);
    assert_eq!(
        fx,
        FrameEffects {
            clipboard_writes: vec![String::from("first"), String::from("second")],
            cursor_change: None,
        }
    );
}

#[test]
fn end_frame_leaves_pending_untouched() {
    let mut p = Platform::new(800, 600, true);
    p.handle_event(PlatformEvent::MouseMotion { x: 1, y: 1 }, None);
    p.end_frame(&GuiOutput { commands: Vec::new(), cursor_icon: CursorIcon::Default });
    assert_eq!(p.pending.len(), 1);
}

#[test]
fn cursor_table_matches_the_fixed_mapping() {
    assert_eq!(map_cursor(CursorIcon::Crosshair), SystemCursor::Crosshair);
    assert_eq!(map_cursor(CursorIcon::Default), SystemCursor::Arrow);
    assert_eq!(map_cursor(CursorIcon::Grab), SystemCursor::Hand);
    assert_eq!(map_cursor(CursorIcon::PointingHand), SystemCursor::Hand);
    assert_eq!(map_cursor(CursorIcon::Grabbing), SystemCursor::SizeAll);
    assert_eq!(map_cursor(CursorIcon::Move), SystemCursor::SizeAll);
    assert_eq!(map_cursor(CursorIcon::ResizeHorizontal), SystemCursor::SizeWE);
    assert_eq!(map_cursor(CursorIcon::ResizeNeSw), SystemCursor::SizeNESW);
    assert_eq!(map_cursor(CursorIcon::ResizeNwSe), SystemCursor::SizeNWSE);
    assert_eq!(map_cursor(CursorIcon::ResizeVertical), SystemCursor::SizeNS);
    assert_eq!(map_cursor(CursorIcon::Text), SystemCursor::IBeam);
    assert_eq!(map_cursor(CursorIcon::NotAllowed), SystemCursor::No);
    assert_eq!(map_cursor(CursorIcon::NoDrop), SystemCursor::No);
    assert_eq!(map_cursor(CursorIcon::Wait), SystemCursor::Wait);
    assert_eq!(map_cursor(CursorIcon::Other), SystemCursor::Arrow);
}

#[test]
fn collect_copy_texts_skips_other_commands() {
    let cmds = vec![
        OutputCommand::Other,
        OutputCommand::CopyText { text: String::from("x") },
        OutputCommand::Other,
    ];
    assert_eq!(collect_copy_texts(&cmds), vec![String::from("x")]);
    assert!(collect_copy_texts(&Vec::new()).is_empty());
}

#[test]
fn error_carries_the_platform_message() {
    let e = Error::Sdl(String::from("no cursor"));
    assert_eq!(e.message(), String::from("no cursor"));
}
