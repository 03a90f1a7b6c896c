use std::cell::Cell;
use std::rc::Rc;

use mlx_engine::error::MlxError;
use mlx_engine::events::{
    mlx_int_do_nothing, Dispatch, Event, GeneralHook, HookSlot, MlxEventHook, MouseHook,
    BUTTON_PRESS, CLIENT_MESSAGE, DESTROY_NOTIFY, EXPOSE, KEY_PRESS, MLX_MAX_EVENT,
};
use mlx_engine::mlx_window::MlxWindow;
use mlx_engine::shm::ShmReport;
use mlx_engine::strings::{
    find_bytes, mlx_int_str_str, mlx_int_str_str_cote, mlx_int_str_to_wordtab,
};
use mlx_engine::visual::{Visual, TRUE_COLOR};
use mlx_engine::window::{
    gc_values, mlx_int_anti_resize_win, window_attributes, GcValues, SizeHints, WinList,
    WindowAttributes,
};
use mlx_engine::xpm::{mlx_int_find_in_pcm, ColName, XpmCol};
use mlx_engine::xvars::{
    mlx_destroy_display, mlx_destroy_window, mlx_dispatch, mlx_expose_hook, mlx_hook,
    mlx_init, mlx_key_hook, mlx_loop, mlx_loop_end, mlx_loop_hook, mlx_loop_step, mlx_mouse_hook,
    mlx_new_window, LoopState, LoopStep, ServerInfo, WindowRelease, XVar,
};

struct Count {
    calls: Rc<Cell<u32>>,
    last: Rc<Cell<i32>>,
}

impl GeneralHook for Count {
    fn call(&self, sym: i32) {
        self.calls.set(self.calls.get() + 1);
        self.last.set(sym);
    }
}

impl MouseHook for Count {
    fn call(&self, x: i32, y: i32, sym: i32) {
        self.calls.set(self.calls.get() + 1);
        self.last.set(x * 10000 + y * 100 + sym);
    }
}

struct Probe {
    calls: Rc<Cell<u32>>,
    last: Rc<Cell<i32>>,
}

fn probe() -> Probe {
    Probe { calls: Rc::new(Cell::new(0)), last: Rc::new(Cell::new(0)) }
}

impl Probe {
    fn general(&self) -> Box<dyn GeneralHook> {
        Box::new(Count { calls: self.calls.clone(), last: self.last.clone() })
    }

    fn mouse(&self) -> Box<dyn MouseHook> {
        Box::new(Count { calls: self.calls.clone(), last: self.last.clone() })
    }
}

fn session() -> XVar {
    let info = ServerInfo {
        display: 1,
        screen: 0,
        root: 7,
        cmap: 9,
        depth: 24,
        default_visual: Some(Visual {
            visualid: 1,
            class: TRUE_COLOR,
            depth: 24,
            red_mask: 0xff0000,
            green_mask: 0xff00,
            blue_mask: 0xff,
        }),
        supported: vec![],
        wm_delete_window: 100,
        wm_protocols: 101,
        shm: ShmReport { has_extension: false, has_pixmaps: false, pixmap_format: 0 },
        target: None,
    };
    match mlx_init(Some(info)) {
        Ok(xvar) => xvar,
        Err(_) => panic!("the session must open"),
    }
}

fn event(kind: i32, window: u64) -> Event {
    Event { kind, window, x: 12, y: 34, detail: 5, message_type: 0, atom: 0 }
}

fn close_request(window: u64) -> Event {
    Event { kind: CLIENT_MESSAGE, window, x: 0, y: 0, detail: 0, message_type: 101, atom: 100 }
}

#[test]
fn event_numbers_are_those_of_the_protocol() {
    assert_eq!(KEY_PRESS, x11::xlib::KeyPress);
    assert_eq!(BUTTON_PRESS, x11::xlib::ButtonPress);
    assert_eq!(EXPOSE, x11::xlib::Expose);
    assert_eq!(DESTROY_NOTIFY, x11::xlib::DestroyNotify);
    assert_eq!(CLIENT_MESSAGE, x11::xlib::ClientMessage);
    assert_eq!(MLX_MAX_EVENT, x11::xlib::LASTEvent as usize);
    assert_eq!(TRUE_COLOR, x11::xlib::TrueColor);
}

#[test]
fn do_nothing_returns() {
    mlx_int_do_nothing();
}

#[test]
fn anti_resize_pins_the_three_sizes() {
    let mut hints = SizeHints {
        flags: 0x30,
        x: 1,
        y: 2,
        width: 3,
        height: 4,
        min_width: 5,
        min_height: 6,
        max_width: 7,
        max_height: 8,
    };
    mlx_int_anti_resize_win(&mut hints, 320, 200);
    assert_eq!(
        hints,
        SizeHints {
            flags: 0x30,
            x: 1,
            y: 2,
            width: 320,
            height: 200,
            min_width: 320,
            min_height: 200,
            max_width: 320,
            max_height: 200,
        }
    );
}

#[test]
fn window_attributes_select_every_event() {
    assert_eq!(
        window_attributes(9),
        WindowAttributes {
            background_pixel: 0,
            border_pixel: u64::MAX,
            colormap: 9,
            event_mask: 0xffffff,
            value_mask: 0x280a,
        }
    );
    assert_eq!(
        window_attributes(9).value_mask,
        x11::xlib::CWEventMask
            | x11::xlib::CWBackPixel
            | x11::xlib::CWBorderPixel
            | x11::xlib::CWColormap
    );
}

#[test]
fn gc_values_copy_with_every_bit() {
    assert_eq!(
        gc_values(),
        GcValues { function: 3, plane_mask: u64::MAX, foreground: u64::MAX, value_mask: 7 }
    );
    assert_eq!(gc_values().function, x11::xlib::GXcopy);
    assert_eq!(
        gc_values().value_mask,
        (x11::xlib::GCFunction | x11::xlib::GCPlaneMask | x11::xlib::GCForeground) as u64
    );
}

#[test]
fn new_window_is_pinned_to_the_requested_size() {
    let mut xvar = session();
    assert!(matches!(mlx_new_window(&mut xvar, 0x400, 0x401, 320, 200), Ok(0x400)));
    assert_eq!(xvar.win_list.len(), 1);
    let win = &xvar.win_list[0];
    assert_eq!(win.window, 0x400);
    assert_eq!(win.gc, 0x401);
    assert_eq!((win.hints.width, win.hints.height), (320, 200));
    assert_eq!((win.hints.min_width, win.hints.min_height), (320, 200));
    assert_eq!((win.hints.max_width, win.hints.max_height), (320, 200));
    assert!(win.mouse_hook.is_none() && win.key_hook.is_none() && win.expose_hook.is_none());
    assert_eq!(win.hooks.len(), 36);
    for (kind, slot) in win.hooks.iter().enumerate() {
        if kind == 17 {
            assert!(matches!(slot, HookSlot::LoopEnd));
        } else {
            assert!(matches!(slot, HookSlot::Empty));
        }
    }
}

#[test]
fn new_window_size_survives_every_operation() {
    let mut xvar = session();
    let p = probe();
    assert!(mlx_new_window(&mut xvar, 0x400, 0x401, 320, 200).is_ok());
    assert!(mlx_new_window(&mut xvar, 0x500, 0x501, 64, 48).is_ok());
    assert!(mlx_mouse_hook(&mut xvar, 0x400, Some(p.mouse())).is_ok());
    assert!(mlx_key_hook(&mut xvar, 0x400, Some(p.general())).is_ok());
    assert!(mlx_expose_hook(&mut xvar, 0x400, Some(p.general())).is_ok());
    assert!(mlx_hook(&mut xvar, 0x400, 6, HookSlot::Hook(MlxEventHook::General(p.general()))).is_ok());
    mlx_loop(&mut xvar);
    mlx_loop_step(&mut xvar, Some(event(BUTTON_PRESS, 0x400)));
    mlx_loop_step(&mut xvar, Some(close_request(0x400)));
    mlx_loop_step(&mut xvar, None);
    assert!(mlx_destroy_window(&mut xvar, 0x500).is_some());
    let win = &xvar.win_list[0];
    assert_eq!(win.window, 0x400);
    assert_eq!((win.hints.width, win.hints.height), (320, 200));
    assert_eq!((win.hints.min_width, win.hints.min_height), (320, 200));
    assert_eq!((win.hints.max_width, win.hints.max_height), (320, 200));
}

#[test]
fn new_window_goes_in_front_of_the_others() {
    let mut xvar = session();
    assert!(mlx_new_window(&mut xvar, 1, 11, 10, 10).is_ok());
    assert!(mlx_new_window(&mut xvar, 2, 12, 20, 20).is_ok());
    let ids: Vec<u64> = xvar.win_list.iter().map(|w| w.window).collect();
    assert_eq!(ids, vec![2, 1]);
    assert_eq!(xvar.find_window(1), Some(1));
    assert_eq!(xvar.find_window(2), Some(0));
    assert_eq!(xvar.find_window(3), None);
}

#[test]
fn new_window_is_refused_without_a_window() {
    let mut xvar = session();
    assert!(matches!(
        mlx_new_window(&mut xvar, 0, 0x401, 320, 200),
        Err(MlxError::WindowCreationError)
    ));
    assert!(matches!(
        mlx_new_window(&mut xvar, 1, 2, 0x8000_0000, 200),
        Err(MlxError::WindowCreationError)
    ));
    assert!(matches!(
        mlx_new_window(&mut xvar, 1, 2, 320, u32::MAX),
        Err(MlxError::WindowCreationError)
    ));
    assert!(xvar.win_list.is_empty());
    assert!(mlx_new_window(&mut xvar, 1, 2, 0x7fff_ffff, 0x7fff_ffff).is_ok());
    assert!(mlx_destroy_display(&mut xvar).is_some());
    assert!(matches!(
        mlx_new_window(&mut xvar, 3, 4, 320, 200),
        Err(MlxError::WindowCreationError)
    ));
}

#[test]
fn fresh_window_drops_every_event_but_the_close_request() {
    let win = WinList::new(1, 2, 10, 10);
    for kind in -3..40 {
        let expected = if kind == 17 { Dispatch::LoopEnd } else { Dispatch::Dropped };
        assert_eq!(win.dispatch(kind, &event(kind, 1)), expected);
    }
}

#[test]
fn installing_on_an_occupied_slot_replaces_without_calling() {
    let old = probe();
    let new = probe();
    let mut win = WinList::new(1, 2, 10, 10);
    let before = win.install_hook(6, HookSlot::Hook(MlxEventHook::General(old.general())));
    assert!(matches!(before, HookSlot::Empty));
    let replaced = win.install_hook(6, HookSlot::Hook(MlxEventHook::General(new.general())));
    assert_eq!(old.calls.get(), 0);
    assert_eq!(new.calls.get(), 0);
    assert_eq!(win.dispatch(6, &event(6, 1)), Dispatch::Generic(6));
    assert_eq!(old.calls.get(), 0);
    assert_eq!(new.calls.get(), 1);
    assert_eq!(new.last.get(), 5);
    match replaced {
        HookSlot::Hook(MlxEventHook::General(hook)) => hook.call(77),
        _ => panic!("the replaced hook must come back"),
    }
    assert_eq!(old.calls.get(), 1);
    assert_eq!(old.last.get(), 77);
}

#[test]
fn installing_the_special_hooks_replaces_without_calling() {
    let old = probe();
    let new = probe();
    let mut win = WinList::new(1, 2, 10, 10);
    assert!(win.install_mouse_hook(Some(old.mouse())).is_none());
    assert!(win.install_key_hook(Some(old.general())).is_none());
    assert!(win.install_expose_hook(Some(old.general())).is_none());
    assert!(win.install_mouse_hook(Some(new.mouse())).is_some());
    assert!(win.install_key_hook(Some(new.general())).is_some());
    assert!(win.install_expose_hook(Some(new.general())).is_some());
    assert_eq!(old.calls.get(), 0);
    assert_eq!(new.calls.get(), 0);
    assert_eq!(win.dispatch(BUTTON_PRESS, &event(BUTTON_PRESS, 1)), Dispatch::Mouse);
    assert_eq!(new.last.get(), 12 * 10000 + 34 * 100 + 5);
    assert_eq!(win.dispatch(KEY_PRESS, &event(KEY_PRESS, 1)), Dispatch::Key);
    assert_eq!(new.last.get(), 5);
    assert_eq!(win.dispatch(EXPOSE, &event(EXPOSE, 1)), Dispatch::Expose);
    assert_eq!(old.calls.get(), 0);
    assert_eq!(new.calls.get(), 3);
    assert!(win.install_mouse_hook(None).is_some());
    assert_eq!(win.dispatch(BUTTON_PRESS, &event(BUTTON_PRESS, 1)), Dispatch::Dropped);
    assert_eq!(new.calls.get(), 3);
}

#[test]
fn special_hooks_come_before_the_table() {
    let special = probe();
    let table = probe();
    let mut win = WinList::new(1, 2, 10, 10);
    win.install_hook(BUTTON_PRESS, HookSlot::Hook(MlxEventHook::Mouse(table.mouse())));
    assert_eq!(win.dispatch(BUTTON_PRESS, &event(BUTTON_PRESS, 1)), Dispatch::Generic(4));
    assert_eq!(table.calls.get(), 1);
    assert_eq!(table.last.get(), 12 * 10000 + 34 * 100 + 5);
    win.install_mouse_hook(Some(special.mouse()));
    assert_eq!(win.dispatch(BUTTON_PRESS, &event(BUTTON_PRESS, 1)), Dispatch::Mouse);
    assert_eq!(table.calls.get(), 1);
    assert_eq!(special.calls.get(), 1);
}

#[test]
fn installing_outside_the_table_changes_nothing() {
    let p = probe();
    let mut win = WinList::new(1, 2, 10, 10);
    let back = win.install_hook(36, HookSlot::Hook(MlxEventHook::General(p.general())));
    assert!(matches!(back, HookSlot::Hook(MlxEventHook::General(_))));
    let back = win.install_hook(-1, HookSlot::LoopEnd);
    assert!(matches!(back, HookSlot::LoopEnd));
    assert_eq!(win.hooks.len(), 36);
    assert_eq!(win.dispatch(36, &event(36, 1)), Dispatch::Dropped);
    assert_eq!(win.dispatch(-1, &event(-1, 1)), Dispatch::Dropped);
    assert_eq!(p.calls.get(), 0);
}

#[test]
fn close_slot_can_be_overridden_and_restored() {
    let p = probe();
    let mut xvar = session();
    assert!(mlx_new_window(&mut xvar, 8, 9, 100, 100).is_ok());
    assert_eq!(mlx_dispatch(&xvar, &close_request(8)), Dispatch::LoopEnd);
    let replaced =
        mlx_hook(&mut xvar, 8, DESTROY_NOTIFY, HookSlot::Hook(MlxEventHook::General(p.general())));
    assert!(matches!(replaced, Ok(HookSlot::LoopEnd)));
    assert_eq!(mlx_dispatch(&xvar, &close_request(8)), Dispatch::Generic(17));
    assert_eq!(p.calls.get(), 1);
    let replaced = mlx_hook(&mut xvar, 8, DESTROY_NOTIFY, HookSlot::LoopEnd);
    assert!(matches!(replaced, Ok(HookSlot::Hook(_))));
    assert_eq!(mlx_dispatch(&xvar, &close_request(8)), Dispatch::LoopEnd);
    assert_eq!(p.calls.get(), 1);
}

#[test]
fn client_message_that_is_no_close_request_keeps_its_kind() {
    let p = probe();
    let mut xvar = session();
    assert!(mlx_new_window(&mut xvar, 8, 9, 100, 100).is_ok());
    let mut other = close_request(8);
    other.atom = 55;
    assert_eq!(mlx_dispatch(&xvar, &other), Dispatch::Dropped);
    let mut other = close_request(8);
    other.message_type = 55;
    assert_eq!(mlx_dispatch(&xvar, &other), Dispatch::Dropped);
    assert!(mlx_hook(&mut xvar, 8, CLIENT_MESSAGE, HookSlot::Hook(MlxEventHook::General(p.general())))
        .is_ok());
    assert_eq!(mlx_dispatch(&xvar, &other), Dispatch::Generic(33));
    assert_eq!(mlx_dispatch(&xvar, &close_request(8)), Dispatch::LoopEnd);
    assert_eq!(p.calls.get(), 1);
}

#[test]
fn hooks_on_a_window_that_is_not_there_come_back() {
    let p = probe();
    let mut xvar = session();
    assert!(mlx_new_window(&mut xvar, 8, 9, 100, 100).is_ok());
    assert!(matches!(mlx_mouse_hook(&mut xvar, 99, Some(p.mouse())), Err(Some(_))));
    assert!(matches!(mlx_key_hook(&mut xvar, 99, Some(p.general())), Err(Some(_))));
    assert!(matches!(mlx_expose_hook(&mut xvar, 99, None), Err(None)));
    assert!(matches!(mlx_hook(&mut xvar, 99, 6, HookSlot::LoopEnd), Err(HookSlot::LoopEnd)));
    assert!(matches!(mlx_hook(&mut xvar, 8, 36, HookSlot::LoopEnd), Err(HookSlot::LoopEnd)));
    assert_eq!(mlx_dispatch(&xvar, &event(BUTTON_PRESS, 8)), Dispatch::Dropped);
    assert_eq!(mlx_dispatch(&xvar, &event(BUTTON_PRESS, 99)), Dispatch::Dropped);
    assert_eq!(p.calls.get(), 0);
}

#[test]
fn events_go_to_the_window_they_are_for() {
    let first = probe();
    let second = probe();
    let mut xvar = session();
    assert!(mlx_new_window(&mut xvar, 1, 11, 100, 100).is_ok());
    assert!(mlx_new_window(&mut xvar, 2, 12, 100, 100).is_ok());
    assert!(matches!(mlx_key_hook(&mut xvar, 1, Some(first.general())), Ok(None)));
    assert!(matches!(mlx_key_hook(&mut xvar, 2, Some(second.general())), Ok(None)));
    assert_eq!(mlx_dispatch(&xvar, &event(KEY_PRESS, 1)), Dispatch::Key);
    assert_eq!((first.calls.get(), second.calls.get()), (1, 0));
    assert_eq!(mlx_dispatch(&xvar, &event(KEY_PRESS, 2)), Dispatch::Key);
    assert_eq!(mlx_dispatch(&xvar, &event(KEY_PRESS, 2)), Dispatch::Key);
    assert_eq!((first.calls.get(), second.calls.get()), (1, 2));
    assert!(matches!(mlx_key_hook(&mut xvar, 2, None), Ok(Some(_))));
    assert_eq!(mlx_dispatch(&xvar, &event(KEY_PRESS, 2)), Dispatch::Dropped);
}

#[test]
fn close_request_ends_the_loop() {
    let mut xvar = session();
    assert!(mlx_new_window(&mut xvar, 8, 9, 100, 100).is_ok());
    assert_eq!(xvar.state, LoopState::Idle);
    mlx_loop(&mut xvar);
    assert_eq!(xvar.state, LoopState::Running);
    let step = mlx_loop_step(&mut xvar, Some(event(KEY_PRESS, 8)));
    assert_eq!(step, LoopStep { running: true, dispatched: Dispatch::Dropped, ticked: false });
    assert_eq!(xvar.state, LoopState::Running);
    let step = mlx_loop_step(&mut xvar, Some(close_request(8)));
    assert_eq!(step, LoopStep { running: true, dispatched: Dispatch::LoopEnd, ticked: false });
    assert_eq!(xvar.state, LoopState::StopRequested);
    let step = mlx_loop_step(&mut xvar, Some(event(KEY_PRESS, 8)));
    assert_eq!(step, LoopStep { running: false, dispatched: Dispatch::Dropped, ticked: false });
    assert_eq!(xvar.state, LoopState::Idle);
}

#[test]
fn loop_hook_runs_once_in_every_running_turn() {
    let tick = probe();
    let key = probe();
    let mut xvar = session();
    assert!(mlx_new_window(&mut xvar, 8, 9, 100, 100).is_ok());
    assert!(mlx_loop_hook(&mut xvar, Some(tick.general())).is_none());
    assert!(mlx_key_hook(&mut xvar, 8, Some(key.general())).is_ok());
    let step = mlx_loop_step(&mut xvar, Some(event(KEY_PRESS, 8)));
    assert!(!step.running);
    assert_eq!((tick.calls.get(), key.calls.get()), (0, 0));
    mlx_loop(&mut xvar);
    let step = mlx_loop_step(&mut xvar, None);
    assert_eq!(step, LoopStep { running: true, dispatched: Dispatch::Dropped, ticked: true });
    let step = mlx_loop_step(&mut xvar, Some(event(KEY_PRESS, 8)));
    assert_eq!(step, LoopStep { running: true, dispatched: Dispatch::Key, ticked: true });
    assert_eq!((tick.calls.get(), key.calls.get()), (2, 1));
    mlx_loop_end(&mut xvar);
    let step = mlx_loop_step(&mut xvar, Some(event(KEY_PRESS, 8)));
    assert!(!step.running && !step.ticked);
    assert_eq!((tick.calls.get(), key.calls.get()), (2, 1));
    assert_eq!(xvar.state, LoopState::Idle);
    assert!(mlx_loop_hook(&mut xvar, None).is_some());
}

#[test]
fn loop_starts_again_after_a_stop() {
    let mut xvar = session();
    mlx_loop_end(&mut xvar);
    assert_eq!(xvar.state, LoopState::StopRequested);
    mlx_loop(&mut xvar);
    assert_eq!(xvar.state, LoopState::Running);
    mlx_loop_end(&mut xvar);
    mlx_loop_step(&mut xvar, None);
    assert_eq!(xvar.state, LoopState::Idle);
    mlx_loop(&mut xvar);
    assert_eq!(xvar.state, LoopState::Running);
}

#[test]
fn destroy_window_twice_releases_once() {
    let mut xvar = session();
    assert!(mlx_new_window(&mut xvar, 1, 11, 100, 100).is_ok());
    assert!(mlx_new_window(&mut xvar, 2, 12, 100, 100).is_ok());
    assert_eq!(
        mlx_destroy_window(&mut xvar, 1),
        Some(WindowRelease { gc: 11, window: 1, flush: true })
    );
    assert_eq!(xvar.win_list.len(), 1);
    assert_eq!(xvar.win_list[0].window, 2);
    assert_eq!(mlx_destroy_window(&mut xvar, 1), None);
    assert_eq!(xvar.win_list.len(), 1);
    assert_eq!(xvar.win_list[0].window, 2);
    xvar.do_flush = false;
    assert_eq!(
        mlx_destroy_window(&mut xvar, 2),
        Some(WindowRelease { gc: 12, window: 2, flush: false })
    );
    assert!(xvar.win_list.is_empty());
}

#[test]
fn destroy_display_twice_releases_once() {
    let mut xvar = session();
    assert!(mlx_new_window(&mut xvar, 1, 11, 100, 100).is_ok());
    assert!(mlx_new_window(&mut xvar, 2, 12, 100, 100).is_ok());
    mlx_loop(&mut xvar);
    let release = match mlx_destroy_display(&mut xvar) {
        Some(release) => release,
        None => panic!("the connection was open"),
    };
    let ids: Vec<u64> = release.windows.iter().map(|w| w.window).collect();
    assert_eq!(ids, vec![2, 1]);
    assert_eq!(release.colormap, None);
    assert_eq!(release.display, 1);
    assert_eq!(xvar.display, 0);
    assert!(xvar.win_list.is_empty());
    assert_eq!(xvar.state, LoopState::Idle);
    assert!(mlx_destroy_display(&mut xvar).is_none());
    assert_eq!(xvar.display, 0);
    mlx_loop(&mut xvar);
    assert_eq!(xvar.state, LoopState::Idle);
}

#[test]
fn destroy_display_frees_a_private_colormap() {
    let mut xvar = session();
    xvar.private_cmap = true;
    xvar.set_private_colormap(0x77);
    let release = match mlx_destroy_display(&mut xvar) {
        Some(release) => release,
        None => panic!("the connection was open"),
    };
    assert_eq!(release.colormap, Some(0x77));
    assert!(release.windows.is_empty());
}

#[test]
fn window_handle_is_invalidated_once() {
    assert!(matches!(MlxWindow::new(0, 10, 10), Err(MlxError::WindowCreationError)));
    let mut win = match MlxWindow::new(0x99, 320, 200) {
        Ok(win) => win,
        Err(_) => panic!("the window must be made"),
    };
    assert_eq!(win.ptr(), 0x99);
    assert_eq!(win.destroy(0), None);
    assert_eq!(win.ptr(), 0x99);
    assert_eq!(win.destroy(1), Some(0x99));
    assert_eq!(win, MlxWindow { width: 320, height: 200, win_ptr: 0 });
    assert_eq!(win.destroy(1), None);
    assert_eq!(win, MlxWindow { width: 320, height: 200, win_ptr: 0 });
}

#[test]
fn str_str_finds_the_first_place() {
    assert_eq!(mlx_int_str_str("abcabc".to_string(), "bc".to_string(), 6), Some(1));
    assert_eq!(mlx_int_str_str("abcabc".to_string(), "abc".to_string(), 6), Some(0));
    assert_eq!(mlx_int_str_str("abcabc".to_string(), "cab".to_string(), 6), Some(2));
    assert_eq!(mlx_int_str_str("abcabc".to_string(), "".to_string(), 6), Some(0));
    assert_eq!(mlx_int_str_str("abcabc".to_string(), "abcabc".to_string(), 6), Some(0));
}

#[test]
fn str_str_finds_nothing_that_is_not_there() {
    assert_eq!(mlx_int_str_str("abcabc".to_string(), "bd".to_string(), 6), None);
    assert_eq!(mlx_int_str_str("abc".to_string(), "abcd".to_string(), 9), None);
    assert_eq!(mlx_int_str_str("".to_string(), "a".to_string(), 0), None);
}

#[test]
fn str_str_looks_at_the_first_len_bytes_only() {
    assert_eq!(mlx_int_str_str("abcabc".to_string(), "bc".to_string(), 2), None);
    assert_eq!(mlx_int_str_str("abcabc".to_string(), "bc".to_string(), 3), Some(1));
    assert_eq!(mlx_int_str_str("xxabc".to_string(), "abc".to_string(), 4), None);
    assert_eq!(mlx_int_str_str("xxabc".to_string(), "abc".to_string(), 5), Some(2));
    assert_eq!(mlx_int_str_str("xxabc".to_string(), "abc".to_string(), 500), Some(2));
    assert_eq!(mlx_int_str_str("abc".to_string(), "".to_string(), 0), Some(0));
}

#[test]
fn str_str_cote_skips_what_is_quoted() {
    let text = "a \"color c\" c #fff".to_string();
    assert_eq!(mlx_int_str_str("a \"color c\" c #fff".to_string(), "c".to_string(), 18), Some(3));
    assert_eq!(mlx_int_str_str_cote(text, "c".to_string(), 18), Some(12));
    assert_eq!(mlx_int_str_str_cote("\"abc\"".to_string(), "abc".to_string(), 5), None);
    assert_eq!(mlx_int_str_str_cote("\"abc\"abc".to_string(), "abc".to_string(), 8), Some(5));
    assert_eq!(mlx_int_str_str_cote("ab\"c".to_string(), "\"".to_string(), 4), None);
    assert_eq!(mlx_int_str_str_cote("ab\"c\"d".to_string(), "\"".to_string(), 6), Some(4));
    assert_eq!(mlx_int_str_str_cote("abc".to_string(), "bc".to_string(), 3), Some(1));
}

#[test]
fn find_bytes_works_on_any_bytes() {
    assert_eq!(find_bytes(&[0, 255, 0, 255, 7], &[255, 7], 5, false), Some(3));
    assert_eq!(find_bytes(&[0, 255, 0, 255, 7], &[255, 7], 4, false), None);
    assert_eq!(find_bytes(&[34, 1, 34, 1], &[1], 4, true), Some(3));
}

#[test]
fn find_in_pcm_takes_the_first_entry_with_the_key() {
    let table = vec![
        XpmCol { name: 0x2e, col: 0xffffff },
        XpmCol { name: 0x58, col: 0x000000 },
        XpmCol { name: 0x2e, col: 0x123456 },
    ];
    assert_eq!(mlx_int_find_in_pcm(&table, 0x2e), Some(0xffffff));
    assert_eq!(mlx_int_find_in_pcm(&table, 0x58), Some(0));
    assert_eq!(mlx_int_find_in_pcm(&table, 0x20), None);
    assert_eq!(mlx_int_find_in_pcm(&vec![], 0x20), None);
}

#[test]
fn color_name_holds_its_name_and_color() {
    let entry = ColName { name: "navy".to_string(), color: 0x000080 };
    assert_eq!(entry.name, "navy");
    assert_eq!(entry.color, 0x80);
}

#[test]
fn wordtab_splits_at_spaces_and_tabs() {
    assert_eq!(mlx_int_str_to_wordtab("16 16 3 1"), vec!["16", "16", "3", "1"]);
    assert_eq!(mlx_int_str_to_wordtab("  a\tbc \t d  "), vec!["a", "bc", "d"]);
    assert_eq!(mlx_int_str_to_wordtab("word"), vec!["word"]);
    assert_eq!(mlx_int_str_to_wordtab("a\nb c"), vec!["a\nb", "c"]);
    assert_eq!(mlx_int_str_to_wordtab("\u{e9}t\u{e9} \u{4e16}\u{754c}"), vec!["\u{e9}t\u{e9}", "\u{4e16}\u{754c}"]);
}

#[test]
fn wordtab_of_blanks_is_empty() {
    assert_eq!(mlx_int_str_to_wordtab(""), Vec::<String>::new());
    assert_eq!(mlx_int_str_to_wordtab(" \t  "), Vec::<String>::new());
}

#[test]
fn wordtab_words_hold_no_blank() {
    for text in ["", " ", "a", " a", "a ", "a b", "\ta\t\tb c\t", "x  y   z"] {
        let words = mlx_int_str_to_wordtab(text);
        for word in &words {
            assert!(!word.is_empty());
            assert!(!word.contains(' ') && !word.contains('\t'));
        }
        let joined: String = words.concat();
        let stripped: String = text.chars().filter(|c| *c != ' ' && *c != '\t').collect();
        assert_eq!(joined, stripped);
    }
}
