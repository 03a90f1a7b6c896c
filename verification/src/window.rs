//! Windows: what is asked of the server to make one, the pinned size hints,
//! and the hook table with its dispatch rule.

use vstd::prelude::*;
use crate::events::{
    last_event, Dispatch, Event, HookSlot, MlxEventHook, MlxGeneralHook, MlxMouseHook,
    BUTTON_PRESS, DESTROY_NOTIFY, EXPOSE, KEY_PRESS, MLX_MAX_EVENT,
};

verus! {

/// The size hints that a window manager reads for a window.
#[derive(Clone, Copy, Debug, PartialEq, Eq, Structural)]
pub struct SizeHints {
    pub flags: i64,
    pub x: i32,
    pub y: i32,
    pub width: i32,
    pub height: i32,
    pub min_width: i32,
    pub min_height: i32,
    pub max_width: i32,
    pub max_height: i32,
}

/// Pins a window to one size: the requested, the smallest and the largest
/// size all become `width` by `height`. The other hints are kept.
pub fn mlx_int_anti_resize_win(hints: &mut SizeHints, width: i32, height: i32)
    ensures
        *final(hints) == (SizeHints {
            width: width,
            height: height,
            min_width: width,
            min_height: height,
            max_width: width,
            max_height: height,
            ..*old(hints)
        }),
{
    hints.width = width;
    hints.min_width = width;
    hints.max_width = width;
    hints.height = height;
    hints.min_height = height;
    hints.max_height = height;
}

/// The attribute bit for the background pixel, read from
/// `x11::xlib::CWBackPixel`. The contract states the value that the protocol
/// gives it.
#[verifier::external_body]
pub(crate) fn cw_back_pixel() -> (bit: u64)
    ensures
        bit == 0x0002,
{
    x11::xlib::CWBackPixel
}

/// The attribute bit for the border pixel, read from
/// `x11::xlib::CWBorderPixel`. The contract states the value that the protocol
/// gives it.
#[verifier::external_body]
pub(crate) fn cw_border_pixel() -> (bit: u64)
    ensures
        bit == 0x0008,
{
    x11::xlib::CWBorderPixel
}

/// The attribute bit for the event mask, read from `x11::xlib::CWEventMask`.
/// The contract states the value that the protocol gives it.
#[verifier::external_body]
pub(crate) fn cw_event_mask() -> (bit: u64)
    ensures
        bit == 0x0800,
{
    x11::xlib::CWEventMask
}

/// The attribute bit for the colormap, read from `x11::xlib::CWColormap`. The
/// contract states the value that the protocol gives it.
#[verifier::external_body]
pub(crate) fn cw_colormap() -> (bit: u64)
    ensures
        bit == 0x2000,
{
    x11::xlib::CWColormap
}

/// The drawing function that copies the source, read from
/// `x11::xlib::GXcopy`. The contract states the value that the protocol gives
/// it.
#[verifier::external_body]
pub(crate) fn gx_copy() -> (function: i32)
    ensures
        function == GX_COPY,
{
    x11::xlib::GXcopy
}

/// The context bit for the drawing function, read from
/// `x11::xlib::GCFunction`. The contract states the value that the protocol
/// gives it.
#[verifier::external_body]
pub(crate) fn gc_function() -> (bit: u32)
    ensures
        bit == 1,
{
    x11::xlib::GCFunction
}

/// The context bit for the plane mask, read from `x11::xlib::GCPlaneMask`.
/// The contract states the value that the protocol gives it.
#[verifier::external_body]
pub(crate) fn gc_plane_mask() -> (bit: u32)
    ensures
        bit == 2,
{
    x11::xlib::GCPlaneMask
}

/// The context bit for the foreground, read from `x11::xlib::GCForeground`.
/// The contract states the value that the protocol gives it.
#[verifier::external_body]
pub(crate) fn gc_foreground() -> (bit: u32)
    ensures
        bit == 4,
{
    x11::xlib::GCForeground
}

/// The drawing function that copies the source over the destination.
pub const GX_COPY: i32 = 3;

/// The event mask that selects every kind of event.
pub const ALL_EVENTS: i64 = 0xffffff;

/// The attributes that every window is created with.
#[derive(Clone, Copy, Debug, PartialEq, Eq, Structural)]
pub struct WindowAttributes {
    pub background_pixel: u64,
    pub border_pixel: u64,
    pub colormap: u64,
    pub event_mask: i64,
    /// The bits that tell the server which of the attributes are given.
    pub value_mask: u64,
}

/// The values that every drawing context is created with.
#[derive(Clone, Copy, Debug, PartialEq, Eq, Structural)]
pub struct GcValues {
    pub function: i32,
    pub plane_mask: u64,
    pub foreground: u64,
    /// The bits that tell the server which of the values are given.
    pub value_mask: u64,
}

/// The attributes of a new window on the given colormap: a background of
/// zero, a border of all bits, and every kind of event selected, so that a
/// hook for any kind can be installed later.
pub fn window_attributes(colormap: u64) -> (attributes: WindowAttributes)
    ensures
        attributes == (WindowAttributes {
            background_pixel: 0,
            border_pixel: u64::MAX,
            colormap: colormap,
            event_mask: ALL_EVENTS,
            value_mask: 0x280a,
        }),
{
    let event = cw_event_mask();
    let back = cw_back_pixel();
    let border = cw_border_pixel();
    let cmap = cw_colormap();
    let value_mask: u64 = event | back | border | cmap;
    assert(value_mask == 0x280a) by (bit_vector)
        requires
            value_mask == event | back | border | cmap,
            event == 0x0800,
            back == 0x0002,
            border == 0x0008,
            cmap == 0x2000,
    ;
    WindowAttributes {
        background_pixel: 0,
        border_pixel: u64::MAX,
        colormap,
        event_mask: ALL_EVENTS,
        value_mask,
    }
}

/// The values of a new drawing context: it copies what is drawn, with every
/// bit of the foreground set and no plane masked out.
pub fn gc_values() -> (values: GcValues)
    ensures
        values == (GcValues {
            function: GX_COPY,
            plane_mask: u64::MAX,
            foreground: u64::MAX,
            value_mask: 7,
        }),
{
    let function = gc_function();
    let plane = gc_plane_mask();
    let foreground = gc_foreground();
    let bits: u32 = function | plane | foreground;
    assert(bits == 7) by (bit_vector)
        requires
            bits == function | plane | foreground,
            function == 1,
            plane == 2,
            foreground == 4,
    ;
    GcValues {
        function: gx_copy(),
        plane_mask: u64::MAX,
        foreground: u64::MAX,
        value_mask: bits as u64,
    }
}

/// One window of the registry: its identifiers on the server, its fixed size,
/// and its hooks.
pub struct WinList {
    /// The server's identifier of the window, zero once it is destroyed.
    pub window: u64,
    /// The server's identifier of the window's drawing context.
    pub gc: u64,
    /// The size hints that the window was pinned to.
    pub hints: SizeHints,
    pub mouse_hook: Option<MlxMouseHook>,
    pub key_hook: Option<MlxGeneralHook>,
    pub expose_hook: Option<MlxGeneralHook>,
    /// One slot for each event kind of the protocol.
    pub hooks: Vec<HookSlot>,
}

/// A table of `len` slots that are empty but for the close slot, which holds
/// the default close handler.
pub open spec fn is_fresh_table(hooks: Seq<HookSlot>, len: int) -> bool {
    &&& hooks.len() == len
    &&& forall|k: int|
        0 <= k < len ==> #[trigger] hooks[k] == if k == DESTROY_NOTIFY {
            HookSlot::LoopEnd
        } else {
            HookSlot::Empty
        }
}

impl WinList {
    /// The table has one slot for each event kind.
    pub open spec fn wf(&self) -> bool {
        self.hooks@.len() == MLX_MAX_EVENT
    }

    /// Which hook an event of the given kind reaches. A mouse press, a key
    /// press and an expose go to the hook of their own where one is
    /// installed. Every other event, and these three where their own hook is
    /// missing, goes by the table slot of its kind. An empty slot, and a kind
    /// outside the table, drops the event.
    pub open spec fn route(&self, kind: i32) -> Dispatch {
        if kind == BUTTON_PRESS && self.mouse_hook.is_some() {
            Dispatch::Mouse
        } else if kind == KEY_PRESS && self.key_hook.is_some() {
            Dispatch::Key
        } else if kind == EXPOSE && self.expose_hook.is_some() {
            Dispatch::Expose
        } else if 0 <= kind < self.hooks@.len() {
            match self.hooks@[kind as int] {
                HookSlot::Empty => Dispatch::Dropped,
                HookSlot::LoopEnd => Dispatch::LoopEnd,
                HookSlot::Hook(_) => Dispatch::Generic(kind),
            }
        } else {
            Dispatch::Dropped
        }
    }

    /// The entry of a window that the server has just made: pinned to
    /// `width` by `height`, without any hook of the caller, and with the
    /// default close handler in the close slot.
    pub fn new(window: u64, gc: u64, width: i32, height: i32) -> (win: WinList)
        ensures
            win.wf(),
            win.window == window,
            win.gc == gc,
            win.hints.width == width && win.hints.min_width == width && win.hints.max_width
                == width,
            win.hints.height == height && win.hints.min_height == height && win.hints.max_height
                == height,
            win.mouse_hook.is_none(),
            win.key_hook.is_none(),
            win.expose_hook.is_none(),
            is_fresh_table(win.hooks@, MLX_MAX_EVENT as int),
    {
        let mut hints = SizeHints {
            flags: 0,
            x: 0,
            y: 0,
            width: 0,
            height: 0,
            min_width: 0,
            min_height: 0,
            max_width: 0,
            max_height: 0,
        };
        mlx_int_anti_resize_win(&mut hints, width, height);
        let count: i32 = last_event();
        let mut hooks: Vec<HookSlot> = Vec::new();
        let mut kind: i32 = 0;
        while kind < count
            invariant
                0 <= kind <= count,
                count == MLX_MAX_EVENT,
                is_fresh_table(hooks@, kind as int),
            decreases count - kind,
        {
            if kind == DESTROY_NOTIFY {
                hooks.push(HookSlot::LoopEnd);
            } else {
                hooks.push(HookSlot::Empty);
            }
            kind += 1;
        }
        WinList {
            window,
            gc,
            hints,
            mouse_hook: None,
            key_hook: None,
            expose_hook: None,
            hooks,
        }
    }

    /// Installs the mouse hook, or removes it where `hook` is `None`, and
    /// hands back the hook that it replaces. The replaced hook is not called.
    pub fn install_mouse_hook(&mut self, hook: Option<MlxMouseHook>) -> (replaced: Option<MlxMouseHook>)
        ensures
            replaced == old(self).mouse_hook,
            *final(self) == (WinList { mouse_hook: hook, ..*old(self) }),
    {
        let replaced = self.mouse_hook.take();
        self.mouse_hook = hook;
        replaced
    }

    /// Installs the key hook, or removes it where `hook` is `None`, and hands
    /// back the hook that it replaces. The replaced hook is not called.
    pub fn install_key_hook(&mut self, hook: Option<MlxGeneralHook>) -> (replaced: Option<MlxGeneralHook>)
        ensures
            replaced == old(self).key_hook,
            *final(self) == (WinList { key_hook: hook, ..*old(self) }),
    {
        let replaced = self.key_hook.take();
        self.key_hook = hook;
        replaced
    }

    /// Installs the expose hook, or removes it where `hook` is `None`, and
    /// hands back the hook that it replaces. The replaced hook is not called.
    pub fn install_expose_hook(&mut self, hook: Option<MlxGeneralHook>) -> (replaced: Option<MlxGeneralHook>)
        ensures
            replaced == old(self).expose_hook,
            *final(self) == (WinList { expose_hook: hook, ..*old(self) }),
    {
        let replaced = self.expose_hook.take();
        self.expose_hook = hook;
        replaced
    }

    /// Fills the table slot of an event kind and hands back what the slot
    /// held. What it held is not called. A kind outside the table has no
    /// slot: what was to be installed comes back and nothing changes.
    pub fn install_hook(&mut self, x_event: i32, hook: HookSlot) -> (replaced: HookSlot)
        ensures
            0 <= x_event < old(self).hooks@.len() ==> {
                &&& replaced == old(self).hooks@[x_event as int]
                &&& *final(self) == (WinList {
                    hooks: final(self).hooks,
                    ..*old(self)
                })
                &&& final(self).hooks@ == old(self).hooks@.update(x_event as int, hook)
            },
            !(0 <= x_event < old(self).hooks@.len()) ==> {
                &&& replaced == hook
                &&& *final(self) == *old(self)
            },
    {
        if x_event < 0 || x_event as usize >= self.hooks.len() {
            return hook;
        }
        let at: usize = x_event as usize;
        let replaced = self.hooks.remove(at);
        self.hooks.insert(at, hook);
        assert(self.hooks@ =~= old(self).hooks@.update(x_event as int, hook));
        replaced
    }

    /// Hands an event to the hook that its kind reaches, and says which one
    /// that was. An event without a hook is dropped. The default close
    /// handler is not run here: the result tells the loop to stop.
    pub fn dispatch(&self, kind: i32, event: &Event) -> (outcome: Dispatch)
        ensures
            outcome == self.route(kind),
    {
        if kind == BUTTON_PRESS {
            if let Some(hook) = &self.mouse_hook {
                hook.call(event.x, event.y, event.detail);
                return Dispatch::Mouse;
            }
        }
        if kind == KEY_PRESS {
            if let Some(hook) = &self.key_hook {
                hook.call(event.detail);
                return Dispatch::Key;
            }
        }
        if kind == EXPOSE {
            if let Some(hook) = &self.expose_hook {
                hook.call(event.detail);
                return Dispatch::Expose;
            }
        }
        if kind < 0 || kind as usize >= self.hooks.len() {
            return Dispatch::Dropped;
        }
        match &self.hooks[kind as usize] {
            HookSlot::Empty => Dispatch::Dropped,
            HookSlot::LoopEnd => Dispatch::LoopEnd,
            HookSlot::Hook(MlxEventHook::General(hook)) => {
                hook.call(event.detail);
                Dispatch::Generic(kind)
            },
            HookSlot::Hook(MlxEventHook::Mouse(hook)) => {
                hook.call(event.x, event.y, event.detail);
                Dispatch::Generic(kind)
            },
        }
    }
}

/// A hook installed on an occupied slot takes the slot: the next event of
/// that kind reaches the table, whatever the slot held before.
pub proof fn lemma_install_replaces(win: WinList, after: WinList, kind: i32, hook: MlxEventHook)
    requires
        0 <= kind < win.hooks@.len(),
        kind != BUTTON_PRESS || win.mouse_hook.is_none(),
        kind != KEY_PRESS || win.key_hook.is_none(),
        kind != EXPOSE || win.expose_hook.is_none(),
        after == (WinList { hooks: after.hooks, ..win }),
        after.hooks@ == win.hooks@.update(kind as int, HookSlot::Hook(hook)),
    ensures
        after.route(kind) == Dispatch::Generic(kind),
        forall|other: i32| other != kind ==> after.route(other) == win.route(other),
{
}

/// A window that has just been made drops every event but the close request,
/// which asks the loop to stop.
pub proof fn lemma_fresh_window_routes(win: WinList, kind: i32)
    requires
        win.mouse_hook.is_none(),
        win.key_hook.is_none(),
        win.expose_hook.is_none(),
        is_fresh_table(win.hooks@, MLX_MAX_EVENT as int),
    ensures
        win.route(kind) == if kind == DESTROY_NOTIFY {
            Dispatch::LoopEnd
        } else {
            Dispatch::Dropped
        },
{
    if 0 <= kind < MLX_MAX_EVENT {
        assert(win.hooks@[kind as int] == if kind == DESTROY_NOTIFY {
            HookSlot::LoopEnd
        } else {
            HookSlot::Empty
        });
    }
}

} // verus!
