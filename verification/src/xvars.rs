//! The connection: what was negotiated when it was opened, the registry of
//! its windows, and the state of its event loop.

use vstd::prelude::*;
use crate::error::MlxError;
use crate::events::{
    Dispatch, Event, HookSlot, MlxGeneralHook, MlxMouseHook, CLIENT_MESSAGE,
    DESTROY_NOTIFY, MLX_MAX_EVENT,
};
use crate::shm::{mlx_int_deal_shm, shm_capability, ShmCapability, ShmReport};
use crate::visual::{
    chosen_visual, is_packing_table, mlx_int_get_visual, mlx_int_rgb_conversion, Visual,
};
use crate::window::{is_fresh_table, WinList};

verus! {

/// Where the event loop stands.
#[derive(Clone, Copy, Debug, PartialEq, Eq, Structural)]
pub enum LoopState {
    /// The loop is not running.
    Idle,
    /// The loop pulls and dispatches events.
    Running,
    /// A stop was asked for; the loop ends at the top of its next turn.
    StopRequested,
}

/// What the server told of itself right after the connection was opened.
pub struct ServerInfo {
    /// The handle of the connection; zero where none was opened.
    pub display: u64,
    pub screen: i32,
    pub root: u64,
    /// The default colormap of the screen.
    pub cmap: u64,
    /// The default depth of the screen.
    pub depth: i32,
    /// The default visual of the screen, where the server names one.
    pub default_visual: Option<Visual>,
    /// The visuals that the server supports.
    pub supported: Vec<Visual>,
    /// The atom of the window manager's close request.
    pub wm_delete_window: u64,
    /// The atom that types the window manager's messages.
    pub wm_protocols: u64,
    /// The server's answer on shared memory.
    pub shm: ShmReport,
    /// The display target, where one is set.
    pub target: Option<String>,
}

/// One connection to the display server.
pub struct XVar {
    /// The handle of the connection, zero once it has been closed.
    pub display: u64,
    pub root: u64,
    pub screen: i32,
    pub depth: i32,
    pub visual: Visual,
    pub cmap: u64,
    /// The colormap was made for this connection, which must free it.
    pub private_cmap: bool,
    /// The live windows, the newest first.
    pub win_list: Vec<WinList>,
    /// The hook that runs once in every turn of the loop.
    pub loop_hook: Option<MlxGeneralHook>,
    pub use_xshm: bool,
    pub pshm_format: i32,
    /// Flush the connection after a request that changes what is shown.
    pub do_flush: bool,
    /// The packing table of the visual.
    pub decrgb: [i32; 6],
    pub wm_delete_window: u64,
    pub wm_protocols: u64,
    pub state: LoopState,
}

/// What is to be released for a window that was destroyed: first the drawing
/// context, then the window, then a flush where the connection flushes.
#[derive(Clone, Copy, Debug, PartialEq, Eq, Structural)]
pub struct WindowRelease {
    pub gc: u64,
    pub window: u64,
    pub flush: bool,
}

/// What is to be released for a connection that was closed: first every
/// window, then the colormap where it was private, then the connection.
pub struct DisplayRelease {
    pub windows: Vec<WinList>,
    pub colormap: Option<u64>,
    pub display: u64,
}

/// What one turn of the loop did.
#[derive(Clone, Copy, Debug, PartialEq, Eq, Structural)]
pub struct LoopStep {
    /// The loop goes on; `false` where it has ended or was not running.
    pub running: bool,
    /// What became of the event of this turn.
    pub dispatched: Dispatch,
    /// The loop hook ran in this turn.
    pub ticked: bool,
}

/// The position of the first window with the identifier `window` at or after
/// `from`, or the length of the list where there is none.
pub open spec fn window_index(windows: Seq<WinList>, window: u64, from: int) -> int
    decreases windows.len() - from,
{
    if from < 0 || from >= windows.len() {
        windows.len() as int
    } else if windows[from].window == window {
        from
    } else {
        window_index(windows, window, from + 1)
    }
}

/// Whether every window of `after` stands in `before` at the same place, with
/// the same identifiers and pinned to the same size.
pub open spec fn geometry_kept(before: Seq<WinList>, after: Seq<WinList>) -> bool {
    &&& after.len() == before.len()
    &&& forall|i: int|
        0 <= i < after.len() ==> {
            &&& (#[trigger] after[i]).window == before[i].window
            &&& after[i].gc == before[i].gc
            &&& after[i].hints == before[i].hints
        }
}

/// Whether `after` is the registry `before` without the window `window`: the
/// first entry with the identifier is gone, and a registry that has no such
/// entry is as it was.
pub open spec fn window_destroyed(before: Seq<WinList>, after: Seq<WinList>, window: u64) -> bool {
    let at = window_index(before, window, 0);
    if at < before.len() {
        after == before.remove(at)
    } else {
        after == before
    }
}

/// Whether `after` is the connection `before` once it was closed: without
/// its handle and its windows, with an idle loop, and otherwise as it was. A
/// connection that was closed before is as it was.
pub open spec fn display_closed(before: XVar, after: XVar) -> bool {
    if before.display == 0 {
        after == before
    } else {
        &&& after == (XVar {
            display: 0,
            win_list: after.win_list,
            state: LoopState::Idle,
            ..before
        })
        &&& after.win_list@.len() == 0
    }
}

/// The search for a window ends at the end of the list where no window from
/// `from` on has the identifier.
pub proof fn lemma_window_absent(windows: Seq<WinList>, window: u64, from: int)
    requires
        0 <= from,
        forall|i: int| from <= i < windows.len() ==> windows[i].window != window,
    ensures
        window_index(windows, window, from) == windows.len(),
    decreases windows.len() - from,
{
    if from < windows.len() {
        lemma_window_absent(windows, window, from + 1);
    }
}

/// The search for a window stays inside the list, and where it stops short of
/// the end it stands on a window with the identifier.
pub proof fn lemma_window_index(windows: Seq<WinList>, window: u64, from: int)
    requires
        0 <= from <= windows.len(),
    ensures
        from <= window_index(windows, window, from) <= windows.len(),
        window_index(windows, window, from) < windows.len() ==> windows[window_index(
            windows,
            window,
            from,
        )].window == window,
    decreases windows.len() - from,
{
    if from < windows.len() && windows[from].window != window {
        lemma_window_index(windows, window, from + 1);
    }
}

/// After a window was destroyed, every window that is left is one that was
/// there before, pinned to the size that it had.
pub proof fn lemma_destroy_keeps_geometry(
    before: Seq<WinList>,
    after: Seq<WinList>,
    window: u64,
    j: int,
)
    requires
        window_destroyed(before, after, window),
        0 <= j < after.len(),
    ensures
        exists|i: int| 0 <= i < before.len() && after[j] == #[trigger] before[i],
{
    lemma_window_index(before, window, 0);
    let at = window_index(before, window, 0);
    if at < before.len() {
        if j < at {
            assert(after[j] == before[j]);
        } else {
            assert(after[j] == before[j + 1]);
        }
    } else {
        assert(after[j] == before[j]);
    }
}

/// A second destroy of a window changes nothing, in a registry whose windows
/// have identifiers of their own.
pub proof fn lemma_window_destroy_once(
    before: Seq<WinList>,
    between: Seq<WinList>,
    after: Seq<WinList>,
    window: u64,
)
    requires
        forall|i: int, j: int|
            0 <= i < before.len() && 0 <= j < before.len() && before[i].window == window
                && before[j].window == window ==> i == j,
        window_destroyed(before, between, window),
        window_destroyed(between, after, window),
    ensures
        after == between,
        window_index(between, window, 0) == between.len(),
{
    lemma_window_index(before, window, 0);
    let at = window_index(before, window, 0);
    if at < before.len() {
        assert forall|i: int| 0 <= i < between.len() implies between[i].window != window by {
            if i < at {
                assert(between[i] == before[i]);
            } else {
                assert(between[i] == before[i + 1]);
            }
        }
        lemma_window_absent(between, window, 0);
    }
}

/// A second close of a connection changes nothing.
pub proof fn lemma_display_close_once(before: XVar, between: XVar, after: XVar)
    requires
        display_closed(before, between),
        display_closed(between, after),
    ensures
        after == between,
        between.display == 0,
{
}

impl XVar {
    /// Every window of the registry has its full hook table.
    pub open spec fn wf(&self) -> bool {
        forall|i: int| 0 <= i < self.win_list@.len() ==> (#[trigger] self.win_list@[i]).wf()
    }

    /// The kind under which an event is dispatched. A close request of the
    /// window manager arrives as a client message and is dispatched as the
    /// event of the reserved close slot; every other event keeps its kind.
    pub open spec fn effective_kind(&self, event: Event) -> i32 {
        if event.kind == CLIENT_MESSAGE && event.message_type == self.wm_protocols && event.atom
            == self.wm_delete_window {
            DESTROY_NOTIFY
        } else {
            event.kind
        }
    }

    /// What becomes of an event: the window that it is for routes it, and an
    /// event for a window that is not in the registry is dropped.
    pub open spec fn event_outcome(&self, event: Event) -> Dispatch {
        let at = window_index(self.win_list@, event.window, 0);
        if at < self.win_list@.len() {
            self.win_list@[at].route(self.effective_kind(event))
        } else {
            Dispatch::Dropped
        }
    }

    /// The position of a window in the registry.
    pub fn find_window(&self, window: u64) -> (at: Option<usize>)
        ensures
            match at {
                Some(i) => i == window_index(self.win_list@, window, 0) && i < self.win_list@.len()
                    && self.win_list@[i as int].window == window,
                None => window_index(self.win_list@, window, 0) == self.win_list@.len(),
            },
    {
        let mut i: usize = 0;
        while i < self.win_list.len()
            invariant
                i <= self.win_list@.len(),
                window_index(self.win_list@, window, 0) == window_index(
                    self.win_list@,
                    window,
                    i as int,
                ),
            decreases self.win_list@.len() - i,
        {
            if self.win_list[i].window == window {
                return Some(i);
            }
            i += 1;
        }
        None
    }

    /// Takes the colormap that was made for a visual that is not the
    /// server's default. Where the default colormap is in use it stays.
    pub fn set_private_colormap(&mut self, created: u64)
        ensures
            *final(self) == (XVar {
                cmap: if old(self).private_cmap {
                    created
                } else {
                    old(self).cmap
                },
                ..*old(self)
            }),
    {
        if self.private_cmap {
            self.cmap = created;
        }
    }
}

/// Opens a session on what the server told of itself.
///
/// Without a connection there is no session. With one, the visual is chosen
/// among the default and the supported visuals; where none is true-color the
/// session cannot go on. Otherwise the connection starts without windows and
/// hooks, with its loop idle, with the packing table of the chosen visual, and
/// with the shared-memory capability that the report and the target allow on
/// this machine. The colormap is the server's default one: where the choice
/// asks for a private colormap, `private_cmap` says so.
pub fn mlx_init(server: Option<ServerInfo>) -> (session: Result<XVar, MlxError>)
    ensures
        match server {
            None => session matches Err(e) && e == MlxError::MlxCreationError,
            Some(info) => if info.display == 0 {
                session matches Err(e) && e == MlxError::MlxCreationError
            } else {
                match chosen_visual(info.default_visual, info.supported@, info.depth) {
                    None => session matches Err(e) && e == MlxError::NoTrueColorVisual,
                    Some((visual, private)) => {
                        &&& session matches Ok(xvar)
                        &&& xvar.wf()
                        &&& xvar.display == info.display
                        &&& xvar.root == info.root
                        &&& xvar.screen == info.screen
                        &&& xvar.depth == info.depth
                        &&& xvar.visual == visual
                        &&& xvar.cmap == info.cmap
                        &&& xvar.private_cmap == private
                        &&& xvar.win_list@.len() == 0
                        &&& xvar.loop_hook.is_none()
                        &&& xvar.do_flush
                        &&& is_packing_table(visual, xvar.decrgb@)
                        &&& xvar.wm_delete_window == info.wm_delete_window
                        &&& xvar.wm_protocols == info.wm_protocols
                        &&& xvar.state == LoopState::Idle
                        &&& exists|hostname: Seq<char>|
                            (ShmCapability {
                                use_xshm: xvar.use_xshm,
                                use_pshm: info.shm.has_pixmaps,
                                pshm_format: xvar.pshm_format,
                            }) == #[trigger] shm_capability(info.shm, info.target, hostname)
                    },
                }
            },
        },
{
    let info = match server {
        None => { return Err(MlxError::MlxCreationError); },
        Some(info) => info,
    };
    if info.display == 0 {
        return Err(MlxError::MlxCreationError);
    }
    let mut private_cmap = false;
    let visual = match mlx_int_get_visual(
        info.default_visual,
        &info.supported,
        &mut private_cmap,
        info.depth,
    ) {
        None => { return Err(MlxError::NoTrueColorVisual); },
        Some(visual) => visual,
    };
    let mut use_xshm = false;
    let mut use_pshm = false;
    let mut pshm_format: i32 = 0;
    mlx_int_deal_shm(&info.shm, &info.target, &mut use_xshm, &mut use_pshm, &mut pshm_format);
    let decrgb = mlx_int_rgb_conversion(&visual);
    Ok(
        XVar {
            display: info.display,
            root: info.root,
            screen: info.screen,
            depth: info.depth,
            visual,
            cmap: info.cmap,
            private_cmap,
            win_list: Vec::new(),
            loop_hook: None,
            use_xshm,
            pshm_format,
            do_flush: true,
            decrgb,
            wm_delete_window: info.wm_delete_window,
            wm_protocols: info.wm_protocols,
            state: LoopState::Idle,
        },
    )
}

/// Enters a window that the server has made into the registry, in front of
/// the others, pinned to `width` by `height` and with the default close
/// handler in its close slot.
///
/// The window is refused where the server made none (the identifier is
/// zero), where the connection is closed, and where a measure is larger than
/// a size hint can hold.
pub fn mlx_new_window(xvar: &mut XVar, window: u64, gc: u64, width: u32, height: u32) -> (made:
    Result<u64, MlxError>)
    requires
        old(xvar).wf(),
    ensures
        final(xvar).wf(),
        window == 0 || old(xvar).display == 0 || width > i32::MAX || height > i32::MAX ==> {
            &&& made matches Err(e) && e == MlxError::WindowCreationError
            &&& *final(xvar) == *old(xvar)
        },
        window != 0 && old(xvar).display != 0 && width <= i32::MAX && height <= i32::MAX ==> {
            &&& made == Ok::<u64, MlxError>(window)
            &&& *final(xvar) == (XVar { win_list: final(xvar).win_list, ..*old(xvar) })
            &&& final(xvar).win_list@.len() == old(xvar).win_list@.len() + 1
            &&& final(xvar).win_list@.subrange(1, final(xvar).win_list@.len() as int) == old(
                xvar,
            ).win_list@
            &&& final(xvar).win_list@[0].window == window
            &&& final(xvar).win_list@[0].gc == gc
            &&& final(xvar).win_list@[0].hints.width == width
            &&& final(xvar).win_list@[0].hints.min_width == width
            &&& final(xvar).win_list@[0].hints.max_width == width
            &&& final(xvar).win_list@[0].hints.height == height
            &&& final(xvar).win_list@[0].hints.min_height == height
            &&& final(xvar).win_list@[0].hints.max_height == height
            &&& final(xvar).win_list@[0].mouse_hook.is_none()
            &&& final(xvar).win_list@[0].key_hook.is_none()
            &&& final(xvar).win_list@[0].expose_hook.is_none()
            &&& is_fresh_table(final(xvar).win_list@[0].hooks@, MLX_MAX_EVENT as int)
        },
{
    if window == 0 || xvar.display == 0 || width > i32::MAX as u32 || height > i32::MAX as u32 {
        return Err(MlxError::WindowCreationError);
    }
    let win = WinList::new(window, gc, width as i32, height as i32);
    xvar.win_list.insert(0, win);
    assert(xvar.win_list@.subrange(1, xvar.win_list@.len() as int) =~= old(xvar).win_list@);
    Ok(window)
}

/// Fills the table slot of an event kind on a window of the registry, and
/// hands back what the slot held, uncalled. Where the window is not in the
/// registry, or the kind has no slot, what was to be installed comes back and
/// nothing changes.
pub fn mlx_hook(xvar: &mut XVar, window: u64, x_event: i32, hook: HookSlot) -> (replaced: Result<
    HookSlot,
    HookSlot,
>)
    requires
        old(xvar).wf(),
    ensures
        final(xvar).wf(),
        *final(xvar) == (XVar { win_list: final(xvar).win_list, ..*old(xvar) }),
        geometry_kept(old(xvar).win_list@, final(xvar).win_list@),
        ({
            let at = window_index(old(xvar).win_list@, window, 0);
            if at < old(xvar).win_list@.len() && 0 <= x_event < MLX_MAX_EVENT {
                &&& replaced == Ok::<HookSlot, HookSlot>(
                    old(xvar).win_list@[at].hooks@[x_event as int],
                )
                &&& final(xvar).win_list@ == old(xvar).win_list@.update(
                    at,
                    WinList {
                        hooks: final(xvar).win_list@[at].hooks,
                        ..old(xvar).win_list@[at]
                    },
                )
                &&& final(xvar).win_list@[at].hooks@ == old(xvar).win_list@[at].hooks@.update(
                    x_event as int,
                    hook,
                )
            } else {
                &&& replaced == Err::<HookSlot, HookSlot>(hook)
                &&& final(xvar).win_list@ == old(xvar).win_list@
            }
        }),
{
    if x_event < 0 || x_event as usize >= MLX_MAX_EVENT {
        return Err(hook);
    }
    match xvar.find_window(window) {
        None => Err(hook),
        Some(at) => {
            let mut win = xvar.win_list.remove(at);
            let replaced = win.install_hook(x_event, hook);
            xvar.win_list.insert(at, win);
            assert(xvar.win_list@ =~= old(xvar).win_list@.update(
                at as int,
                WinList {
                    hooks: xvar.win_list@[at as int].hooks,
                    ..old(xvar).win_list@[at as int]
                },
            ));
            Ok(replaced)
        },
    }
}

/// Installs the mouse hook of a window of the registry, or removes it where
/// `hook` is `None`, and hands back the hook that it replaces, uncalled. Where
/// the window is not in the registry `hook` comes back and nothing changes.
pub fn mlx_mouse_hook(xvar: &mut XVar, window: u64, hook: Option<MlxMouseHook>) -> (replaced: Result<
    Option<MlxMouseHook>,
    Option<MlxMouseHook>,
>)
    requires
        old(xvar).wf(),
    ensures
        final(xvar).wf(),
        *final(xvar) == (XVar { win_list: final(xvar).win_list, ..*old(xvar) }),
        geometry_kept(old(xvar).win_list@, final(xvar).win_list@),
        ({
            let at = window_index(old(xvar).win_list@, window, 0);
            if at < old(xvar).win_list@.len() {
                &&& replaced == Ok::<Option<MlxMouseHook>, Option<MlxMouseHook>>(
                    old(xvar).win_list@[at].mouse_hook,
                )
                &&& final(xvar).win_list@ == old(xvar).win_list@.update(
                    at,
                    WinList { mouse_hook: hook, ..old(xvar).win_list@[at] },
                )
            } else {
                &&& replaced == Err::<Option<MlxMouseHook>, Option<MlxMouseHook>>(hook)
                &&& final(xvar).win_list@ == old(xvar).win_list@
            }
        }),
{
    match xvar.find_window(window) {
        None => Err(hook),
        Some(at) => {
            let mut win = xvar.win_list.remove(at);
            let replaced = win.install_mouse_hook(hook);
            xvar.win_list.insert(at, win);
            assert(xvar.win_list@ =~= old(xvar).win_list@.update(
                at as int,
                WinList { mouse_hook: hook, ..old(xvar).win_list@[at as int] },
            ));
            Ok(replaced)
        },
    }
}

/// Installs the key hook of a window of the registry, or removes it where
/// `hook` is `None`, and hands back the hook that it replaces, uncalled. Where
/// the window is not in the registry `hook` comes back and nothing changes.
pub fn mlx_key_hook(xvar: &mut XVar, window: u64, hook: Option<MlxGeneralHook>) -> (replaced: Result<
    Option<MlxGeneralHook>,
    Option<MlxGeneralHook>,
>)
    requires
        old(xvar).wf(),
    ensures
        final(xvar).wf(),
        *final(xvar) == (XVar { win_list: final(xvar).win_list, ..*old(xvar) }),
        geometry_kept(old(xvar).win_list@, final(xvar).win_list@),
        ({
            let at = window_index(old(xvar).win_list@, window, 0);
            if at < old(xvar).win_list@.len() {
                &&& replaced == Ok::<Option<MlxGeneralHook>, Option<MlxGeneralHook>>(
                    old(xvar).win_list@[at].key_hook,
                )
                &&& final(xvar).win_list@ == old(xvar).win_list@.update(
                    at,
                    WinList { key_hook: hook, ..old(xvar).win_list@[at] },
                )
            } else {
                &&& replaced == Err::<Option<MlxGeneralHook>, Option<MlxGeneralHook>>(hook)
                &&& final(xvar).win_list@ == old(xvar).win_list@
            }
        }),
{
    match xvar.find_window(window) {
        None => Err(hook),
        Some(at) => {
            let mut win = xvar.win_list.remove(at);
            let replaced = win.install_key_hook(hook);
            xvar.win_list.insert(at, win);
            assert(xvar.win_list@ =~= old(xvar).win_list@.update(
                at as int,
                WinList { key_hook: hook, ..old(xvar).win_list@[at as int] },
            ));
            Ok(replaced)
        },
    }
}

/// Installs the expose hook of a window of the registry, or removes it where
/// `hook` is `None`, and hands back the hook that it replaces, uncalled. Where
/// the window is not in the registry `hook` comes back and nothing changes.
pub fn mlx_expose_hook(xvar: &mut XVar, window: u64, hook: Option<MlxGeneralHook>) -> (replaced: Result<
    Option<MlxGeneralHook>,
    Option<MlxGeneralHook>,
>)
    requires
        old(xvar).wf(),
    ensures
        final(xvar).wf(),
        *final(xvar) == (XVar { win_list: final(xvar).win_list, ..*old(xvar) }),
        geometry_kept(old(xvar).win_list@, final(xvar).win_list@),
        ({
            let at = window_index(old(xvar).win_list@, window, 0);
            if at < old(xvar).win_list@.len() {
                &&& replaced == Ok::<Option<MlxGeneralHook>, Option<MlxGeneralHook>>(
                    old(xvar).win_list@[at].expose_hook,
                )
                &&& final(xvar).win_list@ == old(xvar).win_list@.update(
                    at,
                    WinList { expose_hook: hook, ..old(xvar).win_list@[at] },
                )
            } else {
                &&& replaced == Err::<Option<MlxGeneralHook>, Option<MlxGeneralHook>>(hook)
                &&& final(xvar).win_list@ == old(xvar).win_list@
            }
        }),
{
    match xvar.find_window(window) {
        None => Err(hook),
        Some(at) => {
            let mut win = xvar.win_list.remove(at);
            let replaced = win.install_expose_hook(hook);
            xvar.win_list.insert(at, win);
            assert(xvar.win_list@ =~= old(xvar).win_list@.update(
                at as int,
                WinList { expose_hook: hook, ..old(xvar).win_list@[at as int] },
            ));
            Ok(replaced)
        },
    }
}

/// Installs the hook that runs once in every turn of the loop, or removes it
/// where `hook` is `None`, and hands back the hook that it replaces, uncalled.
pub fn mlx_loop_hook(xvar: &mut XVar, hook: Option<MlxGeneralHook>) -> (replaced: Option<
    MlxGeneralHook,
>)
    ensures
        replaced == old(xvar).loop_hook,
        *final(xvar) == (XVar { loop_hook: hook, ..*old(xvar) }),
{
    let replaced = xvar.loop_hook.take();
    xvar.loop_hook = hook;
    replaced
}

/// Takes a window out of the registry and says what is to be released for
/// it. A window that is not in the registry, as after a first destroy, gives
/// `None` and changes nothing.
pub fn mlx_destroy_window(xvar: &mut XVar, window: u64) -> (release: Option<WindowRelease>)
    requires
        old(xvar).wf(),
    ensures
        final(xvar).wf(),
        *final(xvar) == (XVar { win_list: final(xvar).win_list, ..*old(xvar) }),
        ({
            let at = window_index(old(xvar).win_list@, window, 0);
            if at < old(xvar).win_list@.len() {
                &&& release == Some(
                    WindowRelease {
                        gc: old(xvar).win_list@[at].gc,
                        window: window,
                        flush: old(xvar).do_flush,
                    },
                )
                &&& final(xvar).win_list@ == old(xvar).win_list@.remove(at)
            } else {
                &&& release.is_none()
                &&& final(xvar).win_list@ == old(xvar).win_list@
            }
        }),
        window_destroyed(old(xvar).win_list@, final(xvar).win_list@, window),
{
    match xvar.find_window(window) {
        None => None,
        Some(at) => {
            let win = xvar.win_list.remove(at);
            Some(WindowRelease { gc: win.gc, window: win.window, flush: xvar.do_flush })
        },
    }
}

/// Closes the connection and says what is to be released for it: every
/// window of the registry, then the colormap where it was private, then the
/// connection itself. The handle is invalidated, so that a second call gives
/// `None` and changes nothing.
pub fn mlx_destroy_display(xvar: &mut XVar) -> (release: Option<DisplayRelease>)
    requires
        old(xvar).wf(),
    ensures
        final(xvar).wf(),
        old(xvar).display == 0 ==> release.is_none() && *final(xvar) == *old(xvar),
        old(xvar).display != 0 ==> {
            &&& release matches Some(freed)
            &&& freed.windows@ == old(xvar).win_list@
            &&& freed.colormap == if old(xvar).private_cmap {
                Some(old(xvar).cmap)
            } else {
                None::<u64>
            }
            &&& freed.display == old(xvar).display
            &&& final(xvar).display == 0
            &&& final(xvar).win_list@.len() == 0
            &&& final(xvar).state == LoopState::Idle
            &&& *final(xvar) == (XVar {
                display: 0,
                win_list: final(xvar).win_list,
                state: LoopState::Idle,
                ..*old(xvar)
            })
        },
        display_closed(*old(xvar), *final(xvar)),
{
    if xvar.display == 0 {
        return None;
    }
    let mut windows: Vec<WinList> = Vec::new();
    windows.append(&mut xvar.win_list);
    let colormap = if xvar.private_cmap {
        Some(xvar.cmap)
    } else {
        None
    };
    let display = xvar.display;
    xvar.display = 0;
    xvar.state = LoopState::Idle;
    assert(windows@ =~= old(xvar).win_list@);
    Some(DisplayRelease { windows, colormap, display })
}

/// Starts the loop: from idle, and from a stop that was asked for before the
/// loop ran, the loop becomes running. A closed connection has no loop.
pub fn mlx_loop(xvar: &mut XVar)
    ensures
        *final(xvar) == (XVar {
            state: if old(xvar).display == 0 {
                old(xvar).state
            } else {
                LoopState::Running
            },
            ..*old(xvar)
        }),
{
    if xvar.display != 0 {
        xvar.state = LoopState::Running;
    }
}

/// Asks the loop to stop. The loop sees the request at the top of its next
/// turn.
pub fn mlx_loop_end(xvar: &mut XVar)
    ensures
        *final(xvar) == (XVar { state: LoopState::StopRequested, ..*old(xvar) }),
{
    xvar.state = LoopState::StopRequested;
}

/// One turn of the loop, with the event that was pulled for it, if any.
///
/// At the top of the turn a stop that was asked for ends the loop: it
/// becomes idle, and neither the event nor the loop hook is looked at. The
/// same holds of a loop that was not running. A running loop dispatches the
/// event, asks itself to stop where the event reached the default close
/// handler, and then runs the loop hook, once.
pub fn mlx_loop_step(xvar: &mut XVar, event: Option<Event>) -> (step: LoopStep)
    ensures
        geometry_kept(old(xvar).win_list@, final(xvar).win_list@),
        old(xvar).state != LoopState::Running ==> {
            &&& step == (LoopStep { running: false, dispatched: Dispatch::Dropped, ticked: false })
            &&& *final(xvar) == (XVar { state: LoopState::Idle, ..*old(xvar) })
        },
        old(xvar).state == LoopState::Running ==> {
            &&& step.running
            &&& step.dispatched == match event {
                Some(e) => old(xvar).event_outcome(e),
                None => Dispatch::Dropped,
            }
            &&& step.ticked == old(xvar).loop_hook.is_some()
            &&& *final(xvar) == (XVar {
                state: if step.dispatched == Dispatch::LoopEnd {
                    LoopState::StopRequested
                } else {
                    LoopState::Running
                },
                ..*old(xvar)
            })
        },
{
    match xvar.state {
        LoopState::Running => {},
        _ => {
            xvar.state = LoopState::Idle;
            return LoopStep { running: false, dispatched: Dispatch::Dropped, ticked: false };
        },
    }
    let dispatched = match event {
        Some(e) => mlx_dispatch(xvar, &e),
        None => Dispatch::Dropped,
    };
    if dispatched == Dispatch::LoopEnd {
        xvar.state = LoopState::StopRequested;
    }
    let ticked = match &xvar.loop_hook {
        Some(hook) => {
            hook.call(0);
            true
        },
        None => false,
    };
    LoopStep { running: true, dispatched, ticked }
}

/// Hands an event to the window that it is for, and says what became of it.
pub fn mlx_dispatch(xvar: &XVar, event: &Event) -> (outcome: Dispatch)
    ensures
        outcome == xvar.event_outcome(*event),
{
    let kind = if event.kind == CLIENT_MESSAGE && event.message_type == xvar.wm_protocols
        && event.atom == xvar.wm_delete_window {
        DESTROY_NOTIFY
    } else {
        event.kind
    };
    match xvar.find_window(event.window) {
        None => Dispatch::Dropped,
        Some(at) => xvar.win_list[at].dispatch(kind, event),
    }
}

/// The close request of the window manager, sent to a window that still has
/// the default close handler, stops a running loop: the turn that takes the
/// request asks for the stop, and the turn after it finds the loop idle.
pub proof fn lemma_close_request_stops_loop(xvar: XVar, event: Event)
    requires
        event.kind == CLIENT_MESSAGE,
        event.message_type == xvar.wm_protocols,
        event.atom == xvar.wm_delete_window,
        window_index(xvar.win_list@, event.window, 0) < xvar.win_list@.len(),
        xvar.win_list@[window_index(xvar.win_list@, event.window, 0)].hooks@.len()
            == MLX_MAX_EVENT,
        xvar.win_list@[window_index(xvar.win_list@, event.window, 0)].hooks@[DESTROY_NOTIFY as int]
            == HookSlot::LoopEnd,
    ensures
        xvar.event_outcome(event) == Dispatch::LoopEnd,
{
}

} // verus!
