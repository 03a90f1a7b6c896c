//! The handle of a window as client code holds it.

use vstd::prelude::*;
use crate::error::MlxError;

verus! {

/// A window of fixed size and the handle under which the engine knows it.
#[derive(Debug, PartialEq, Eq)]
pub struct MlxWindow {
    /// The width in pixels.
    pub width: i32,
    /// The height in pixels.
    pub height: i32,
    /// The handle, zero once the window has been destroyed.
    pub win_ptr: u64,
}

impl MlxWindow {
    /// The window as it stands after a destroy on the connection `mlx_ptr`:
    /// its handle is invalidated, unless there was no handle or no
    /// connection, and its size is what it was.
    pub open spec fn destroyed(self, mlx_ptr: u64) -> MlxWindow {
        if self.win_ptr == 0 || mlx_ptr == 0 {
            self
        } else {
            MlxWindow { win_ptr: 0, ..self }
        }
    }

    /// The handle that a destroy on the connection `mlx_ptr` gives up for
    /// release.
    pub open spec fn released(self, mlx_ptr: u64) -> Option<u64> {
        if self.win_ptr == 0 || mlx_ptr == 0 {
            None
        } else {
            Some(self.win_ptr)
        }
    }

    /// Takes the window that the server made. A handle of zero says that it
    /// made none.
    pub fn new(win_ptr: u64, width: i32, height: i32) -> (window: Result<MlxWindow, MlxError>)
        ensures
            win_ptr == 0 ==> window == Err::<MlxWindow, MlxError>(MlxError::WindowCreationError),
            win_ptr != 0 ==> window == Ok::<MlxWindow, MlxError>(
                MlxWindow { width: width, height: height, win_ptr: win_ptr },
            ),
    {
        if win_ptr == 0 {
            return Err(MlxError::WindowCreationError);
        }
        Ok(MlxWindow { width, height, win_ptr })
    }

    /// Gives the handle up for release and invalidates it. The size stays.
    pub fn destroy(&mut self, mlx_ptr: u64) -> (released: Option<u64>)
        ensures
            released == old(self).released(mlx_ptr),
            *final(self) == old(self).destroyed(mlx_ptr),
    {
        if self.win_ptr == 0 || mlx_ptr == 0 {
            return None;
        }
        let handle = self.win_ptr;
        self.win_ptr = 0;
        Some(handle)
    }

    /// The handle of the window, zero after `destroy`.
    pub fn ptr(&self) -> (handle: u64)
        ensures
            handle == self.win_ptr,
    {
        self.win_ptr
    }
}

/// A second destroy of a window releases nothing and changes nothing, and no
/// destroy changes the size of the window.
pub proof fn lemma_window_destroy_once(window: MlxWindow, first: u64, second: u64)
    requires
        first != 0,
    ensures
        window.destroyed(first).released(second).is_none(),
        window.destroyed(first).destroyed(second) == window.destroyed(first),
        window.destroyed(first).width == window.width,
        window.destroyed(first).height == window.height,
{
}

} // verus!
