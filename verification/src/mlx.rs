//! The container that client code holds: one connection with the windows and
//! the images that were made on it, each under a handle that stays valid
//! until it is destroyed.

use vstd::prelude::*;
use crate::error::MlxError;
use crate::image::MlxImage;
use crate::mlx_window::MlxWindow;

verus! {

/// A connection with its windows and its images. A handle is the position of
/// an entry; the entry of a window or an image that was destroyed is empty.
pub struct Mlx {
    /// The handle of the connection, zero once it has been destroyed.
    pub mlx_ptr: u64,
    pub win_vec: Vec<Option<MlxWindow>>,
    pub image_vec: Vec<Option<MlxImage>>,
}

/// What a blit needs: the two server handles and the place in the window.
#[derive(Clone, Copy, Debug, PartialEq, Eq, Structural)]
pub struct Blit {
    pub win_ptr: u64,
    pub img_ptr: u64,
    pub x: i32,
    pub y: i32,
}

/// What is to be released for a container that was destroyed: first the
/// images, then the windows, each in the order of their handles, then the
/// connection.
pub struct MlxRelease {
    pub images: Vec<u64>,
    pub windows: Vec<u64>,
    pub display: u64,
}

/// The server handles of the windows among the first `n` entries that are
/// still to be released.
pub open spec fn live_windows(entries: Seq<Option<MlxWindow>>, n: int) -> Seq<u64>
    decreases n,
{
    if n <= 0 || n > entries.len() {
        seq![]
    } else {
        match entries[n - 1] {
            Some(window) => if window.win_ptr != 0 {
                live_windows(entries, n - 1).push(window.win_ptr)
            } else {
                live_windows(entries, n - 1)
            },
            None => live_windows(entries, n - 1),
        }
    }
}

/// The server handles of the images among the first `n` entries that are
/// still to be released.
pub open spec fn live_images(entries: Seq<Option<MlxImage>>, n: int) -> Seq<u64>
    decreases n,
{
    if n <= 0 || n > entries.len() {
        seq![]
    } else {
        match entries[n - 1] {
            Some(image) => if image.handle() != 0 {
                live_images(entries, n - 1).push(image.handle())
            } else {
                live_images(entries, n - 1)
            },
            None => live_images(entries, n - 1),
        }
    }
}

impl Mlx {
    /// The container of a connection that the server has opened, without
    /// windows and images. A handle of zero says that none was opened.
    pub fn new(mlx_ptr: u64) -> (mlx: Result<Mlx, MlxError>)
        ensures
            mlx_ptr == 0 ==> (mlx matches Err(e) && e == MlxError::MlxCreationError),
            mlx_ptr != 0 ==> (mlx matches Ok(made) && made.mlx_ptr == mlx_ptr
                && made.win_vec@.len() == 0 && made.image_vec@.len() == 0),
    {
        if mlx_ptr == 0 {
            return Err(MlxError::MlxCreationError);
        }
        Ok(Mlx { mlx_ptr, win_vec: Vec::new(), image_vec: Vec::new() })
    }

    /// Enters a window that the server has made, and returns its handle.
    /// Without a window nothing is entered.
    pub fn new_window(&mut self, win_ptr: u64, width: i32, height: i32) -> (handle: Result<
        usize,
        MlxError,
    >)
        ensures
            final(self).mlx_ptr == old(self).mlx_ptr,
            final(self).image_vec == old(self).image_vec,
            win_ptr == 0 ==> handle == Err::<usize, MlxError>(MlxError::WindowCreationError)
                && final(self).win_vec == old(self).win_vec,
            win_ptr != 0 ==> handle == Ok::<usize, MlxError>(old(self).win_vec@.len() as usize)
                && final(self).win_vec@ == old(self).win_vec@.push(
                Some(MlxWindow { width: width, height: height, win_ptr: win_ptr }),
            ),
    {
        match MlxWindow::new(win_ptr, width, height) {
            Err(error) => Err(error),
            Ok(window) => {
                let handle = self.win_vec.len();
                self.win_vec.push(Some(window));
                Ok(handle)
            },
        }
    }

    /// Empties the entry of a window and gives its server handle up for
    /// release. A handle whose entry is empty, as after a first destroy, and
    /// a handle that was never given out, release nothing and change nothing.
    pub fn destroy_window(&mut self, handle: usize) -> (released: Option<u64>)
        ensures
            final(self).mlx_ptr == old(self).mlx_ptr,
            final(self).image_vec == old(self).image_vec,
            handle < old(self).win_vec@.len() && old(self).win_vec@[handle as int].is_some() ==> {
                &&& released == old(self).win_vec@[handle as int].unwrap().released(
                    old(self).mlx_ptr,
                )
                &&& final(self).win_vec@ == old(self).win_vec@.update(
                    handle as int,
                    None::<MlxWindow>,
                )
            },
            !(handle < old(self).win_vec@.len() && old(self).win_vec@[handle as int].is_some())
                ==> released.is_none() && final(self).win_vec == old(self).win_vec,
    {
        if handle >= self.win_vec.len() {
            return None;
        }
        let released = match &self.win_vec[handle] {
            None => { return None; },
            Some(window) => if window.win_ptr == 0 || self.mlx_ptr == 0 {
                None
            } else {
                Some(window.win_ptr)
            },
        };
        self.win_vec.set(handle, None);
        released
    }

    /// Enters an image that the server has made, over the bytes of `data`,
    /// and returns its handle. Where the image cannot be made nothing is
    /// entered.
    pub fn new_image(
        &mut self,
        img_ptr: u64,
        width: i32,
        height: i32,
        bits_per_pixel: i32,
        size_line: i32,
        endian: i32,
        data: Vec<u8>,
    ) -> (handle: Result<usize, MlxError>)
        ensures
            final(self).mlx_ptr == old(self).mlx_ptr,
            final(self).win_vec == old(self).win_vec,
            !MlxImage::accepts(img_ptr, height, bits_per_pixel, size_line, data@.len() as int)
                ==> handle == Err::<usize, MlxError>(MlxError::ImageCreationError) && final(self).image_vec == old(self).image_vec,
            MlxImage::accepts(img_ptr, height, bits_per_pixel, size_line, data@.len() as int) ==> {
                &&& handle == Ok::<usize, MlxError>(old(self).image_vec@.len() as usize)
                &&& final(self).image_vec@.len() == old(self).image_vec@.len() + 1
                &&& final(self).image_vec@.take(old(self).image_vec@.len() as int) == old(self).image_vec@
                &&& (final(self).image_vec@.last() matches Some(made) && made.wf()
                    && made.handle() == img_ptr && made.bytes() == data@ && made.bpp()
                    == bits_per_pixel && made.stride() == size_line && made.byte_order() == endian
                    && made.region_size() == size_line * height && made.spec_width() == width
                    && made.spec_height() == height)
            },
    {
        match MlxImage::new(img_ptr, width, height, bits_per_pixel, size_line, endian, data) {
            Err(error) => Err(MlxError::ImageCreationError),
            Ok(image) => {
                let handle = self.image_vec.len();
                self.image_vec.push(Some(image));
                assert(self.image_vec@.take(handle as int) =~= old(self).image_vec@);
                Ok(handle)
            },
        }
    }

    /// Empties the entry of an image and gives its server handle up for
    /// release. A handle whose entry is empty, as after a first destroy, and
    /// a handle that was never given out, release nothing and change nothing.
    pub fn destroy_image(&mut self, handle: usize) -> (released: Option<u64>)
        ensures
            final(self).mlx_ptr == old(self).mlx_ptr,
            final(self).win_vec == old(self).win_vec,
            handle < old(self).image_vec@.len() && old(self).image_vec@[handle as int].is_some()
                ==> {
                &&& released == old(self).image_vec@[handle as int].unwrap().released(
                    old(self).mlx_ptr,
                )
                &&& final(self).image_vec@ == old(self).image_vec@.update(
                    handle as int,
                    None::<MlxImage>,
                )
            },
            !(handle < old(self).image_vec@.len() && old(self).image_vec@[handle as int].is_some())
                ==> released.is_none() && final(self).image_vec == old(self).image_vec,
    {
        if handle >= self.image_vec.len() {
            return None;
        }
        let released = match &self.image_vec[handle] {
            None => { return None; },
            Some(image) => if image.ptr() == 0 || self.mlx_ptr == 0 {
                None
            } else {
                Some(image.ptr())
            },
        };
        self.image_vec.set(handle, None);
        released
    }

    /// The blit of an image into a window at (`x`, `y`), where both handles
    /// stand for something that is still there.
    pub fn put_image_to_window(&self, window: usize, image: usize, x: i32, y: i32) -> (blit:
        Option<Blit>)
        ensures
            blit == if window < self.win_vec@.len() && image < self.image_vec@.len()
                && self.win_vec@[window as int].is_some() && self.image_vec@[image as int].is_some()
                && self.win_vec@[window as int].unwrap().win_ptr != 0
                && self.image_vec@[image as int].unwrap().handle() != 0 {
                Some(
                    Blit {
                        win_ptr: self.win_vec@[window as int].unwrap().win_ptr,
                        img_ptr: self.image_vec@[image as int].unwrap().handle(),
                        x: x,
                        y: y,
                    },
                )
            } else {
                None
            },
    {
        if window >= self.win_vec.len() || image >= self.image_vec.len() {
            return None;
        }
        match (&self.win_vec[window], &self.image_vec[image]) {
            (Some(w), Some(i)) => {
                if w.win_ptr == 0 || i.ptr() == 0 {
                    None
                } else {
                    Some(Blit { win_ptr: w.win_ptr, img_ptr: i.ptr(), x, y })
                }
            },
            _ => None,
        }
    }

    /// Destroys the container and says what is to be released: every image
    /// that is still there, then every window, then the connection. The
    /// container is left empty and without its connection, so that a second
    /// call releases nothing and changes nothing.
    pub fn destroy(&mut self) -> (release: Option<MlxRelease>)
        ensures
            old(self).mlx_ptr == 0 ==> release.is_none() && *final(self) == *old(self),
            old(self).mlx_ptr != 0 ==> {
                &&& release matches Some(freed)
                &&& freed.images@ == live_images(
                    old(self).image_vec@,
                    old(self).image_vec@.len() as int,
                )
                &&& freed.windows@ == live_windows(
                    old(self).win_vec@,
                    old(self).win_vec@.len() as int,
                )
                &&& freed.display == old(self).mlx_ptr
                &&& final(self).mlx_ptr == 0
                &&& final(self).win_vec@.len() == 0
                &&& final(self).image_vec@.len() == 0
            },
    {
        if self.mlx_ptr == 0 {
            return None;
        }
        let mut images: Vec<u64> = Vec::new();
        let mut i: usize = 0;
        while i < self.image_vec.len()
            invariant
                i <= self.image_vec@.len(),
                *self == *old(self),
                images@ == live_images(self.image_vec@, i as int),
            decreases self.image_vec@.len() - i,
        {
            match &self.image_vec[i] {
                Some(image) => {
                    if image.ptr() != 0 {
                        images.push(image.ptr());
                    }
                },
                None => {},
            }
            i += 1;
        }
        let mut windows: Vec<u64> = Vec::new();
        let mut w: usize = 0;
        while w < self.win_vec.len()
            invariant
                w <= self.win_vec@.len(),
                *self == *old(self),
                windows@ == live_windows(self.win_vec@, w as int),
            decreases self.win_vec@.len() - w,
        {
            match &self.win_vec[w] {
                Some(window) => {
                    if window.win_ptr != 0 {
                        windows.push(window.win_ptr);
                    }
                },
                None => {},
            }
            w += 1;
        }
        let display = self.mlx_ptr;
        self.image_vec.clear();
        self.win_vec.clear();
        self.mlx_ptr = 0;
        Some(MlxRelease { images, windows, display })
    }
}

} // verus!
