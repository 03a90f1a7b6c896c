//! How an image comes to be: the shared-memory path with its fallback to a
//! plain image, as a sequence of steps that the caller carries out.
//!
//! The library decides; the caller talks to the server. Each step names the
//! commands to carry out now, and the progress tells which answer is awaited.
//! The caller hands the answer back as an event, and gets the next step.

use vstd::prelude::*;
use crate::shm::{segment_bytes, shm_segment_flags, shm_segment_size, SEGMENT_MODE};
use crate::xvars::XVar;

verus! {

/// The tag of an image whose pixmap shares the segment.
pub const MLX_TYPE_SHM_PIXMAP: i32 = 3;

/// The tag of an image in a shared segment with a pixmap of its own.
pub const MLX_TYPE_SHM: i32 = 2;

/// The tag of a plain image.
pub const MLX_TYPE_XIMAGE: i32 = 1;

/// The format in which every image is made.
pub const Z_PIXMAP: i32 = 2;

/// The image format of whole pixels, read from `x11::xlib::ZPixmap`. The
/// contract states the value that the protocol gives it.
#[verifier::external_body]
pub(crate) fn z_pixmap() -> (format: i32)
    ensures
        format == Z_PIXMAP,
{
    x11::xlib::ZPixmap
}

/// What is known of an image on the server's side.
#[derive(Clone, Copy, Debug, PartialEq, Eq, Structural)]
pub struct Img {
    /// The pixmap that is blitted to a window.
    pub pix: u64,
    /// The number of bytes from one row to the next.
    pub size_line: u32,
    /// The number of bits per pixel.
    pub bpp: u32,
    pub width: u32,
    pub height: u32,
    /// One of the three tags, or zero for an image that is not, or no
    /// longer, there.
    pub kind: i32,
    pub format: i32,
    /// The identifier of the shared segment, -1 without one.
    pub shmid: i32,
    /// The address at which the segment is mapped, zero without one.
    pub shmaddr: usize,
}

/// The answer that the making of an image waits for.
#[derive(Clone, Copy, Debug, PartialEq, Eq, Structural)]
pub enum ImagePhase {
    /// The server was asked for a shared image.
    AwaitShmImage,
    /// The system was asked for a segment.
    AwaitSegment,
    /// The system was asked to map the segment.
    AwaitMapping,
    /// The server was asked to attach the segment.
    AwaitAttach,
    /// The server was asked for a plain image.
    AwaitPlainImage,
    /// The server was asked for the pixmap.
    AwaitPixmap,
    /// The image is there.
    Done,
    /// Both paths are exhausted: there is no image.
    Failed,
}

/// How far the making of an image has come.
#[derive(Clone, Copy, Debug, PartialEq, Eq, Structural)]
pub struct ImageProgress {
    pub phase: ImagePhase,
    pub img: Img,
}

/// An answer of the server or of the system.
#[derive(Clone, Copy, Debug, PartialEq, Eq, Structural)]
pub enum ImageEvent {
    /// The image object, or the lack of one, with its layout.
    ImageCreated { ok: bool, bytes_per_line: u32, bits_per_pixel: u32 },
    /// The identifier of the segment, -1 where none was given.
    SegmentAllocated { shmid: i32 },
    /// The address of the mapping, all bits set where it failed.
    SegmentMapped { addr: usize },
    /// The status of the attach, zero for a failure, and the error flag as
    /// the handler left it after the connection was synchronized.
    Attached { status: i32, x_error: i32 },
    /// The identifier of the pixmap.
    PixmapCreated { pix: u64 },
}

/// One thing for the caller to do.
#[derive(Clone, Copy, Debug, PartialEq, Eq, Structural)]
pub enum ImageCommand {
    /// Ask the server for a shared image of the given format.
    CreateShmImage { format: i32 },
    /// Ask the system for a private segment of this size, with these flags.
    AllocateSegment { size: u64, flags: i32 },
    /// Map the segment into this process.
    MapSegment { shmid: i32 },
    /// Clear the process-wide error flag.
    ResetErrorFlag,
    /// Install the error handler that sets the flag, and keep the handler
    /// that was there.
    InstallErrorHandler,
    /// Ask the server to attach the segment, and synchronize.
    Attach,
    /// Put back the error handler that was kept.
    RestoreErrorHandler,
    /// Unmap the segment.
    DetachSegment,
    /// Mark the segment for removal.
    RemoveSegment { shmid: i32 },
    /// Destroy the image object.
    DestroyImage,
    /// Make the pixmap on the segment.
    CreateSharedPixmap,
    /// Make a pixmap of its own.
    CreatePlainPixmap,
    /// Ask the server for a plain image of the given format.
    CreatePlainImage { format: i32 },
    /// Free the pixmap.
    FreePixmap,
    /// Flush the connection.
    Flush,
}

/// The next step: where the making stands now, and what is to be done.
pub struct ImageStep {
    pub progress: ImageProgress,
    pub commands: Vec<ImageCommand>,
}

/// The record of an image of which nothing is known yet but its size and
/// format.
pub open spec fn blank_img(width: u32, height: u32, format: i32) -> Img {
    Img {
        pix: 0,
        size_line: 0,
        bpp: 0,
        width: width,
        height: height,
        kind: 0,
        format: format,
        shmid: -1i32,
        shmaddr: 0,
    }
}

/// The start of the plain path for an image of the size and format of `img`.
pub open spec fn plain_start(img: Img) -> (ImageProgress, Seq<ImageCommand>) {
    (
        ImageProgress {
            phase: ImagePhase::AwaitPlainImage,
            img: blank_img(img.width, img.height, img.format),
        },
        seq![ImageCommand::CreatePlainImage { format: img.format }],
    )
}

/// The start of the shared-memory path.
pub open spec fn shm_start(width: u32, height: u32, format: i32) -> (
    ImageProgress,
    Seq<ImageCommand>,
) {
    (
        ImageProgress {
            phase: ImagePhase::AwaitShmImage,
            img: blank_img(width, height, format),
        },
        seq![ImageCommand::CreateShmImage { format: format }],
    )
}

/// What the commands of a step are followed by when the shared-memory path is
/// given up: the start of the plain path.
pub open spec fn fall_back(cleanup: Seq<ImageCommand>, img: Img) -> (
    ImageProgress,
    Seq<ImageCommand>,
) {
    (plain_start(img).0, cleanup + plain_start(img).1)
}

/// The step that follows an answer.
///
/// On the shared-memory path every failure undoes what was done so far and
/// falls back to the plain path: no image, no segment, no mapping, or an
/// attach that failed or raised an error. The attach stands between the
/// installing and the restoring of the error handler, and the flag is cleared
/// before it. After the attach the segment is marked for removal at once, and
/// the pixmap shares the segment where the connection prefers the format of
/// the image. On the plain path a missing image is the end. An answer that
/// the phase does not wait for changes nothing.
pub open spec fn image_next(
    pshm_format: i32,
    do_flush: bool,
    progress: ImageProgress,
    event: ImageEvent,
) -> (ImageProgress, Seq<ImageCommand>) {
    let img = progress.img;
    match (progress.phase, event) {
        (ImagePhase::AwaitShmImage, ImageEvent::ImageCreated { ok, bytes_per_line, bits_per_pixel }) => {
            if !ok {
                fall_back(seq![], img)
            } else if segment_bytes(img.width, img.height) > u64::MAX {
                fall_back(seq![ImageCommand::DestroyImage], img)
            } else {
                (
                    ImageProgress {
                        phase: ImagePhase::AwaitSegment,
                        img: Img { size_line: bytes_per_line, bpp: bits_per_pixel, ..img },
                    },
                    seq![
                        ImageCommand::AllocateSegment {
                            size: segment_bytes(img.width, img.height) as u64,
                            flags: 512 | SEGMENT_MODE,
                        },
                    ],
                )
            }
        },
        (ImagePhase::AwaitSegment, ImageEvent::SegmentAllocated { shmid }) => {
            if shmid == -1 {
                fall_back(seq![ImageCommand::DestroyImage], img)
            } else {
                (
                    ImageProgress {
                        phase: ImagePhase::AwaitMapping,
                        img: Img { shmid: shmid, ..img },
                    },
                    seq![ImageCommand::MapSegment { shmid: shmid }],
                )
            }
        },
        (ImagePhase::AwaitMapping, ImageEvent::SegmentMapped { addr }) => {
            if addr == usize::MAX {
                fall_back(
                    seq![
                        ImageCommand::RemoveSegment { shmid: img.shmid },
                        ImageCommand::DestroyImage,
                    ],
                    img,
                )
            } else {
                (
                    ImageProgress {
                        phase: ImagePhase::AwaitAttach,
                        img: Img { shmaddr: addr, ..img },
                    },
                    seq![
                        ImageCommand::ResetErrorFlag,
                        ImageCommand::InstallErrorHandler,
                        ImageCommand::Attach,
                    ],
                )
            }
        },
        (ImagePhase::AwaitAttach, ImageEvent::Attached { status, x_error }) => {
            if status == 0 || x_error != 0 {
                fall_back(
                    seq![
                        ImageCommand::RestoreErrorHandler,
                        ImageCommand::DetachSegment,
                        ImageCommand::RemoveSegment { shmid: img.shmid },
                        ImageCommand::DestroyImage,
                    ],
                    img,
                )
            } else if pshm_format == img.format {
                (
                    ImageProgress {
                        phase: ImagePhase::AwaitPixmap,
                        img: Img { kind: MLX_TYPE_SHM_PIXMAP, ..img },
                    },
                    seq![
                        ImageCommand::RestoreErrorHandler,
                        ImageCommand::RemoveSegment { shmid: img.shmid },
                        ImageCommand::CreateSharedPixmap,
                    ],
                )
            } else {
                (
                    ImageProgress {
                        phase: ImagePhase::AwaitPixmap,
                        img: Img { kind: MLX_TYPE_SHM, ..img },
                    },
                    seq![
                        ImageCommand::RestoreErrorHandler,
                        ImageCommand::RemoveSegment { shmid: img.shmid },
                        ImageCommand::CreatePlainPixmap,
                    ],
                )
            }
        },
        (ImagePhase::AwaitPlainImage, ImageEvent::ImageCreated { ok, bytes_per_line, bits_per_pixel }) => {
            if !ok {
                (ImageProgress { phase: ImagePhase::Failed, img: img }, seq![])
            } else {
                (
                    ImageProgress {
                        phase: ImagePhase::AwaitPixmap,
                        img: Img {
                            size_line: bytes_per_line,
                            bpp: bits_per_pixel,
                            kind: MLX_TYPE_XIMAGE,
                            ..img
                        },
                    },
                    seq![ImageCommand::CreatePlainPixmap],
                )
            }
        },
        (ImagePhase::AwaitPixmap, ImageEvent::PixmapCreated { pix }) => {
            (
                ImageProgress { phase: ImagePhase::Done, img: Img { pix: pix, ..img } },
                if do_flush {
                    seq![ImageCommand::Flush]
                } else {
                    seq![]
                },
            )
        },
        _ => (progress, seq![]),
    }
}

/// Starts the making of an image of `width` by `height`: on the
/// shared-memory path where the connection can use shared memory, on the
/// plain path where it cannot.
pub fn mlx_new_image(xvar: &XVar, width: u32, height: u32) -> (step: ImageStep)
    ensures
        (step.progress, step.commands@) == if xvar.use_xshm {
            shm_start(width, height, Z_PIXMAP)
        } else {
            plain_start(blank_img(width, height, Z_PIXMAP))
        },
{
    let format = z_pixmap();
    if xvar.use_xshm {
        mlx_int_new_xshmimage(width, height, format)
    } else {
        mlx_int_new_image(width, height, format)
    }
}

/// Starts the shared-memory path for an image of the given size and format.
pub fn mlx_int_new_xshmimage(width: u32, height: u32, format: i32) -> (step: ImageStep)
    ensures
        (step.progress, step.commands@) == shm_start(width, height, format),
{
    let img = Img {
        pix: 0,
        size_line: 0,
        bpp: 0,
        width,
        height,
        kind: 0,
        format,
        shmid: -1,
        shmaddr: 0,
    };
    let mut commands: Vec<ImageCommand> = Vec::new();
    commands.push(ImageCommand::CreateShmImage { format });
    assert(commands@ =~= seq![ImageCommand::CreateShmImage { format: format }]);
    ImageStep { progress: ImageProgress { phase: ImagePhase::AwaitShmImage, img }, commands }
}

/// Starts the plain path for an image of the given size and format.
pub fn mlx_int_new_image(width: u32, height: u32, format: i32) -> (step: ImageStep)
    ensures
        (step.progress, step.commands@) == plain_start(blank_img(width, height, format)),
{
    let img = Img {
        pix: 0,
        size_line: 0,
        bpp: 0,
        width,
        height,
        kind: 0,
        format,
        shmid: -1,
        shmaddr: 0,
    };
    let mut commands: Vec<ImageCommand> = Vec::new();
    commands.push(ImageCommand::CreatePlainImage { format });
    assert(commands@ =~= seq![ImageCommand::CreatePlainImage { format: format }]);
    ImageStep { progress: ImageProgress { phase: ImagePhase::AwaitPlainImage, img }, commands }
}

/// Gives the shared-memory path up: after the commands of `cleanup` the
/// plain path starts.
fn give_up_shm(cleanup: Vec<ImageCommand>, img: &Img) -> (step: ImageStep)
    ensures
        (step.progress, step.commands@) == fall_back(cleanup@, *img),
{
    let mut commands = cleanup;
    let mut plain = mlx_int_new_image(img.width, img.height, img.format);
    commands.append(&mut plain.commands);
    ImageStep { progress: plain.progress, commands }
}

/// Takes an answer and gives the next step of the making of an image.
pub fn mlx_image_step(xvar: &XVar, progress: ImageProgress, event: ImageEvent) -> (step: ImageStep)
    ensures
        (step.progress, step.commands@) == image_next(
            xvar.pshm_format,
            xvar.do_flush,
            progress,
            event,
        ),
{
    let img = progress.img;
    let mut commands: Vec<ImageCommand> = Vec::new();
    match (progress.phase, event) {
        (ImagePhase::AwaitShmImage, ImageEvent::ImageCreated { ok, bytes_per_line, bits_per_pixel }) => {
            if !ok {
                assert(commands@ =~= seq![]);
                return give_up_shm(commands, &img);
            }
            match shm_segment_size(img.width, img.height) {
                None => {
                    commands.push(ImageCommand::DestroyImage);
                    assert(commands@ =~= seq![ImageCommand::DestroyImage]);
                    give_up_shm(commands, &img)
                },
                Some(size) => {
                    let flags = shm_segment_flags();
                    commands.push(ImageCommand::AllocateSegment { size, flags });
                    assert(commands@ =~= seq![
                        ImageCommand::AllocateSegment { size: size, flags: flags },
                    ]);
                    ImageStep {
                        progress: ImageProgress {
                            phase: ImagePhase::AwaitSegment,
                            img: Img { size_line: bytes_per_line, bpp: bits_per_pixel, ..img },
                        },
                        commands,
                    }
                },
            }
        },
        (ImagePhase::AwaitSegment, ImageEvent::SegmentAllocated { shmid }) => {
            if shmid == -1 {
                commands.push(ImageCommand::DestroyImage);
                assert(commands@ =~= seq![ImageCommand::DestroyImage]);
                give_up_shm(commands, &img)
            } else {
                commands.push(ImageCommand::MapSegment { shmid });
                assert(commands@ =~= seq![ImageCommand::MapSegment { shmid: shmid }]);
                ImageStep {
                    progress: ImageProgress {
                        phase: ImagePhase::AwaitMapping,
                        img: Img { shmid, ..img },
                    },
                    commands,
                }
            }
        },
        (ImagePhase::AwaitMapping, ImageEvent::SegmentMapped { addr }) => {
            if addr == usize::MAX {
                commands.push(ImageCommand::RemoveSegment { shmid: img.shmid });
                commands.push(ImageCommand::DestroyImage);
                assert(commands@ =~= seq![
                    ImageCommand::RemoveSegment { shmid: img.shmid },
                    ImageCommand::DestroyImage,
                ]);
                give_up_shm(commands, &img)
            } else {
                commands.push(ImageCommand::ResetErrorFlag);
                commands.push(ImageCommand::InstallErrorHandler);
                commands.push(ImageCommand::Attach);
                assert(commands@ =~= seq![
                    ImageCommand::ResetErrorFlag,
                    ImageCommand::InstallErrorHandler,
                    ImageCommand::Attach,
                ]);
                ImageStep {
                    progress: ImageProgress {
                        phase: ImagePhase::AwaitAttach,
                        img: Img { shmaddr: addr, ..img },
                    },
                    commands,
                }
            }
        },
        (ImagePhase::AwaitAttach, ImageEvent::Attached { status, x_error }) => {
            commands.push(ImageCommand::RestoreErrorHandler);
            if status == 0 || x_error != 0 {
                commands.push(ImageCommand::DetachSegment);
                commands.push(ImageCommand::RemoveSegment { shmid: img.shmid });
                commands.push(ImageCommand::DestroyImage);
                assert(commands@ =~= seq![
                    ImageCommand::RestoreErrorHandler,
                    ImageCommand::DetachSegment,
                    ImageCommand::RemoveSegment { shmid: img.shmid },
                    ImageCommand::DestroyImage,
                ]);
                give_up_shm(commands, &img)
            } else if xvar.pshm_format == img.format {
                commands.push(ImageCommand::RemoveSegment { shmid: img.shmid });
                commands.push(ImageCommand::CreateSharedPixmap);
                assert(commands@ =~= seq![
                    ImageCommand::RestoreErrorHandler,
                    ImageCommand::RemoveSegment { shmid: img.shmid },
                    ImageCommand::CreateSharedPixmap,
                ]);
                ImageStep {
                    progress: ImageProgress {
                        phase: ImagePhase::AwaitPixmap,
                        img: Img { kind: MLX_TYPE_SHM_PIXMAP, ..img },
                    },
                    commands,
                }
            } else {
                commands.push(ImageCommand::RemoveSegment { shmid: img.shmid });
                commands.push(ImageCommand::CreatePlainPixmap);
                assert(commands@ =~= seq![
                    ImageCommand::RestoreErrorHandler,
                    ImageCommand::RemoveSegment { shmid: img.shmid },
                    ImageCommand::CreatePlainPixmap,
                ]);
                ImageStep {
                    progress: ImageProgress {
                        phase: ImagePhase::AwaitPixmap,
                        img: Img { kind: MLX_TYPE_SHM, ..img },
                    },
                    commands,
                }
            }
        },
        (ImagePhase::AwaitPlainImage, ImageEvent::ImageCreated { ok, bytes_per_line, bits_per_pixel }) => {
            if !ok {
                assert(commands@ =~= seq![]);
                ImageStep { progress: ImageProgress { phase: ImagePhase::Failed, img }, commands }
            } else {
                commands.push(ImageCommand::CreatePlainPixmap);
                assert(commands@ =~= seq![ImageCommand::CreatePlainPixmap]);
                ImageStep {
                    progress: ImageProgress {
                        phase: ImagePhase::AwaitPixmap,
                        img: Img {
                            size_line: bytes_per_line,
                            bpp: bits_per_pixel,
                            kind: MLX_TYPE_XIMAGE,
                            ..img
                        },
                    },
                    commands,
                }
            }
        },
        (ImagePhase::AwaitPixmap, ImageEvent::PixmapCreated { pix }) => {
            if xvar.do_flush {
                commands.push(ImageCommand::Flush);
                assert(commands@ =~= seq![ImageCommand::Flush]);
            } else {
                assert(commands@ =~= seq![]);
            }
            ImageStep {
                progress: ImageProgress { phase: ImagePhase::Done, img: Img { pix, ..img } },
                commands,
            }
        },
        _ => {
            assert(commands@ =~= seq![]);
            ImageStep { progress, commands }
        },
    }
}

/// The error handler of the attach: it raises the process-wide error flag.
pub fn shm_att_pb(x_error: &mut i32)
    ensures
        *final(x_error) == 1,
{
    *x_error = 1;
}

/// Whether the image lies in a shared segment.
pub open spec fn is_shared(img: Img) -> bool {
    img.kind == MLX_TYPE_SHM_PIXMAP || img.kind == MLX_TYPE_SHM
}

/// What is to be done to release an image: the segment is unmapped where the
/// image is shared, then the image object and the pixmap are freed, and the
/// connection is flushed where it flushes.
pub open spec fn release_commands(img: Img, do_flush: bool) -> Seq<ImageCommand> {
    if img.kind == 0 {
        seq![]
    } else {
        (if is_shared(img) {
            seq![ImageCommand::DetachSegment]
        } else {
            seq![]
        }) + seq![ImageCommand::DestroyImage, ImageCommand::FreePixmap] + (if do_flush {
            seq![ImageCommand::Flush]
        } else {
            seq![]
        })
    }
}

/// Releases an image and invalidates its record, so that a second call has
/// nothing to do and changes nothing.
pub fn mlx_destroy_image(xvar: &XVar, img: &mut Img) -> (commands: Vec<ImageCommand>)
    ensures
        commands@ == release_commands(*old(img), xvar.do_flush),
        *final(img) == (Img { kind: 0, ..*old(img) }),
{
    let mut commands: Vec<ImageCommand> = Vec::new();
    if img.kind == 0 {
        assert(commands@ =~= release_commands(*old(img), xvar.do_flush));
        return commands;
    }
    if img.kind == MLX_TYPE_SHM_PIXMAP || img.kind == MLX_TYPE_SHM {
        commands.push(ImageCommand::DetachSegment);
    }
    commands.push(ImageCommand::DestroyImage);
    commands.push(ImageCommand::FreePixmap);
    if xvar.do_flush {
        commands.push(ImageCommand::Flush);
    }
    img.kind = 0;
    assert(commands@ =~= release_commands(*old(img), xvar.do_flush));
    commands
}

/// Whether `command` stands in `commands` at position `at`.
pub open spec fn has_at(commands: Seq<ImageCommand>, at: int, command: ImageCommand) -> bool {
    0 <= at < commands.len() && commands[at] == command
}

/// The error handler never outlives the attach. The step that installs it
/// clears the error flag first and attaches right after, and the step that
/// takes the answer of the attach restores the handler before anything else,
/// whether the attach succeeded or not.
pub proof fn lemma_error_handler_is_scoped(
    pshm_format: i32,
    do_flush: bool,
    progress: ImageProgress,
    event: ImageEvent,
)
    ensures
        forall|at: int|
            has_at(
                image_next(pshm_format, do_flush, progress, event).1,
                at,
                ImageCommand::InstallErrorHandler,
            ) ==> {
                &&& has_at(
                    image_next(pshm_format, do_flush, progress, event).1,
                    at - 1,
                    ImageCommand::ResetErrorFlag,
                )
                &&& has_at(
                    image_next(pshm_format, do_flush, progress, event).1,
                    at + 1,
                    ImageCommand::Attach,
                )
                &&& image_next(pshm_format, do_flush, progress, event).0.phase
                    == ImagePhase::AwaitAttach
            },
        progress.phase == ImagePhase::AwaitAttach && event is Attached ==> has_at(
            image_next(pshm_format, do_flush, progress, event).1,
            0,
            ImageCommand::RestoreErrorHandler,
        ),
{
}

/// A failure on the shared-memory path is never the end: whatever fails
/// there, the plain path is tried next. Only a plain image that the server
/// does not make ends the making without an image.
pub proof fn lemma_shm_failure_falls_back(
    pshm_format: i32,
    do_flush: bool,
    progress: ImageProgress,
    event: ImageEvent,
)
    requires
        progress.phase != ImagePhase::Failed,
        image_next(pshm_format, do_flush, progress, event).0.phase == ImagePhase::Failed,
    ensures
        progress.phase == ImagePhase::AwaitPlainImage,
        event matches ImageEvent::ImageCreated { ok, .. } && !ok,
{
}

/// A segment that was obtained is always marked for removal by the step that
/// ends its use on this side: after the attach, and on every failure from the
/// mapping on.
pub proof fn lemma_segment_is_removed(
    pshm_format: i32,
    do_flush: bool,
    progress: ImageProgress,
    event: ImageEvent,
)
    requires
        (progress.phase == ImagePhase::AwaitAttach && event is Attached) || (progress.phase
            == ImagePhase::AwaitMapping && event == (ImageEvent::SegmentMapped {
            addr: usize::MAX,
        })),
    ensures
        exists|at: int|
            has_at(
                image_next(pshm_format, do_flush, progress, event).1,
                at,
                ImageCommand::RemoveSegment { shmid: progress.img.shmid },
            ),
{
    let commands = image_next(pshm_format, do_flush, progress, event).1;
    if progress.phase == ImagePhase::AwaitMapping {
        assert(has_at(commands, 0, ImageCommand::RemoveSegment { shmid: progress.img.shmid }));
    } else {
        match event {
            ImageEvent::Attached { status, x_error } => {
                if status == 0 || x_error != 0 {
                    assert(has_at(
                        commands,
                        2,
                        ImageCommand::RemoveSegment { shmid: progress.img.shmid },
                    ));
                } else {
                    assert(has_at(
                        commands,
                        1,
                        ImageCommand::RemoveSegment { shmid: progress.img.shmid },
                    ));
                }
            },
            _ => {},
        }
    }
}

/// A second release of an image asks for nothing and changes nothing.
pub proof fn lemma_image_release_once(img: Img, do_flush: bool)
    ensures
        release_commands(Img { kind: 0, ..img }, do_flush) == Seq::<ImageCommand>::empty(),
        (Img { kind: 0, ..(Img { kind: 0, ..img }) }) == (Img { kind: 0, ..img }),
{
}

} // verus!
