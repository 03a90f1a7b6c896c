//! The shared-memory capability of a connection, and the size and flags of
//! the segment behind a shared image.

use vstd::prelude::*;

verus! {

/// What the server answered when asked for its shared-memory extension.
#[derive(Clone, Copy, Debug, PartialEq, Eq, Structural)]
pub struct ShmReport {
    /// The extension is there.
    pub has_extension: bool,
    /// The server can also share pixmaps, not only images.
    pub has_pixmaps: bool,
    /// The format of the server's shared pixmaps. It is read only where
    /// both of the above hold.
    pub pixmap_format: i32,
}

/// The shared-memory capability that a connection works with.
#[derive(Clone, Copy, Debug, PartialEq, Eq, Structural)]
pub struct ShmCapability {
    /// Shared images may be used.
    pub use_xshm: bool,
    /// The server said that it can share pixmaps.
    pub use_pshm: bool,
    /// The format of shared pixmaps, or -1 where there is none to prefer.
    pub pshm_format: i32,
}

/// The name of the machine, from `gethostname::gethostname`, with what is not
/// Unicode in it replaced. Nothing is claimed of the name: it is whatever the
/// machine is called.
#[verifier::external_body]
pub(crate) fn local_hostname() -> (name: String) {
    gethostname::gethostname().to_string_lossy().into_owned()
}

/// The flag that asks for a new segment, read from `shm::ffi::Ipc::CREAT`.
/// The contract states the value that the system gives it.
#[verifier::external_body]
pub(crate) fn ipc_creat() -> (flag: i32)
    ensures
        flag == 512,
{
    shm::ffi::Ipc::CREAT as i32
}

/// Whether the display target names a host that is neither this machine nor
/// the loopback name. Without a target the connection is local.
pub open spec fn names_other_host(target: Option<String>, hostname: Seq<char>) -> bool {
    match target {
        None => false,
        Some(name) => name@ != hostname && name@ != "localhost"@,
    }
}

/// The capability that follows from the server's report, the display target
/// and the name of this machine.
///
/// A target on another host rules shared memory out, whatever the server
/// reported: a segment cannot be shared between two machines. Otherwise shared
/// images are usable where the extension is there, and a pixmap format is
/// preferred where the server shares pixmaps as well.
pub open spec fn shm_capability(
    report: ShmReport,
    target: Option<String>,
    hostname: Seq<char>,
) -> ShmCapability {
    if names_other_host(target, hostname) {
        ShmCapability { use_xshm: false, use_pshm: report.has_pixmaps, pshm_format: -1i32 }
    } else {
        ShmCapability {
            use_xshm: report.has_extension,
            use_pshm: report.has_pixmaps,
            pshm_format: if report.has_extension && report.has_pixmaps {
                report.pixmap_format
            } else {
                -1i32
            },
        }
    }
}

/// Decides the shared-memory capability for a known host name.
pub fn resolve_shm(report: &ShmReport, target: &Option<String>, hostname: &String) -> (capability:
    ShmCapability)
    ensures
        capability == shm_capability(*report, *target, hostname@),
{
    let mut use_xshm = report.has_extension;
    let mut pshm_format: i32 = if report.has_extension && report.has_pixmaps {
        report.pixmap_format
    } else {
        -1
    };
    match target {
        Some(name) => {
            let loopback = "localhost".to_owned();
            if !(*name == *hostname) && !(*name == loopback) {
                pshm_format = -1;
                use_xshm = false;
            }
        },
        None => {},
    }
    ShmCapability { use_xshm, use_pshm: report.has_pixmaps, pshm_format }
}

/// Decides the shared-memory capability of a connection on this machine,
/// whose name it asks for.
///
/// The outcome is the capability for some host name. Where the target is
/// missing or is the loopback name, the name of the machine does not matter,
/// and the outcome follows from the report alone.
pub fn mlx_int_deal_shm(
    report: &ShmReport,
    target: &Option<String>,
    use_xshm: &mut bool,
    use_pshm: &mut bool,
    pshm_format: &mut i32,
)
    ensures
        exists|hostname: Seq<char>|
            (ShmCapability {
                use_xshm: *final(use_xshm),
                use_pshm: *final(use_pshm),
                pshm_format: *final(pshm_format),
            }) == #[trigger] shm_capability(*report, *target, hostname),
{
    let hostname = local_hostname();
    let capability = resolve_shm(report, target, &hostname);
    *use_xshm = capability.use_xshm;
    *use_pshm = capability.use_pshm;
    *pshm_format = capability.pshm_format;
    assert((ShmCapability {
        use_xshm: *use_xshm,
        use_pshm: *use_pshm,
        pshm_format: *pshm_format,
    }) == shm_capability(*report, *target, hostname@));
}

/// A display target on another host switches shared memory off, whatever the
/// server reported of its extension.
pub proof fn lemma_remote_target_disables_shm(
    report: ShmReport,
    target: Option<String>,
    hostname: Seq<char>,
)
    requires
        names_other_host(target, hostname),
    ensures
        !shm_capability(report, target, hostname).use_xshm,
        shm_capability(report, target, hostname).pshm_format == -1,
{
}

/// Without the extension shared memory is off and no format is preferred,
/// wherever the display is.
pub proof fn lemma_no_extension_no_shm(
    report: ShmReport,
    target: Option<String>,
    hostname: Seq<char>,
)
    requires
        !report.has_extension,
    ensures
        !shm_capability(report, target, hostname).use_xshm,
        shm_capability(report, target, hostname).pshm_format == -1,
{
}

/// The number of bytes of the segment behind a shared image: four bytes for
/// each pixel of rows that are 32 pixels wider than the image, which leaves
/// room for the server's rounding of the stride.
pub open spec fn segment_bytes(width: u32, height: u32) -> int {
    (width + 32) * height * 4
}

/// The size of the segment for an image, or `None` where it exceeds what a
/// size can hold.
pub fn shm_segment_size(width: u32, height: u32) -> (size: Option<u64>)
    ensures
        segment_bytes(width, height) <= u64::MAX ==> size == Some(
            segment_bytes(width, height) as u64,
        ),
        segment_bytes(width, height) > u64::MAX ==> size.is_none(),
{
    let row: u128 = width as u128 + 32;
    assert(0 <= (row as int) * (height as int) <= 0x1_0000_0020 * 0x1_0000_0000)
        by (nonlinear_arith)
        requires
            0 <= row <= 0x1_0000_0020,
            0 <= height <= 0x1_0000_0000,
    ;
    let bytes: u128 = row * (height as u128) * 4;
    if bytes > u64::MAX as u128 {
        None
    } else {
        Some(bytes as u64)
    }
}

/// The permission bits that a new segment is asked for.
pub const SEGMENT_MODE: i32 = 777;

/// The flags with which a segment is asked for: a new one, with the
/// permission bits of `SEGMENT_MODE`.
pub fn shm_segment_flags() -> (flags: i32)
    ensures
        flags == 512 | SEGMENT_MODE,
{
    ipc_creat() | SEGMENT_MODE
}

} // verus!
