//! Icon extraction and rasterization, modeled as a state machine over the
//! platform's handle-based resource subsystem.
//!
//! The platform calls themselves (extract an icon handle, query its
//! bitmaps, create a surface, create a bitmap, copy pixel bytes) are made
//! by the caller, which feeds each call's outcome back as an event.  Every
//! decision between the calls is made here: which handle to use, when to
//! abort, and — on every exit path — exactly which native resources must
//! be released, in which order.  A handle value of 0 stands for the
//! platform's null handle.

use vstd::prelude::*;

verus! {

/// The fixed edge length of the target raster, in pixels.
pub const ICON_SIZE: u32 = 32;

/// The byte length of a full raster: 32 x 32 pixels, 4 bytes each.
pub const RASTER_BYTES: usize = 4096;

/// Why an extraction or rasterization attempt ended without pixels.
#[derive(Clone, Copy, Debug, PartialEq, Eq, Structural)]
pub enum IconError {
    /// The resource subsystem reported no icon for the path.
    NoIconFound,
    /// The handle's mask/color bitmap query failed.
    IconInfoUnavailable,
    /// No off-screen drawing surface could be acquired.
    SurfaceCreationFailed,
    /// No bitmap compatible with the surface could be created.
    BitmapCreationFailed,
}

/// A concrete pixel buffer: `data` holds `width * height * 4` bytes,
/// blue, green, red, alpha per pixel, rows top-to-bottom.
#[derive(Debug)]
pub struct PixelBuffer {
    pub width: u32,
    pub height: u32,
    pub data: Vec<u8>,
}

pub open spec fn pixel_buffer_wf(b: PixelBuffer) -> bool {
    b.data@.len() == b.width * b.height * 4
}

/// One release the caller owes the platform, with the release routine it
/// must go through.  `Deselect` restores the surface's previous bitmap
/// before the created bitmap is deleted.
#[derive(Clone, Copy, Debug, PartialEq, Eq, Structural)]
pub enum Release {
    /// Destroy an extracted icon handle.
    Icon(u64),
    /// Delete a bitmap object (created bitmap, or the handle's mask/color
    /// sub-bitmaps).
    Bitmap(u64),
    /// Delete the off-screen drawing surface.
    Surface(u64),
    /// Select the surface's previous bitmap back in.
    Deselect,
}

/// Where a raster session stands between two platform calls.
pub enum RasterState {
    /// Nothing acquired yet; the next event is the extraction result.
    Start,
    /// Icon handles extracted; the mask/color query is pending.
    Extracted { large: u64, small: u64 },
    /// Mask/color bitmaps known; surface acquisition is pending.
    InfoQueried { large: u64, small: u64, mask: u64, color: u64 },
    /// Surface acquired; bitmap creation is pending.
    SurfaceReady { large: u64, small: u64, mask: u64, color: u64, dc: u64 },
    /// Bitmap created and selectable; the pixel copy is pending.
    BitmapReady { large: u64, small: u64, mask: u64, color: u64, dc: u64, bitmap: u64 },
    /// The session is over: the outcome, and the releases the caller must
    /// now perform, in order.
    Done { result: Result<PixelBuffer, IconError>, releases: Vec<Release> },
}

/// The outcome of the platform call the state was waiting for.
pub enum RasterEvent {
    /// Extraction result: how many icons the path yielded, and the large
    /// and small handles (0 where none was produced).
    Extracted { count: u32, large: u64, small: u64 },
    /// Mask/color query result: whether it succeeded, and the two
    /// sub-bitmap handles it filled in.
    InfoQueried { ok: bool, mask: u64, color: u64 },
    /// The handle of the drawing surface, 0 on failure.
    SurfaceCreated { dc: u64 },
    /// The handle of the created bitmap, 0 on failure.
    BitmapCreated { bitmap: u64 },
    /// The pixel bytes the copy call wrote into the caller's buffer.
    BitsCopied { data: Vec<u8> },
}

/// The platform call the caller must make next.
pub enum RasterAction {
    /// Query mask/color bitmaps of this icon handle.
    QueryIconInfo { icon: u64 },
    /// Acquire an off-screen drawing surface.
    CreateSurface,
    /// Create a 32x32, 32-bit, top-down bitmap compatible with the surface.
    CreateBitmap { surface: u64 },
    /// Select `bitmap` into `surface`, then copy `color`'s pixels out as
    /// 32-bit rows, top-down, into a buffer of `RASTER_BYTES` bytes.
    CopyBits { surface: u64, bitmap: u64, color: u64 },
    /// The session is done: perform the releases listed in the state.
    Finish,
}

/// Which event a state is waiting for.
pub open spec fn event_matches(s: RasterState, e: RasterEvent) -> bool {
    match s {
        RasterState::Start => e is Extracted,
        RasterState::Extracted { .. } => e is InfoQueried,
        RasterState::InfoQueried { .. } => e is SurfaceCreated,
        RasterState::SurfaceReady { .. } => e is BitmapCreated,
        RasterState::BitmapReady { .. } => e is BitsCopied,
        RasterState::Done { .. } => false,
    }
}

/// Internal consistency of a state: handles the machine has vetted are
/// nonzero.
pub open spec fn state_wf(s: RasterState) -> bool {
    match s {
        RasterState::Start => true,
        RasterState::Extracted { large, small } => large != 0 || small != 0,
        RasterState::InfoQueried { large, small, .. } => large != 0 || small != 0,
        RasterState::SurfaceReady { large, small, dc, .. } => (large != 0 || small != 0) && dc
            != 0,
        RasterState::BitmapReady { large, small, dc, bitmap, .. } => (large != 0 || small != 0)
            && dc != 0 && bitmap != 0,
        RasterState::Done { .. } => true,
    }
}

/// The icon handle a session works with: the large one when it exists,
/// otherwise the small one.
pub open spec fn chosen_icon(large: u64, small: u64) -> u64 {
    if large != 0 {
        large
    } else {
        small
    }
}

/// Releases owed for the extracted icon handles, nonzero ones only,
/// large before small.
pub open spec fn icon_releases(large: u64, small: u64) -> Seq<Release> {
    (if large != 0 {
        seq![Release::Icon(large)]
    } else {
        Seq::<Release>::empty()
    }) + (if small != 0 {
        seq![Release::Icon(small)]
    } else {
        Seq::<Release>::empty()
    })
}

/// Releases owed for the mask/color sub-bitmaps, nonzero ones only,
/// color before mask.
pub open spec fn info_releases(mask: u64, color: u64) -> Seq<Release> {
    (if color != 0 {
        seq![Release::Bitmap(color)]
    } else {
        Seq::<Release>::empty()
    }) + (if mask != 0 {
        seq![Release::Bitmap(mask)]
    } else {
        Seq::<Release>::empty()
    })
}

/// Every native resource a state still owes the platform, in the order
/// the session would release them if it ended right there.
pub open spec fn owed_releases(s: RasterState) -> Seq<Release> {
    match s {
        RasterState::Start => Seq::<Release>::empty(),
        RasterState::Extracted { large, small } => icon_releases(large, small),
        RasterState::InfoQueried { large, small, mask, color } => icon_releases(large, small)
            + info_releases(mask, color),
        RasterState::SurfaceReady { large, small, mask, color, dc } => seq![Release::Surface(dc)]
            + icon_releases(large, small) + info_releases(mask, color),
        RasterState::BitmapReady { large, small, mask, color, dc, bitmap } => seq![
            Release::Deselect,
            Release::Bitmap(bitmap),
            Release::Surface(dc),
        ] + icon_releases(large, small) + info_releases(mask, color),
        RasterState::Done { .. } => Seq::<Release>::empty(),
    }
}

/// Live handles in a state are pairwise distinct: the platform never
/// hands out the same live handle twice within one session.
pub open spec fn handles_distinct(s: RasterState) -> bool {
    match s {
        RasterState::Start => true,
        RasterState::Extracted { large, small } => large == 0 || small == 0 || large != small,
        RasterState::InfoQueried { large, small, mask, color } => (large == 0 || small == 0
            || large != small) && (mask == 0 || color == 0 || mask != color),
        RasterState::SurfaceReady { large, small, mask, color, .. } => (large == 0 || small == 0
            || large != small) && (mask == 0 || color == 0 || mask != color),
        RasterState::BitmapReady { large, small, mask, color, bitmap, .. } => (large == 0 || small
            == 0 || large != small) && (mask == 0 || color == 0 || mask != color) && bitmap != mask
            && bitmap != color,
        RasterState::Done { .. } => true,
    }
}

/// The cleanup law: whatever point a session has reached, the releases it
/// owes name each acquired resource exactly once — ending the session
/// there neither leaks a resource (the terminal release list equals this
/// sequence, by `raster_step`'s contract) nor releases one twice.
pub proof fn lemma_release_exactly_once(s: RasterState)
    requires
        state_wf(s),
        handles_distinct(s),
    ensures
        owed_releases(s).no_duplicates(),
{
    let r = owed_releases(s);
    assert(forall|i: int, j: int| 0 <= i < j < r.len() ==> r[i] != r[j]);
}

/// Whether the step on `(s, e)` ends the session.
pub open spec fn spec_raster_done(s: RasterState, e: RasterEvent) -> bool {
    match (s, e) {
        (RasterState::Start, RasterEvent::Extracted { count, large, small }) => count == 0 || (
        large == 0 && small == 0),
        (RasterState::Extracted { .. }, RasterEvent::InfoQueried { ok, .. }) => !ok,
        (RasterState::InfoQueried { .. }, RasterEvent::SurfaceCreated { dc }) => dc == 0,
        (RasterState::SurfaceReady { .. }, RasterEvent::BitmapCreated { bitmap }) => bitmap == 0,
        (RasterState::BitmapReady { .. }, RasterEvent::BitsCopied { .. }) => true,
        _ => false,
    }
}

/// The state after a step that does not end the session.
pub open spec fn spec_raster_next(s: RasterState, e: RasterEvent) -> RasterState
    recommends
        event_matches(s, e),
        !spec_raster_done(s, e),
{
    match (s, e) {
        (RasterState::Start, RasterEvent::Extracted { count, large, small }) => {
            RasterState::Extracted { large, small }
        },
        (RasterState::Extracted { large, small }, RasterEvent::InfoQueried { ok, mask, color }) => {
            RasterState::InfoQueried { large, small, mask, color }
        },
        (
            RasterState::InfoQueried { large, small, mask, color },
            RasterEvent::SurfaceCreated { dc },
        ) => {
            RasterState::SurfaceReady { large, small, mask, color, dc }
        },
        (
            RasterState::SurfaceReady { large, small, mask, color, dc },
            RasterEvent::BitmapCreated { bitmap },
        ) => {
            RasterState::BitmapReady { large, small, mask, color, dc, bitmap }
        },
        _ => s,
    }
}

/// The platform call owed after the step.
pub open spec fn spec_raster_action(s: RasterState, e: RasterEvent) -> RasterAction
    recommends
        event_matches(s, e),
{
    if spec_raster_done(s, e) {
        RasterAction::Finish
    } else {
        match spec_raster_next(s, e) {
            RasterState::Extracted { large, small } => RasterAction::QueryIconInfo {
                icon: chosen_icon(large, small),
            },
            RasterState::InfoQueried { .. } => RasterAction::CreateSurface,
            RasterState::SurfaceReady { dc, .. } => RasterAction::CreateBitmap { surface: dc },
            RasterState::BitmapReady { dc, bitmap, color, .. } => RasterAction::CopyBits {
                surface: dc,
                bitmap,
                color,
            },
            _ => RasterAction::Finish,
        }
    }
}

/// The error a terminal step reports; `None` means the session succeeded.
pub open spec fn spec_raster_error(s: RasterState, e: RasterEvent) -> Option<IconError>
    recommends
        event_matches(s, e),
        spec_raster_done(s, e),
{
    match s {
        RasterState::Start => Some(IconError::NoIconFound),
        RasterState::Extracted { .. } => Some(IconError::IconInfoUnavailable),
        RasterState::InfoQueried { .. } => Some(IconError::SurfaceCreationFailed),
        RasterState::SurfaceReady { .. } => Some(IconError::BitmapCreationFailed),
        _ => None,
    }
}

/// The pixel bytes a successful session delivers: the copied bytes when
/// the copy filled the whole raster, an all-zero raster otherwise (a
/// failed copy is tolerated, never fatal).
pub open spec fn spec_raster_pixels(e: RasterEvent) -> Seq<u8>
    recommends
        e is BitsCopied,
{
    match e {
        RasterEvent::BitsCopied { data } => {
            if data@.len() == RASTER_BYTES {
                data@
            } else {
                Seq::<u8>::new(RASTER_BYTES as nat, |i: int| 0u8)
            }
        },
        _ => Seq::<u8>::empty(),
    }
}

/// Appends the icon-handle releases.
fn push_icon_releases(out: &mut Vec<Release>, large: u64, small: u64)
    ensures
        final(out)@ == old(out)@ + icon_releases(large, small),
{
    if large != 0 {
        out.push(Release::Icon(large));
    }
    if small != 0 {
        out.push(Release::Icon(small));
    }
    proof {
        assert(final(out)@ =~= old(out)@ + icon_releases(large, small));
    }
}

/// Appends the mask/color releases.
fn push_info_releases(out: &mut Vec<Release>, mask: u64, color: u64)
    ensures
        final(out)@ == old(out)@ + info_releases(mask, color),
{
    if color != 0 {
        out.push(Release::Bitmap(color));
    }
    if mask != 0 {
        out.push(Release::Bitmap(mask));
    }
    proof {
        assert(final(out)@ =~= old(out)@ + info_releases(mask, color));
    }
}

/// A fresh all-zero raster buffer.
fn zero_raster() -> (v: Vec<u8>)
    ensures
        v@ == Seq::<u8>::new(RASTER_BYTES as nat, |i: int| 0u8),
{
    let mut v: Vec<u8> = Vec::new();
    let mut i: usize = 0;
    while i < RASTER_BYTES
        invariant
            i <= RASTER_BYTES,
            v@ == Seq::<u8>::new(i as nat, |j: int| 0u8),
        decreases RASTER_BYTES - i,
    {
        v.push(0);
        proof {
            assert(v@ =~= Seq::<u8>::new((i + 1) as nat, |j: int| 0u8));
        }
        i = i + 1;
    }
    v
}

/// Advances a raster session by the outcome of the platform call it was
/// waiting for, and says which call to make next.  On every terminal
/// transition, the `Done` state lists exactly the releases owed for the
/// resources acquired so far, in release order.
pub fn raster_step(s: RasterState, e: RasterEvent) -> (r: (RasterState, RasterAction))
    requires
        state_wf(s),
        event_matches(s, e),
    ensures
        state_wf(r.0),
        r.1 == spec_raster_action(s, e),
        r.0 is Done <==> spec_raster_done(s, e),
        !spec_raster_done(s, e) ==> r.0 == spec_raster_next(s, e),
        r.0 matches RasterState::Done { result, releases } ==> {
            &&& releases@ == owed_releases(s)
            &&& (spec_raster_error(s, e) matches Some(err) ==> (result matches Err(got) && got
                == err))
            &&& (spec_raster_error(s, e) is None ==> (result matches Ok(pb) && pb.width
                == ICON_SIZE && pb.height == ICON_SIZE && pb.data@ == spec_raster_pixels(e)))
        },
        r.0 matches RasterState::Done { result: Ok(pb), .. } ==> pixel_buffer_wf(pb),
{
    match (s, e) {
        (RasterState::Start, RasterEvent::Extracted { count, large, small }) => {
            if count == 0 || (large == 0 && small == 0) {
                let releases: Vec<Release> = Vec::new();
                proof {
                    assert(releases@ =~= owed_releases(s));
                }
                (
                    RasterState::Done { result: Err(IconError::NoIconFound), releases },
                    RasterAction::Finish,
                )
            } else {
                let icon = if large != 0 {
                    large
                } else {
                    small
                };
                (RasterState::Extracted { large, small }, RasterAction::QueryIconInfo { icon })
            }
        },
        (RasterState::Extracted { large, small }, RasterEvent::InfoQueried { ok, mask, color }) => {
            if !ok {
                let mut releases: Vec<Release> = Vec::new();
                push_icon_releases(&mut releases, large, small);
                proof {
                    assert(releases@ =~= owed_releases(s));
                }
                (
                    RasterState::Done { result: Err(IconError::IconInfoUnavailable), releases },
                    RasterAction::Finish,
                )
            } else {
                (
                    RasterState::InfoQueried { large, small, mask, color },
                    RasterAction::CreateSurface,
                )
            }
        },
        (
            RasterState::InfoQueried { large, small, mask, color },
            RasterEvent::SurfaceCreated { dc },
        ) => {
            if dc == 0 {
                let mut releases: Vec<Release> = Vec::new();
                push_icon_releases(&mut releases, large, small);
                push_info_releases(&mut releases, mask, color);
                proof {
                    assert(releases@ =~= owed_releases(s));
                }
                (
                    RasterState::Done { result: Err(IconError::SurfaceCreationFailed), releases },
                    RasterAction::Finish,
                )
            } else {
                (
                    RasterState::SurfaceReady { large, small, mask, color, dc },
                    RasterAction::CreateBitmap { surface: dc },
                )
            }
        },
        (
            RasterState::SurfaceReady { large, small, mask, color, dc },
            RasterEvent::BitmapCreated { bitmap },
        ) => {
            if bitmap == 0 {
                let mut releases: Vec<Release> = Vec::new();
                releases.push(Release::Surface(dc));
                push_icon_releases(&mut releases, large, small);
                push_info_releases(&mut releases, mask, color);
                proof {
                    assert(releases@ =~= owed_releases(s));
                }
                (
                    RasterState::Done { result: Err(IconError::BitmapCreationFailed), releases },
                    RasterAction::Finish,
                )
            } else {
                (
                    RasterState::BitmapReady { large, small, mask, color, dc, bitmap },
                    RasterAction::CopyBits { surface: dc, bitmap, color },
                )
            }
        },
        (
            RasterState::BitmapReady { large, small, mask, color, dc, bitmap },
            RasterEvent::BitsCopied { data },
        ) => {
            let mut releases: Vec<Release> = Vec::new();
            releases.push(Release::Deselect);
            releases.push(Release::Bitmap(bitmap));
            releases.push(Release::Surface(dc));
            push_icon_releases(&mut releases, large, small);
            push_info_releases(&mut releases, mask, color);
            proof {
                assert(releases@ =~= owed_releases(s));
            }
            let pixels = if data.len() == RASTER_BYTES {
                data
            } else {
                zero_raster()
            };
            (
                RasterState::Done {
                    result: Ok(
                        PixelBuffer { width: ICON_SIZE, height: ICON_SIZE, data: pixels },
                    ),
                    releases,
                },
                RasterAction::Finish,
            )
        },
        _ => {
            proof {
                assert(false);
            }
            (RasterState::Start, RasterAction::Finish)
        },
    }
}

} // verus!
