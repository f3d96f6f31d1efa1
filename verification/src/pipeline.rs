use vstd::prelude::*;
use crate::error::CaptureError;
use crate::frame::FrameData;
use crate::handles::Bitmap;
use crate::handles::CompatibleDeviceContext;
use crate::handles::DeviceContext;

verus! {

/// The outcome of every platform call one capture makes, as plain values: the
/// raw handles the graphics subsystem returned (zero being its invalid
/// handle), the physical extents it reported, and the success of each
/// remaining operation. A capture over a `GdiOutcomes` value is decided
/// completely by it, so filling one in — from observed platform calls, or
/// directly — exercises any chosen success or failure path.
#[derive(Debug, Clone, Copy)]
pub struct GdiOutcomes {
    /// What the whole-desktop window query returned.
    pub desktop_window: isize,
    /// What acquiring the device context returned; zero means failure.
    pub device_context: isize,
    /// The physical (not DPI-scaled) width the extents query reported.
    pub physical_width: i32,
    /// The physical (not DPI-scaled) height the extents query reported.
    pub physical_height: i32,
    /// What creating the compatible memory context returned; zero means
    /// failure.
    pub memory_context: isize,
    /// What creating the compatible bitmap returned; zero means failure.
    pub bitmap: isize,
    /// What selecting the bitmap into the memory context returned: the
    /// previously selected object, zero meaning the selection failed.
    pub previous_bitmap: isize,
    /// Whether the block pixel copy reported success.
    pub block_copy_ok: bool,
    /// Whether the pixel-bits readout reported success.
    pub readout_ok: bool,
    /// The byte the readout writes into every position of the pixel buffer.
    pub readout_byte: u8,
    /// Whether restoring the previous selection returned a valid object.
    pub restore_ok: bool,
}

/// Counts of handle acquisitions and releases over one capture, for holding
/// the capture to its acquire/release pairing.
#[derive(Debug, Clone, Copy, PartialEq, Eq, Structural)]
pub struct Ledger {
    pub device_contexts_acquired: u32,
    pub device_contexts_released: u32,
    pub memory_contexts_acquired: u32,
    pub memory_contexts_released: u32,
    pub bitmaps_acquired: u32,
    pub bitmaps_released: u32,
}

impl Ledger {
    /// A ledger with no acquisitions and no releases: the baseline before a
    /// capture begins.
    pub fn empty() -> (r: Ledger)
        ensures
            r == spec_empty_ledger(),
    {
        Ledger {
            device_contexts_acquired: 0,
            device_contexts_released: 0,
            memory_contexts_acquired: 0,
            memory_contexts_released: 0,
            bitmaps_acquired: 0,
            bitmaps_released: 0,
        }
    }

    /// Every handle that was acquired was released, and vice versa: handle
    /// counts are back at their baseline.
    pub open spec fn balanced(self) -> bool {
        self.device_contexts_acquired == self.device_contexts_released
            && self.memory_contexts_acquired == self.memory_contexts_released
            && self.bitmaps_acquired == self.bitmaps_released
    }

    /// No handle was acquired or released more than once.
    pub open spec fn single_use(self) -> bool {
        self.device_contexts_acquired <= 1 && self.device_contexts_released <= 1
            && self.memory_contexts_acquired <= 1 && self.memory_contexts_released <= 1
            && self.bitmaps_acquired <= 1 && self.bitmaps_released <= 1
    }
}

/// The ledger at baseline, before any handle is acquired.
pub open spec fn spec_empty_ledger() -> Ledger {
    Ledger {
        device_contexts_acquired: 0,
        device_contexts_released: 0,
        memory_contexts_acquired: 0,
        memory_contexts_released: 0,
        bitmaps_acquired: 0,
        bitmaps_released: 0,
    }
}

/// Everything one capture produced: the frame or the error of the stage that
/// failed, the handle ledger, the surface the capture resolved to, and
/// whether the best-effort restore of the previous selection failed.
#[derive(Debug)]
pub struct CaptureRun {
    pub result: Result<FrameData, CaptureError>,
    pub ledger: Ledger,
    pub target_window: isize,
    pub restore_failed: bool,
}

/// The concrete surface a capture target resolves to: the given window, or
/// the whole desktop when no target is given.
pub open spec fn spec_resolve_target(target: Option<isize>, desktop_window: isize) -> isize {
    match target {
        Option::Some(w) => w,
        Option::None => desktop_window,
    }
}

/// Resolves the capture target to a concrete surface identifier.
pub fn resolve_target(target: Option<isize>, desktop_window: isize) -> (r: isize)
    ensures
        r == spec_resolve_target(target, desktop_window),
{
    match target {
        Some(w) => w,
        None => desktop_window,
    }
}

/// The device-context acquisition returned a valid handle.
pub open spec fn device_context_acquired(o: GdiOutcomes) -> bool {
    o.device_context != 0
}

/// The reported physical extents are both positive.
pub open spec fn extents_valid(o: GdiOutcomes) -> bool {
    0 < o.physical_width && 0 < o.physical_height
}

/// The capture got as far as creating the memory context, and that creation
/// returned a valid handle.
pub open spec fn memory_context_created(o: GdiOutcomes) -> bool {
    device_context_acquired(o) && extents_valid(o) && o.memory_context != 0
}

/// The capture got as far as creating the bitmap, and that creation returned
/// a valid handle.
pub open spec fn bitmap_created(o: GdiOutcomes) -> bool {
    memory_context_created(o) && o.bitmap != 0
}

/// The capture got as far as selecting the bitmap, and the selection
/// returned a valid previous object.
pub open spec fn selection_succeeded(o: GdiOutcomes) -> bool {
    bitmap_created(o) && o.previous_bitmap != 0
}

/// The capture got as far as the block pixel copy, and the copy succeeded.
pub open spec fn block_copy_succeeded(o: GdiOutcomes) -> bool {
    selection_succeeded(o) && o.block_copy_ok
}

/// Every stage up to and including the pixel-bits readout succeeded, which
/// is exactly when a capture returns a frame.
pub open spec fn capture_succeeds(o: GdiOutcomes) -> bool {
    block_copy_succeeded(o) && o.readout_ok
}

/// The error a failed capture reports: the first stage to fail decides both
/// the variant and the message, so every failing stage is identifiable from
/// the error alone.
pub open spec fn expected_error(o: GdiOutcomes) -> CaptureError {
    if !device_context_acquired(o) {
        CaptureError::DeviceContextError("GetDC failed")
    } else if !extents_valid(o) {
        CaptureError::ProcessError("Invalid screen dimensions")
    } else if o.memory_context == 0 {
        CaptureError::CompatibleDcError("CreateCompatibleDC failed")
    } else if o.bitmap == 0 {
        CaptureError::BitmapError("CreateCompatibleBitmap failed")
    } else if o.previous_bitmap == 0 {
        CaptureError::ProcessError("SelectObject failed, mem_dc,bitmap may be invalid")
    } else if !o.block_copy_ok {
        CaptureError::ProcessError("BitBlt failed")
    } else {
        CaptureError::ProcessError("GetDIBits failed")
    }
}

/// The ledger a capture leaves behind: each handle whose acquisition stage
/// was reached and succeeded is acquired once and released once; a handle
/// whose stage was never reached, or whose acquisition failed, is neither.
pub open spec fn expected_ledger(o: GdiOutcomes) -> Ledger {
    Ledger {
        device_contexts_acquired: if device_context_acquired(o) { 1u32 } else { 0u32 },
        device_contexts_released: if device_context_acquired(o) { 1u32 } else { 0u32 },
        memory_contexts_acquired: if memory_context_created(o) { 1u32 } else { 0u32 },
        memory_contexts_released: if memory_context_created(o) { 1u32 } else { 0u32 },
        bitmaps_acquired: if bitmap_created(o) { 1u32 } else { 0u32 },
        bitmaps_released: if bitmap_created(o) { 1u32 } else { 0u32 },
    }
}

/// The machine limit on the capture area: when the extents are positive,
/// the pixel buffer of `width * height * 4` bytes must be addressable.
pub open spec fn extents_fit(width: int, height: int) -> bool {
    0 < width && 0 < height ==> width * height * 4 <= usize::MAX
}

/// Validates the queried physical extents: a capture proceeds only when both
/// are positive, and fails before any further handle or buffer is created
/// otherwise.
pub fn validate_extents(width: i32, height: i32) -> (r: Result<(), CaptureError>)
    ensures
        (r is Ok) == (0 < width && 0 < height),
        r matches Err(e) ==> e == CaptureError::ProcessError("Invalid screen dimensions"),
{
    if width <= 0 || height <= 0 {
        return Err(CaptureError::ProcessError("Invalid screen dimensions"));
    }
    Ok(())
}

/// Judges the result of selecting the bitmap into the memory context: the
/// returned previously-selected object must be valid (nonzero). The caller
/// keeps it and restores it before the bitmap is released.
pub fn check_selection(previous_bitmap: isize) -> (r: Result<isize, CaptureError>)
    ensures
        (r is Ok) == (previous_bitmap != 0),
        r matches Ok(p) ==> p == previous_bitmap,
        r matches Err(e) ==> e == CaptureError::ProcessError(
            "SelectObject failed, mem_dc,bitmap may be invalid",
        ),
{
    if previous_bitmap == 0 {
        return Err(CaptureError::ProcessError("SelectObject failed, mem_dc,bitmap may be invalid"));
    }
    Ok(previous_bitmap)
}

/// Judges the result of the block pixel copy from the source surface into
/// the memory context.
pub fn check_block_copy(ok: bool) -> (r: Result<(), CaptureError>)
    ensures
        (r is Ok) == ok,
        r matches Err(e) ==> e == CaptureError::ProcessError("BitBlt failed"),
{
    if !ok {
        return Err(CaptureError::ProcessError("BitBlt failed"));
    }
    Ok(())
}

/// Judges the result of the pixel-bits readout. The readout is all or
/// nothing: a failure discards the buffer and fails the whole capture.
pub fn check_readout(ok: bool) -> (r: Result<(), CaptureError>)
    ensures
        (r is Ok) == ok,
        r matches Err(e) ==> e == CaptureError::ProcessError("GetDIBits failed"),
{
    if !ok {
        return Err(CaptureError::ProcessError("GetDIBits failed"));
    }
    Ok(())
}

/// The pixel buffer size a capture allocates for the given extents: four
/// bytes per pixel.
pub fn buffer_len(width: i32, height: i32) -> (r: usize)
    requires
        0 < width,
        0 < height,
        width * height * 4 <= usize::MAX,
    ensures
        r == width * height * 4,
{
    proof {
        assert(width * height <= width * height * 4) by (nonlinear_arith)
            requires
                0 < width && 0 < height,
        ;
    }
    (width as usize) * (height as usize) * 4
}

/// An owned, zero-initialized pixel buffer of `len` bytes, ready for the
/// pixel-bits readout to fill.
pub fn zeroed_buffer(len: usize) -> (r: Vec<u8>)
    ensures
        r@ == Seq::new(len as nat, |i: int| 0u8),
{
    let mut buf: Vec<u8> = Vec::new();
    while buf.len() < len
        invariant
            buf@.len() <= len,
            forall|k: int| 0 <= k < buf@.len() ==> buf@[k] == 0u8,
        decreases len - buf@.len(),
    {
        buf.push(0u8);
    }
    proof {
        assert(buf@ =~= Seq::new(len as nat, |i: int| 0u8));
    }
    buf
}

/// Failure-path cleanup: whatever stage a capture fails at, and equally when
/// it succeeds, its ledger balances and no handle is acquired or released
/// more than once — every handle acquired before the failure point is
/// released exactly once, with no double-release and no leak.
pub proof fn lemma_capture_cleanup_balanced(o: GdiOutcomes)
    ensures
        expected_ledger(o).balanced(),
        expected_ledger(o).single_use(),
{
}

/// Two captures run in sequence are independent: each run's observables are
/// fixed by its own platform outcomes alone, each successful run yields a
/// frame with positive extents, and each run's ledger balances, so handle
/// counts return to their baseline between the calls.
pub proof fn lemma_capture_idempotent(first: GdiOutcomes, second: GdiOutcomes)
    ensures
        expected_ledger(first).balanced(),
        expected_ledger(second).balanced(),
        capture_succeeds(first) ==> extents_valid(first),
        capture_succeeds(second) ==> extents_valid(second),
        first == second ==> expected_error(first) == expected_error(second)
            && expected_ledger(first) == expected_ledger(second),
{
}

/// A failure at the dimension-query stage is identifiable: it surfaces as a
/// `ProcessError`, as block-copy and pixel-readout failures do, but its
/// message differs from both of theirs, and theirs from each other's.
pub proof fn lemma_error_stages_distinct(
    invalid_extents: GdiOutcomes,
    failed_copy: GdiOutcomes,
    failed_readout: GdiOutcomes,
)
    requires
        device_context_acquired(invalid_extents),
        !extents_valid(invalid_extents),
        selection_succeeded(failed_copy),
        !failed_copy.block_copy_ok,
        block_copy_succeeded(failed_readout),
        !failed_readout.readout_ok,
    ensures
        expected_error(invalid_extents) is ProcessError,
        expected_error(failed_copy) is ProcessError,
        expected_error(failed_readout) is ProcessError,
        expected_error(invalid_extents) != expected_error(failed_copy),
        expected_error(invalid_extents) != expected_error(failed_readout),
        expected_error(failed_copy) != expected_error(failed_readout),
{
    reveal_strlit("Invalid screen dimensions");
    reveal_strlit("BitBlt failed");
    reveal_strlit("GetDIBits failed");
    assert("Invalid screen dimensions"@.len() == 25);
    assert("BitBlt failed"@.len() == 13);
    assert("GetDIBits failed"@.len() == 16);
}

/// Runs one whole capture over the platform-call outcomes in `outcomes`, for
/// the given capture target (`None` captures the whole desktop).
///
/// The run is the linear acquire, use, release sequence: acquire the device
/// context, validate the physical extents, create the memory context and the
/// bitmap, select the bitmap, block-copy the pixels, read them out, restore
/// the previous selection best-effort, and release every acquired handle on
/// every path before returning. The first failing stage aborts the capture
/// with its own error; no partial frame is ever returned.
pub fn capture_frame_gdi(target: Option<isize>, outcomes: &GdiOutcomes) -> (r: CaptureRun)
    requires
        extents_fit(outcomes.physical_width as int, outcomes.physical_height as int),
    ensures
        (r.result is Ok) == capture_succeeds(*outcomes),
        r.result matches Ok(frame) ==> frame.width == outcomes.physical_width
            && frame.height == outcomes.physical_height && frame.pixel_data@ == Seq::new(
            (outcomes.physical_width * outcomes.physical_height * 4) as nat,
            |i: int| outcomes.readout_byte,
        ) && frame.wf(),
        r.result matches Err(e) ==> e == expected_error(*outcomes),
        r.ledger == expected_ledger(*outcomes),
        r.target_window == spec_resolve_target(target, outcomes.desktop_window),
        r.restore_failed == (capture_succeeds(*outcomes) && !outcomes.restore_ok),
{
    let mut ledger = Ledger::empty();
    let hwnd = resolve_target(target, outcomes.desktop_window);

    let mut screen_dc = match DeviceContext::new(Some(hwnd), outcomes.device_context) {
        Ok(dc) => dc,
        Err(e) => {
            return CaptureRun {
                result: Err(e),
                ledger,
                target_window: hwnd,
                restore_failed: false,
            };
        },
    };
    ledger.device_contexts_acquired = 1;

    let width = outcomes.physical_width;
    let height = outcomes.physical_height;
    match validate_extents(width, height) {
        Ok(()) => {},
        Err(e) => {
            if screen_dc.release() {
                ledger.device_contexts_released = ledger.device_contexts_released + 1;
            }
            return CaptureRun {
                result: Err(e),
                ledger,
                target_window: hwnd,
                restore_failed: false,
            };
        },
    }

    let mut mem_dc = match CompatibleDeviceContext::new(outcomes.memory_context) {
        Ok(dc) => dc,
        Err(e) => {
            if screen_dc.release() {
                ledger.device_contexts_released = ledger.device_contexts_released + 1;
            }
            return CaptureRun {
                result: Err(e),
                ledger,
                target_window: hwnd,
                restore_failed: false,
            };
        },
    };
    ledger.memory_contexts_acquired = 1;

    let mut bitmap = match Bitmap::new(outcomes.bitmap) {
        Ok(b) => b,
        Err(e) => {
            if mem_dc.release() {
                ledger.memory_contexts_released = ledger.memory_contexts_released + 1;
            }
            if screen_dc.release() {
                ledger.device_contexts_released = ledger.device_contexts_released + 1;
            }
            return CaptureRun {
                result: Err(e),
                ledger,
                target_window: hwnd,
                restore_failed: false,
            };
        },
    };
    ledger.bitmaps_acquired = 1;

    match check_selection(outcomes.previous_bitmap) {
        Ok(_previous) => {},
        Err(e) => {
            if bitmap.release() {
                ledger.bitmaps_released = ledger.bitmaps_released + 1;
            }
            if mem_dc.release() {
                ledger.memory_contexts_released = ledger.memory_contexts_released + 1;
            }
            if screen_dc.release() {
                ledger.device_contexts_released = ledger.device_contexts_released + 1;
            }
            return CaptureRun {
                result: Err(e),
                ledger,
                target_window: hwnd,
                restore_failed: false,
            };
        },
    }

    match check_block_copy(outcomes.block_copy_ok) {
        Ok(()) => {},
        Err(e) => {
            if bitmap.release() {
                ledger.bitmaps_released = ledger.bitmaps_released + 1;
            }
            if mem_dc.release() {
                ledger.memory_contexts_released = ledger.memory_contexts_released + 1;
            }
            if screen_dc.release() {
                ledger.device_contexts_released = ledger.device_contexts_released + 1;
            }
            return CaptureRun {
                result: Err(e),
                ledger,
                target_window: hwnd,
                restore_failed: false,
            };
        },
    }

    // Allocate the zero-initialized buffer, let the readout write it, then
    // judge the readout's result: all or nothing.
    let len = buffer_len(width, height);
    let mut pixel_data = zeroed_buffer(len);
    if outcomes.readout_ok {
        let mut j: usize = 0;
        while j < len
            invariant
                j <= len,
                pixel_data@.len() == len,
                forall|k: int| 0 <= k < j ==> pixel_data@[k] == outcomes.readout_byte,
            decreases len - j,
        {
            pixel_data[j] = outcomes.readout_byte;
            j = j + 1;
        }
    }
    match check_readout(outcomes.readout_ok) {
        Ok(()) => {},
        Err(e) => {
            if bitmap.release() {
                ledger.bitmaps_released = ledger.bitmaps_released + 1;
            }
            if mem_dc.release() {
                ledger.memory_contexts_released = ledger.memory_contexts_released + 1;
            }
            if screen_dc.release() {
                ledger.device_contexts_released = ledger.device_contexts_released + 1;
            }
            return CaptureRun {
                result: Err(e),
                ledger,
                target_window: hwnd,
                restore_failed: false,
            };
        },
    }
    proof {
        assert(pixel_data@ =~= Seq::new(
            (outcomes.physical_width * outcomes.physical_height * 4) as nat,
            |i: int| outcomes.readout_byte,
        ));
    }

    // Best-effort restore of the previously selected bitmap: a failure here
    // is reported but does not fail the capture.
    let restore_failed = !outcomes.restore_ok;

    if bitmap.release() {
        ledger.bitmaps_released = ledger.bitmaps_released + 1;
    }
    if mem_dc.release() {
        ledger.memory_contexts_released = ledger.memory_contexts_released + 1;
    }
    if screen_dc.release() {
        ledger.device_contexts_released = ledger.device_contexts_released + 1;
    }

    CaptureRun {
        result: Ok(FrameData { pixel_data, width, height }),
        ledger,
        target_window: hwnd,
        restore_failed,
    }
}

} // verus!
