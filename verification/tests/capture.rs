use screenshot::pipeline::{capture_frame_gdi, GdiOutcomes, Ledger};
use screenshot::CaptureError;

fn all_ok() -> GdiOutcomes {
    GdiOutcomes {
        desktop_window: 101,
        device_context: 201,
        physical_width: 1920,
        physical_height: 1080,
        memory_context: 301,
        bitmap: 401,
        previous_bitmap: 501,
        block_copy_ok: true,
        readout_ok: true,
        readout_byte: 0,
        restore_ok: true,
    }
}

fn balanced(l: &Ledger) -> bool {
    l.device_contexts_acquired == l.device_contexts_released
        && l.memory_contexts_acquired == l.memory_contexts_released
        && l.bitmaps_acquired == l.bitmaps_released
}

#[test]
fn desktop_capture_full_hd() {
    let run = capture_frame_gdi(None, &all_ok());
    let frame = run.result.expect("capture should succeed");
    assert_eq!(frame.width, 1920);
    assert_eq!(frame.height, 1080);
    assert_eq!(frame.pixel_data.len(), 8_294_400);
    assert_eq!(run.target_window, 101);
    assert!(!run.restore_failed);
    assert!(balanced(&run.ledger));
    assert_eq!(run.ledger.device_contexts_acquired, 1);
    assert_eq!(run.ledger.memory_contexts_acquired, 1);
    assert_eq!(run.ledger.bitmaps_acquired, 1);
}

#[test]
fn successful_capture_buffer_is_width_height_4() {
    let mut o = all_ok();
    o.physical_width = 7;
    o.physical_height = 5;
    let run = capture_frame_gdi(None, &o);
    let frame = run.result.expect("capture should succeed");
    assert_eq!(frame.pixel_data.len(), 7 * 5 * 4);
    assert!(frame.width > 0 && frame.height > 0);
}

#[test]
fn readout_writes_every_byte() {
    let mut o = all_ok();
    o.physical_width = 2;
    o.physical_height = 3;
    o.readout_byte = 0xAB;
    let run = capture_frame_gdi(None, &o);
    let frame = run.result.expect("capture should succeed");
    assert_eq!(frame.pixel_data.len(), 24);
    assert!(frame.pixel_data.iter().all(|&b| b == 0xAB));
}

#[test]
fn window_target_is_used_as_given() {
    let run = capture_frame_gdi(Some(777), &all_ok());
    assert_eq!(run.target_window, 777);
    assert!(run.result.is_ok());
}

#[test]
fn zero_width_is_invalid_dimensions() {
    let mut o = all_ok();
    o.physical_width = 0;
    let run = capture_frame_gdi(None, &o);
    assert_eq!(
        run.result.unwrap_err(),
        CaptureError::ProcessError("Invalid screen dimensions")
    );
    // No memory context and no bitmap were ever created.
    assert_eq!(run.ledger.memory_contexts_acquired, 0);
    assert_eq!(run.ledger.bitmaps_acquired, 0);
    assert_eq!(run.ledger.device_contexts_acquired, 1);
    assert_eq!(run.ledger.device_contexts_released, 1);
}

#[test]
fn zero_height_is_invalid_dimensions() {
    let mut o = all_ok();
    o.physical_height = 0;
    let run = capture_frame_gdi(None, &o);
    assert_eq!(
        run.result.unwrap_err(),
        CaptureError::ProcessError("Invalid screen dimensions")
    );
    assert!(balanced(&run.ledger));
}

#[test]
fn negative_extents_are_invalid_dimensions() {
    let mut o = all_ok();
    o.physical_width = -1920;
    o.physical_height = -1080;
    let run = capture_frame_gdi(None, &o);
    assert_eq!(
        run.result.unwrap_err(),
        CaptureError::ProcessError("Invalid screen dimensions")
    );
    assert!(balanced(&run.ledger));
}

#[test]
fn device_context_failure() {
    let mut o = all_ok();
    o.device_context = 0;
    let run = capture_frame_gdi(None, &o);
    assert_eq!(
        run.result.unwrap_err(),
        CaptureError::DeviceContextError("GetDC failed")
    );
    assert_eq!(run.ledger.device_contexts_acquired, 0);
    assert_eq!(run.ledger.device_contexts_released, 0);
    assert!(balanced(&run.ledger));
}

#[test]
fn memory_context_failure_releases_device_context() {
    let mut o = all_ok();
    o.memory_context = 0;
    let run = capture_frame_gdi(None, &o);
    assert_eq!(
        run.result.unwrap_err(),
        CaptureError::CompatibleDcError("CreateCompatibleDC failed")
    );
    assert_eq!(run.ledger.device_contexts_released, 1);
    assert_eq!(run.ledger.memory_contexts_acquired, 0);
    assert_eq!(run.ledger.bitmaps_acquired, 0);
    assert!(balanced(&run.ledger));
}

#[test]
fn bitmap_failure_releases_earlier_handles() {
    let mut o = all_ok();
    o.bitmap = 0;
    let run = capture_frame_gdi(None, &o);
    assert_eq!(
        run.result.unwrap_err(),
        CaptureError::BitmapError("CreateCompatibleBitmap failed")
    );
    assert_eq!(run.ledger.device_contexts_released, 1);
    assert_eq!(run.ledger.memory_contexts_released, 1);
    assert_eq!(run.ledger.bitmaps_acquired, 0);
    assert!(balanced(&run.ledger));
}

#[test]
fn selection_failure_releases_all_handles() {
    let mut o = all_ok();
    o.previous_bitmap = 0;
    let run = capture_frame_gdi(None, &o);
    assert_eq!(
        run.result.unwrap_err(),
        CaptureError::ProcessError("SelectObject failed, mem_dc,bitmap may be invalid")
    );
    assert_eq!(run.ledger.device_contexts_released, 1);
    assert_eq!(run.ledger.memory_contexts_released, 1);
    assert_eq!(run.ledger.bitmaps_released, 1);
}

#[test]
fn block_copy_failure_releases_all_handles() {
    let mut o = all_ok();
    o.block_copy_ok = false;
    let run = capture_frame_gdi(None, &o);
    assert_eq!(
        run.result.unwrap_err(),
        CaptureError::ProcessError("BitBlt failed")
    );
    // Device context, memory context and bitmap are all released before the
    // error returns.
    assert_eq!(run.ledger.device_contexts_acquired, 1);
    assert_eq!(run.ledger.device_contexts_released, 1);
    assert_eq!(run.ledger.memory_contexts_acquired, 1);
    assert_eq!(run.ledger.memory_contexts_released, 1);
    assert_eq!(run.ledger.bitmaps_acquired, 1);
    assert_eq!(run.ledger.bitmaps_released, 1);
}

#[test]
fn readout_failure_releases_all_handles() {
    let mut o = all_ok();
    o.readout_ok = false;
    let run = capture_frame_gdi(None, &o);
    assert_eq!(
        run.result.unwrap_err(),
        CaptureError::ProcessError("GetDIBits failed")
    );
    assert!(balanced(&run.ledger));
    assert_eq!(run.ledger.bitmaps_released, 1);
}

#[test]
fn dimension_error_distinct_from_copy_and_readout_errors() {
    let mut dims = all_ok();
    dims.physical_width = 0;
    let mut copy = all_ok();
    copy.block_copy_ok = false;
    let mut read = all_ok();
    read.readout_ok = false;
    let e_dims = capture_frame_gdi(None, &dims).result.unwrap_err();
    let e_copy = capture_frame_gdi(None, &copy).result.unwrap_err();
    let e_read = capture_frame_gdi(None, &read).result.unwrap_err();
    assert!(matches!(e_dims, CaptureError::ProcessError(_)));
    assert!(matches!(e_copy, CaptureError::ProcessError(_)));
    assert!(matches!(e_read, CaptureError::ProcessError(_)));
    assert_ne!(e_dims, e_copy);
    assert_ne!(e_dims, e_read);
    assert_ne!(e_copy, e_read);
}

#[test]
fn restore_failure_does_not_fail_the_capture() {
    let mut o = all_ok();
    o.restore_ok = false;
    let run = capture_frame_gdi(None, &o);
    assert!(run.result.is_ok());
    assert!(run.restore_failed);
    assert!(balanced(&run.ledger));
}

#[test]
fn two_captures_in_sequence_are_independent() {
    let o = all_ok();
    let first = capture_frame_gdi(None, &o);
    let second = capture_frame_gdi(None, &o);
    let f1 = first.result.expect("first capture should succeed");
    let f2 = second.result.expect("second capture should succeed");
    assert_eq!(f1.pixel_data.len(), f2.pixel_data.len());
    assert_eq!((f1.width, f1.height), (f2.width, f2.height));
    // Each run's handle counts return to baseline.
    assert!(balanced(&first.ledger));
    assert!(balanced(&second.ledger));
}

#[test]
fn error_message_accessor() {
    assert_eq!(
        CaptureError::ProcessError("BitBlt failed").message(),
        "BitBlt failed"
    );
    assert_eq!(
        CaptureError::BitmapError("CreateCompatibleBitmap failed").message(),
        "CreateCompatibleBitmap failed"
    );
}

#[test]
fn buffer_len_is_four_bytes_per_pixel() {
    assert_eq!(screenshot::pipeline::buffer_len(2, 3), 24);
    assert_eq!(screenshot::pipeline::buffer_len(1920, 1080), 8_294_400);
}

#[test]
fn zeroed_buffer_is_zero_filled() {
    let buf = screenshot::pipeline::zeroed_buffer(10);
    assert_eq!(buf.len(), 10);
    assert!(buf.iter().all(|&b| b == 0));
}
