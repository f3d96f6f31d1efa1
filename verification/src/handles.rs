use vstd::prelude::*;
use crate::error::CaptureError;

verus! {

/// A device context for a drawable surface, recorded by the raw handle value
/// the platform returned, together with the window it was acquired for. The
/// wrapper only ever holds a valid handle: when the platform reports the
/// invalid (zero) handle, construction fails instead, so no
/// partially-constructed context escapes.
#[derive(Debug)]
pub struct DeviceContext {
    hdc: isize,
    hwnd: Option<isize>,
    released: bool,
}

impl DeviceContext {
    /// The raw handle value held by this wrapper.
    pub closed spec fn spec_hdc(self) -> isize {
        self.hdc
    }

    /// The window identifier the context was acquired for.
    pub closed spec fn spec_hwnd(self) -> Option<isize> {
        self.hwnd
    }

    /// Whether the handle has already been released.
    pub closed spec fn is_released(self) -> bool {
        self.released
    }

    /// An escaped wrapper always holds a valid handle.
    pub open spec fn wf(self) -> bool {
        self.spec_hdc() != 0
    }

    /// Wraps the device context the platform returned for `hwnd`. A zero
    /// handle is the platform's invalid value, so acquisition fails on it.
    pub fn new(hwnd: Option<isize>, hdc: isize) -> (r: Result<DeviceContext, CaptureError>)
        ensures
            hdc != 0 ==> (r matches Ok(dc) && dc.spec_hdc() == hdc && dc.spec_hwnd() == hwnd
                && !dc.is_released() && dc.wf()),
            hdc == 0 ==> r == Err::<DeviceContext, CaptureError>(
                CaptureError::DeviceContextError("GetDC failed"),
            ),
    {
        if hdc == 0 {
            return Err(CaptureError::DeviceContextError("GetDC failed"));
        }
        Ok(DeviceContext { hdc, hwnd, released: false })
    }

    /// The raw handle, for handing to further platform calls.
    pub fn hdc(&self) -> (r: isize)
        ensures
            r == self.spec_hdc(),
    {
        self.hdc
    }

    /// The window the context was acquired for; its release must name the
    /// same window.
    pub fn hwnd(&self) -> (r: Option<isize>)
        ensures
            r == self.spec_hwnd(),
    {
        self.hwnd
    }

    /// Marks the handle released. The release is effective exactly once: the
    /// first call returns `true`, every later call returns `false` and
    /// changes nothing, so the handle is never given back twice.
    pub fn release(&mut self) -> (did: bool)
        ensures
            did == !old(self).is_released(),
            final(self).is_released(),
            final(self).spec_hdc() == old(self).spec_hdc(),
            final(self).spec_hwnd() == old(self).spec_hwnd(),
    {
        let did = !self.released;
        self.released = true;
        did
    }
}

/// An off-screen memory device context derived from a source context, used
/// as the staging area for the block copy. As with `DeviceContext`, only a
/// valid handle is ever held, and release is tracked so it happens once.
#[derive(Debug)]
pub struct CompatibleDeviceContext {
    hdc: isize,
    released: bool,
}

impl CompatibleDeviceContext {
    /// The raw handle value held by this wrapper.
    pub closed spec fn spec_hdc(self) -> isize {
        self.hdc
    }

    /// Whether the handle has already been released.
    pub closed spec fn is_released(self) -> bool {
        self.released
    }

    /// An escaped wrapper always holds a valid handle.
    pub open spec fn wf(self) -> bool {
        self.spec_hdc() != 0
    }

    /// Wraps the memory context the platform created; a zero handle means
    /// creation failed.
    pub fn new(hdc: isize) -> (r: Result<CompatibleDeviceContext, CaptureError>)
        ensures
            hdc != 0 ==> (r matches Ok(dc) && dc.spec_hdc() == hdc && !dc.is_released()
                && dc.wf()),
            hdc == 0 ==> r == Err::<CompatibleDeviceContext, CaptureError>(
                CaptureError::CompatibleDcError("CreateCompatibleDC failed"),
            ),
    {
        if hdc == 0 {
            return Err(CaptureError::CompatibleDcError("CreateCompatibleDC failed"));
        }
        Ok(CompatibleDeviceContext { hdc, released: false })
    }

    /// The raw handle, for handing to further platform calls.
    pub fn hdc(&self) -> (r: isize)
        ensures
            r == self.spec_hdc(),
    {
        self.hdc
    }

    /// Marks the handle released; effective exactly once, as for
    /// `DeviceContext::release`.
    pub fn release(&mut self) -> (did: bool)
        ensures
            did == !old(self).is_released(),
            final(self).is_released(),
            final(self).spec_hdc() == old(self).spec_hdc(),
    {
        let did = !self.released;
        self.released = true;
        did
    }
}

/// An off-screen bitmap compatible with a source context, sized to the
/// capture area. Only a valid handle is ever held, and release is tracked so
/// the object is deleted once.
#[derive(Debug)]
pub struct Bitmap {
    hbitmap: isize,
    released: bool,
}

impl Bitmap {
    /// The raw handle value held by this wrapper.
    pub closed spec fn spec_hbitmap(self) -> isize {
        self.hbitmap
    }

    /// Whether the handle has already been released.
    pub closed spec fn is_released(self) -> bool {
        self.released
    }

    /// An escaped wrapper always holds a valid handle.
    pub open spec fn wf(self) -> bool {
        self.spec_hbitmap() != 0
    }

    /// Wraps the bitmap the platform created; a zero handle means creation
    /// failed.
    pub fn new(hbitmap: isize) -> (r: Result<Bitmap, CaptureError>)
        ensures
            hbitmap != 0 ==> (r matches Ok(b) && b.spec_hbitmap() == hbitmap
                && !b.is_released() && b.wf()),
            hbitmap == 0 ==> r == Err::<Bitmap, CaptureError>(
                CaptureError::BitmapError("CreateCompatibleBitmap failed"),
            ),
    {
        if hbitmap == 0 {
            return Err(CaptureError::BitmapError("CreateCompatibleBitmap failed"));
        }
        Ok(Bitmap { hbitmap, released: false })
    }

    /// The raw handle, for handing to further platform calls.
    pub fn hbitmap(&self) -> (r: isize)
        ensures
            r == self.spec_hbitmap(),
    {
        self.hbitmap
    }

    /// Marks the handle released; effective exactly once, as for
    /// `DeviceContext::release`.
    pub fn release(&mut self) -> (did: bool)
        ensures
            did == !old(self).is_released(),
            final(self).is_released(),
            final(self).spec_hbitmap() == old(self).spec_hbitmap(),
    {
        let did = !self.released;
        self.released = true;
        did
    }
}

} // verus!
