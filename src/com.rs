use vstd::prelude::*;

use crate::guard::ComPtr;
use crate::handle::{Hwnd, NULL};
use crate::os::{array_count, Call, ComMethod, Os, E_INVALIDARG, E_OUTOFMEMORY, S_OK};

verus! {

/// Interface id of `IUnknown`.
pub const IID_IUNKNOWN: u128 = 0x00000000_0000_0000_c000_000000000046;
/// Interface id of `IDXGIObject`.
pub const IID_IDXGIOBJECT: u128 = 0xaec22fb8_76f3_4639_9be0_28eb43a67a2e;

/// Interface id of `ITaskbarList2`.
pub const IID_ITASKBARLIST2: u128 = 0x602d4995_b13a_429b_a66e_1935e44f4317;
/// Interface id of `IShellItemArray`.
pub const IID_ISHELLITEMARRAY: u128 = 0xb63ea76d_1f85_456f_a19c_48159efa858b;

/// `Ok` for the success HRESULT, else the HRESULT as the error.
pub fn ok_to_hrresult(hr: u32) -> (r: Result<(), u32>)
    ensures
        hr == S_OK ==> r == Ok::<(), u32>(()),
        hr != S_OK ==> r == Err::<(), u32>(hr),
{
    if hr == S_OK {
        Ok(())
    } else {
        Err(hr)
    }
}

/// Methods of the `IDXGIObject` COM interface.
#[allow(non_camel_case_types, non_snake_case)]
pub trait dxgi_IDXGIObject {
    spec fn obj_spec(&self) -> usize;

    /// `GetParent`: asks the object, through its `QueryInterface` slot, for
    /// its parent under interface `iid`. The reference handed back is owned
    /// by the caller and released with it.
    fn GetParent(&self, os: &mut Os, iid: u128) -> (r: Result<ComPtr, u32>)
        requires
            old(os).wf(),
        ensures
            final(os).wf(),
            final(os).windows_spec() == old(os).windows_spec(),
            final(os).calls_spec() == old(os).calls_spec().push(Call::QueryInterface { obj: self.obj_spec(), iid }),
            r is Ok ==> r->Ok_0.ptr_spec() != NULL,
            old(os).com_answer() != S_OK ==> r is Err && r->Err_0 == old(os).com_answer(),
            old(os).com_answer() == S_OK && !old(os).has_free_handle() ==> r is Err && r->Err_0 == E_OUTOFMEMORY,
            old(os).com_answer() == S_OK && old(os).has_free_handle() ==> r is Ok,
    ;

    /// `SetPrivateDataInterface`: hands the object `interface` to keep
    /// under interface id `iid`.
    fn SetPrivateDataInterface(&self, os: &mut Os, iid: u128, interface: &ComPtr) -> (r: Result<(), u32>)
        requires
            old(os).wf(),
        ensures
            final(os).wf(),
            final(os).windows_spec() == old(os).windows_spec(),
            final(os).calls_spec() == old(os).calls_spec().push(Call::Com {
                obj: self.obj_spec(),
                method: ComMethod::SetPrivateDataInterface { iid, interface: interface.ptr_spec() },
            }),
            r == ok_to_hrresult_spec(old(os).com_answer()),
    ;
}

/// What [`ok_to_hrresult`] gives.
pub open spec fn ok_to_hrresult_spec(hr: u32) -> Result<(), u32> {
    if hr == S_OK {
        Ok(())
    } else {
        Err(hr)
    }
}

/// An owned reference to an `IDXGIObject`.
pub struct IDXGIObject {
    pub com: ComPtr,
}

#[allow(non_snake_case)]
impl dxgi_IDXGIObject for IDXGIObject {
    open spec fn obj_spec(&self) -> usize {
        self.com.ptr_spec()
    }

    fn GetParent(&self, os: &mut Os, iid: u128) -> (r: Result<ComPtr, u32>) {
        let p = os.query_interface(self.com.ptr(), iid)?;
        Ok(ComPtr::new(p))
    }

    fn SetPrivateDataInterface(&self, os: &mut Os, iid: u128, interface: &ComPtr) -> (r: Result<(), u32>) {
        let hr = os.com_call(self.com.ptr(), ComMethod::SetPrivateDataInterface { iid, interface: interface.ptr() });
        ok_to_hrresult(hr)
    }
}

/// An owned reference to an `ITaskbarList2`.
pub struct ITaskbarList2 {
    pub com: ComPtr,
}

impl ITaskbarList2 {
    /// `MarkFullscreenWindow`: tells the taskbar whether `hwnd` is a
    /// full-screen window.
    #[allow(non_snake_case)]
    pub fn MarkFullscreenWindow(&self, os: &mut Os, hwnd: Hwnd, fullscreen: bool) -> (r: Result<(), u32>)
        requires
            old(os).wf(),
        ensures
            final(os).wf(),
            final(os).windows_spec() == old(os).windows_spec(),
            final(os).calls_spec() == old(os).calls_spec().push(Call::Com {
                obj: self.com.ptr_spec(),
                method: ComMethod::MarkFullscreenWindow { hwnd: hwnd.raw, fullscreen },
            }),
            r == ok_to_hrresult_spec(old(os).com_answer()),
    {
        let hr = os.com_call(self.com.ptr(), ComMethod::MarkFullscreenWindow { hwnd: hwnd.raw, fullscreen });
        ok_to_hrresult(hr)
    }
}

/// Methods of the `IShellItemArray` COM interface.
#[allow(non_camel_case_types, non_snake_case)]
pub trait shell_IShellItemArray {
    spec fn obj_spec(&self) -> usize;

    /// `GetCount`: the number of items.
    fn GetCount(&self, os: &mut Os) -> (r: Result<u32, u32>)
        requires
            old(os).wf(),
        ensures
            final(os).free_handles() == old(os).free_handles(),
            final(os).wf(),
            final(os).com_failure_spec() is None,
            final(os).item_arrays_spec() == old(os).item_arrays_spec(),
            final(os).calls_spec() == old(os).calls_spec().push(Call::Com { obj: self.obj_spec(), method: ComMethod::GetCount }),
            old(os).com_answer() != S_OK ==> r == Err::<u32, u32>(old(os).com_answer()),
            old(os).com_answer() == S_OK ==> match array_count(old(os).item_arrays_spec(), self.obj_spec()) {
                Some(n) => r == Ok::<u32, u32>(n),
                None => r == Err::<u32, u32>(E_INVALIDARG),
            },
            r is Ok ==> exists|i: int|
                0 <= i < old(os).item_arrays_spec().len() && #[trigger] old(os).item_arrays_spec()[i] == (self.obj_spec(), r->Ok_0),
    ;

    /// `GetItemAt`: the item at `index`, a reference owned by the caller.
    fn GetItemAt(&self, os: &mut Os, index: u32) -> (r: Result<ComPtr, u32>)
        requires
            old(os).wf(),
        ensures
            r is Ok ==> final(os).free_handles() == old(os).free_handles() - 1,
            r is Err ==> final(os).free_handles() == old(os).free_handles(),
            final(os).wf(),
            final(os).com_failure_spec() is None,
            final(os).item_arrays_spec() == old(os).item_arrays_spec(),
            final(os).calls_spec() == old(os).calls_spec().push(Call::Com { obj: self.obj_spec(), method: ComMethod::GetItemAt { index } }),
            old(os).com_answer() != S_OK ==> r is Err && r->Err_0 == old(os).com_answer(),
            r is Ok ==> r->Ok_0.ptr_spec() != NULL,
            old(os).com_answer() == S_OK ==> match array_count(old(os).item_arrays_spec(), self.obj_spec()) {
                Some(n) => if index < n && old(os).has_free_handle() {
                    r is Ok
                } else if index < n {
                    r is Err && r->Err_0 == E_OUTOFMEMORY
                } else {
                    r is Err && r->Err_0 == E_INVALIDARG
                },
                None => r is Err && r->Err_0 == E_INVALIDARG,
            },
    ;

    /// Every item, by `GetCount` and then `GetItemAt` on each index in
    /// order. Fails with the HRESULT of `GetCount` where it fails; an item
    /// whose `GetItemAt` fails stands as that HRESULT.
    fn iter(&self, os: &mut Os) -> (r: Result<Vec<Result<ComPtr, u32>>, u32>)
        requires
            old(os).wf(),
        ensures
            final(os).wf(),
            old(os).com_answer() != S_OK ==> r == Err::<Vec<Result<ComPtr, u32>>, u32>(old(os).com_answer()),
            old(os).com_answer() == S_OK ==> match array_count(old(os).item_arrays_spec(), self.obj_spec()) {
                Some(n) => r is Ok && r->Ok_0@.len() == n,
                None => r == Err::<Vec<Result<ComPtr, u32>>, u32>(E_INVALIDARG),
            },
            r is Ok ==> forall|k: int| 0 <= k < r->Ok_0@.len() ==> {
                &&& (#[trigger] r->Ok_0@[k] is Ok <==> k < old(os).free_handles())
                &&& r->Ok_0@[k] is Ok ==> r->Ok_0@[k]->Ok_0.ptr_spec() != NULL
                &&& r->Ok_0@[k] is Err ==> r->Ok_0@[k]->Err_0 == E_OUTOFMEMORY
            },
            r is Ok ==> exists|i: int|
                0 <= i < old(os).item_arrays_spec().len() && #[trigger] old(os).item_arrays_spec()[i]
                    == (self.obj_spec(), r->Ok_0@.len() as u32),
            r is Ok ==> final(os).calls_spec().len() == old(os).calls_spec().len() + 1 + r->Ok_0@.len(),
            r is Ok ==> forall|k: int| 0 <= k < r->Ok_0@.len() ==> #[trigger] final(os).calls_spec()[old(os).calls_spec().len() + 1 + k]
                == (Call::Com { obj: self.obj_spec(), method: ComMethod::GetItemAt { index: k as u32 } }),
    ;
}

/// An owned reference to an `IShellItemArray`.
pub struct IShellItemArray {
    pub com: ComPtr,
}

#[allow(non_snake_case)]
impl shell_IShellItemArray for IShellItemArray {
    open spec fn obj_spec(&self) -> usize {
        self.com.ptr_spec()
    }

    fn GetCount(&self, os: &mut Os) -> (r: Result<u32, u32>) {
        let (hr, n) = os.get_count(self.com.ptr());
        ok_to_hrresult(hr)?;
        Ok(n)
    }

    fn GetItemAt(&self, os: &mut Os, index: u32) -> (r: Result<ComPtr, u32>) {
        let (hr, p) = os.get_item_at(self.com.ptr(), index);
        ok_to_hrresult(hr)?;
        Ok(ComPtr::new(p))
    }

    fn iter(&self, os: &mut Os) -> (r: Result<Vec<Result<ComPtr, u32>>, u32>) {
        let count = self.GetCount(os)?;
        let ghost base = os.calls_spec().len();
        let ghost f0 = os.free_handles();
        let ghost arrays = os.item_arrays_spec();
        let mut items: Vec<Result<ComPtr, u32>> = Vec::new();
        let mut i: u32 = 0;
        while i < count
            invariant
                os.wf(),
                i <= count,
                items@.len() == i,
                os.calls_spec().len() == base + i,
                base == old(os).calls_spec().len() + 1,
                f0 == old(os).free_handles(),
                os.com_failure_spec() is None,
                os.item_arrays_spec() == arrays,
                arrays == old(os).item_arrays_spec(),
                array_count(arrays, self.obj_spec()) == Some(count),
                os.free_handles() == if f0 >= i { f0 - i } else { 0 },
                forall|k: int| 0 <= k < i ==> {
                    &&& (#[trigger] items@[k] is Ok <==> k < f0)
                    &&& items@[k] is Ok ==> items@[k]->Ok_0.ptr_spec() != NULL
                    &&& items@[k] is Err ==> items@[k]->Err_0 == E_OUTOFMEMORY
                },
                forall|k: int| 0 <= k < i ==> #[trigger] os.calls_spec()[base + k]
                    == (Call::Com { obj: self.obj_spec(), method: ComMethod::GetItemAt { index: k as u32 } }),
            decreases count - i,
        {
            items.push(self.GetItemAt(os, i));
            i = i + 1;
        }
        Ok(items)
    }
}

/// Margins, in pixels, that a window frame extends into its client area.
#[derive(Clone, Copy, Debug, PartialEq, Eq, Structural)]
pub struct Margins {
    pub left: i32,
    pub right: i32,
    pub top: i32,
    pub bottom: i32,
}

/// Functions of the desktop window manager on a window.
#[allow(non_camel_case_types, non_snake_case)]
pub trait dwm_Hwnd {
    spec fn raw_spec(&self) -> usize;

    /// `DwmExtendFrameIntoClientArea`.
    fn DwmExtendFrameIntoClientArea(&self, os: &mut Os, margins: &Margins) -> (r: Result<(), u32>)
        requires
            old(os).wf(),
        ensures
            final(os).wf(),
            final(os).windows_spec() == old(os).windows_spec(),
            final(os).calls_spec() == old(os).calls_spec().push(Call::Com {
                obj: self.raw_spec(),
                method: ComMethod::DwmExtendFrameIntoClientArea {
                    left: margins.left,
                    right: margins.right,
                    top: margins.top,
                    bottom: margins.bottom,
                },
            }),
            r == ok_to_hrresult_spec(old(os).com_answer()),
    ;

    /// `DwmInvalidateIconicBitmaps`.
    fn DwmInvalidateIconicBitmaps(&self, os: &mut Os) -> (r: Result<(), u32>)
        requires
            old(os).wf(),
        ensures
            final(os).wf(),
            final(os).windows_spec() == old(os).windows_spec(),
            final(os).calls_spec() == old(os).calls_spec().push(Call::Com {
                obj: self.raw_spec(),
                method: ComMethod::DwmInvalidateIconicBitmaps,
            }),
            r == ok_to_hrresult_spec(old(os).com_answer()),
    ;

    /// `DwmSetIconicLivePreviewBitmap`; without a point the client origin is
    /// not passed, and absent flags are 0.
    fn DwmSetIconicLivePreviewBitmap(&self, os: &mut Os, hbmp: usize, pt_client: Option<(i32, i32)>, sit_flags: Option<u32>) -> (r: Result<(), u32>)
        requires
            old(os).wf(),
        ensures
            final(os).wf(),
            final(os).windows_spec() == old(os).windows_spec(),
            final(os).calls_spec() == old(os).calls_spec().push(Call::Com {
                obj: self.raw_spec(),
                method: ComMethod::DwmSetIconicLivePreviewBitmap {
                    hbmp,
                    client_x: match pt_client { Some(p) => p.0, None => 0 },
                    client_y: match pt_client { Some(p) => p.1, None => 0 },
                    has_point: pt_client is Some,
                    flags: match sit_flags { Some(f) => f, None => 0 },
                },
            }),
            r == ok_to_hrresult_spec(old(os).com_answer()),
    ;

    /// `DwmSetIconicThumbnail`; absent flags are 0.
    fn DwmSetIconicThumbnail(&self, os: &mut Os, hbmp: usize, sit_flags: Option<u32>) -> (r: Result<(), u32>)
        requires
            old(os).wf(),
        ensures
            final(os).wf(),
            final(os).windows_spec() == old(os).windows_spec(),
            final(os).calls_spec() == old(os).calls_spec().push(Call::Com {
                obj: self.raw_spec(),
                method: ComMethod::DwmSetIconicThumbnail { hbmp, flags: match sit_flags { Some(f) => f, None => 0 } },
            }),
            r == ok_to_hrresult_spec(old(os).com_answer()),
    ;
}

#[allow(non_snake_case)]
impl dwm_Hwnd for Hwnd {
    open spec fn raw_spec(&self) -> usize {
        self.raw
    }

    fn DwmExtendFrameIntoClientArea(&self, os: &mut Os, margins: &Margins) -> (r: Result<(), u32>) {
        let hr = os.com_call(self.raw, ComMethod::DwmExtendFrameIntoClientArea {
            left: margins.left,
            right: margins.right,
            top: margins.top,
            bottom: margins.bottom,
        });
        ok_to_hrresult(hr)
    }

    fn DwmInvalidateIconicBitmaps(&self, os: &mut Os) -> (r: Result<(), u32>) {
        let hr = os.com_call(self.raw, ComMethod::DwmInvalidateIconicBitmaps);
        ok_to_hrresult(hr)
    }

    fn DwmSetIconicLivePreviewBitmap(&self, os: &mut Os, hbmp: usize, pt_client: Option<(i32, i32)>, sit_flags: Option<u32>) -> (r: Result<(), u32>) {
        let (client_x, client_y, has_point) = match pt_client {
            Some(p) => (p.0, p.1, true),
            None => (0, 0, false),
        };
        let flags = match sit_flags {
            Some(f) => f,
            None => 0,
        };
        let hr = os.com_call(self.raw, ComMethod::DwmSetIconicLivePreviewBitmap { hbmp, client_x, client_y, has_point, flags });
        ok_to_hrresult(hr)
    }

    fn DwmSetIconicThumbnail(&self, os: &mut Os, hbmp: usize, sit_flags: Option<u32>) -> (r: Result<(), u32>) {
        let flags = match sit_flags {
            Some(f) => f,
            None => 0,
        };
        let hr = os.com_call(self.raw, ComMethod::DwmSetIconicThumbnail { hbmp, flags });
        ok_to_hrresult(hr)
    }
}

} // verus!
