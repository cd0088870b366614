use winsafe::com::{
    dwm_Hwnd, dxgi_IDXGIObject, ok_to_hrresult, shell_IShellItemArray, IDXGIObject, IShellItemArray, ITaskbarList2,
    Margins, IID_IUNKNOWN,
};
use winsafe::guard::ComPtr;
use winsafe::handle::Hwnd;
use winsafe::os::{Call, ComMethod, Os, E_INVALIDARG, S_OK};

#[test]
fn hresult_success_and_failure() {
    assert_eq!(ok_to_hrresult(S_OK), Ok(()));
    assert_eq!(ok_to_hrresult(0x8000_4005), Err(0x8000_4005));
}

#[test]
fn taskbar_marks_full_screen() {
    let mut os = Os::new();
    let p = os.create_object().unwrap();
    let tb = ITaskbarList2 { com: ComPtr::new(p) };
    let hwnd = Hwnd { raw: 0x50 };
    assert_eq!(tb.MarkFullscreenWindow(&mut os, hwnd, true), Ok(()));
    os.fail_next_com_call(0x8000_4005);
    assert_eq!(tb.MarkFullscreenWindow(&mut os, hwnd, false), Err(0x8000_4005));
    assert_eq!(
        os.calls(),
        &vec![
            Call::Com { obj: p, method: ComMethod::MarkFullscreenWindow { hwnd: 0x50, fullscreen: true } },
            Call::Com { obj: p, method: ComMethod::MarkFullscreenWindow { hwnd: 0x50, fullscreen: false } },
        ]
    );
}

#[test]
fn private_data_interface_is_handed_over() {
    let mut os = Os::new();
    let p = os.create_object().unwrap();
    let q = os.create_object().unwrap();
    let obj = IDXGIObject { com: ComPtr::new(p) };
    let other = ComPtr::new(q);
    assert_eq!(obj.SetPrivateDataInterface(&mut os, IID_IUNKNOWN, &other), Ok(()));
    assert_eq!(
        os.calls().last(),
        Some(&Call::Com { obj: p, method: ComMethod::SetPrivateDataInterface { iid: IID_IUNKNOWN, interface: q } })
    );
}

#[test]
fn shell_items_are_fetched_in_order() {
    let mut os = Os::new();
    let p = os.create_item_array(3).unwrap();
    let arr = IShellItemArray { com: ComPtr::new(p) };
    assert_eq!(arr.GetCount(&mut os), Ok(3));
    let items = arr.iter(&mut os).unwrap();
    assert_eq!(items.len(), 3);
    assert!(items.iter().all(|i| i.is_ok()));
    assert_eq!(arr.GetItemAt(&mut os, 3).err(), Some(E_INVALIDARG));
    let calls = os.calls();
    assert_eq!(calls[1], Call::Com { obj: p, method: ComMethod::GetCount });
    for k in 0..3u32 {
        assert_eq!(calls[2 + k as usize], Call::Com { obj: p, method: ComMethod::GetItemAt { index: k } });
    }
}

#[test]
fn shell_item_failure_stands_in_its_place() {
    let mut os = Os::new();
    let p = os.create_item_array(0).unwrap();
    let arr = IShellItemArray { com: ComPtr::new(p) };
    assert_eq!(arr.iter(&mut os).unwrap().len(), 0);
    os.fail_next_com_call(0x8000_FFFF);
    assert_eq!(arr.iter(&mut os).err(), Some(0x8000_FFFF));
    let not_array = IShellItemArray { com: ComPtr::new(0x9999) };
    assert_eq!(not_array.GetCount(&mut os), Err(E_INVALIDARG));
}

#[test]
fn dwm_calls_pass_their_arguments() {
    let mut os = Os::new();
    let h = Hwnd { raw: 0x60 };
    let m = Margins { left: -1, right: -1, top: -1, bottom: -1 };
    assert_eq!(h.DwmExtendFrameIntoClientArea(&mut os, &m), Ok(()));
    assert_eq!(h.DwmInvalidateIconicBitmaps(&mut os), Ok(()));
    assert_eq!(h.DwmSetIconicLivePreviewBitmap(&mut os, 0x70, Some((3, 4)), None), Ok(()));
    os.fail_next_com_call(0x8000_0001);
    assert_eq!(h.DwmSetIconicThumbnail(&mut os, 0x70, Some(1)), Err(0x8000_0001));
    assert_eq!(
        os.calls(),
        &vec![
            Call::Com { obj: 0x60, method: ComMethod::DwmExtendFrameIntoClientArea { left: -1, right: -1, top: -1, bottom: -1 } },
            Call::Com { obj: 0x60, method: ComMethod::DwmInvalidateIconicBitmaps },
            Call::Com {
                obj: 0x60,
                method: ComMethod::DwmSetIconicLivePreviewBitmap { hbmp: 0x70, client_x: 3, client_y: 4, has_point: true, flags: 0 },
            },
            Call::Com { obj: 0x60, method: ComMethod::DwmSetIconicThumbnail { hbmp: 0x70, flags: 1 } },
        ]
    );
}

#[test]
fn get_parent_passes_the_failure_on() {
    let mut os = Os::new();
    let p = os.create_object().unwrap();
    let obj = IDXGIObject { com: ComPtr::new(p) };
    os.fail_next_com_call(0x8000_4002);
    assert_eq!(obj.GetParent(&mut os, IID_IUNKNOWN).err(), Some(0x8000_4002));
    assert_eq!(os.calls(), &vec![Call::QueryInterface { obj: p, iid: IID_IUNKNOWN }]);
    assert!(obj.GetParent(&mut os, IID_IUNKNOWN).is_ok());
}

#[test]
fn get_item_at_hands_out_items_below_the_count() {
    let mut os = Os::new();
    let p = os.create_item_array(2).unwrap();
    let arr = IShellItemArray { com: ComPtr::new(p) };
    let a = arr.GetItemAt(&mut os, 0).unwrap();
    let b = arr.GetItemAt(&mut os, 1).unwrap();
    assert_ne!(a.ptr(), b.ptr());
    assert_eq!(arr.GetItemAt(&mut os, 2).err(), Some(E_INVALIDARG));
}

#[test]
fn iterated_items_are_non_null() {
    let mut os = Os::new();
    let p = os.create_item_array(2).unwrap();
    let arr = IShellItemArray { com: ComPtr::new(p) };
    let items = arr.iter(&mut os).unwrap();
    assert!(items.iter().all(|i| i.as_ref().map(|c| c.ptr() != 0).unwrap_or(false)));
}
