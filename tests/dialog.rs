use winsafe::com::{dxgi_IDXGIObject, IDXGIObject, IID_IUNKNOWN};
use winsafe::dialog_modal::{proc_reply, DialogModal, DLGID_CANCEL, ERROR_NO_MORE_ITEMS};
use winsafe::guard::ComPtr;
use winsafe::events::HandlerRet;
use winsafe::msg::{Wm, WM_CLOSE, WM_INITDIALOG, WM_SIZE};
use winsafe::os::{Call, Os, Rect};

#[test]
fn modal_dialog_cancel() {
    let mut os = Os::new();
    let parent = os.create_top_level(0xC100, Rect { left: 0, top: 0, right: 400, bottom: 300 }).unwrap();
    let mut dlg: DialogModal<u32> = DialogModal::new(parent, 100);
    dlg.on().wm_size(1).unwrap();
    os.post_to_dialog(WM_SIZE);
    os.post_to_dialog(WM_CLOSE);
    assert_eq!(dlg.show_modal(&mut os), Ok(2));
    let h = dlg.hwnd().raw;
    assert_eq!(
        os.calls(),
        &vec![
            Call::DialogBoxParam { parent: parent.raw, dialog_id: 100 },
            Call::SetWindowPos { hwnd: h, x: 100, y: 100 },
            Call::UserHandler { hwnd: h, msg_id: WM_SIZE },
            Call::EndDialog { hwnd: h, result: DLGID_CANCEL },
        ]
    );
}

#[test]
fn modal_dialog_without_close_runs_out_of_messages() {
    let mut os = Os::new();
    let parent = os.create_top_level(0xC100, Rect { left: 0, top: 0, right: 400, bottom: 300 }).unwrap();
    let mut dlg: DialogModal<u32> = DialogModal::new(parent, 100);
    os.post_to_dialog(WM_SIZE);
    assert_eq!(dlg.show_modal(&mut os), Err(ERROR_NO_MORE_ITEMS));
}

#[test]
fn user_reply_overrides_privileged() {
    assert_eq!(proc_reply(Some(1), Some(0)), Some(0));
    assert_eq!(proc_reply(Some(1), None), Some(1));
    assert_eq!(proc_reply(None, None), None);
}

#[test]
fn com_release() {
    let mut os = Os::new();
    let p = os.create_object().unwrap();
    let obj = IDXGIObject { com: ComPtr::new(p) };
    let parent = obj.GetParent(&mut os, IID_IUNKNOWN).unwrap();
    let pp = parent.ptr();
    assert_ne!(pp, p);
    parent.release(&mut os);
    obj.com.release(&mut os);
    assert_eq!(
        os.calls(),
        &vec![
            Call::QueryInterface { obj: p, iid: IID_IUNKNOWN },
            Call::Release { obj: pp },
            Call::Release { obj: p },
        ]
    );
}

#[test]
fn user_init_dialog_reply_overrides_framework() {
    let mut os = Os::new();
    let parent = os.create_top_level(0xC100, Rect { left: 0, top: 0, right: 400, bottom: 300 }).unwrap();
    let mut dlg: DialogModal<u32> = DialogModal::new(parent, 100);
    dlg.on().wm_init_dialog(9).unwrap();
    let w = Wm { msg_id: WM_INITDIALOG, wparam: 0, lparam: 0 };
    assert_eq!(dlg.user_lookup(w, 0), Some(0));
    assert_eq!(dlg.window_proc(&mut os, w, 0, Some(HandlerRet::Bool(false))), Some(0));
    assert_eq!(dlg.window_proc(&mut os, w, 0, None), Some(1));
    let close = Wm { msg_id: WM_CLOSE, wparam: 0, lparam: 0 };
    assert_eq!(dlg.window_proc(&mut os, close, 0, None), Some(0));
    assert_eq!(os.dialog_end(), Some(DLGID_CANCEL));
    let other = Wm { msg_id: 0x0400, wparam: 0, lparam: 0 };
    assert_eq!(dlg.window_proc(&mut os, other, 0, None), None);
}

#[test]
fn modal_dialog_ends_once_with_the_stored_result() {
    let mut os = Os::new();
    let parent = os.create_top_level(0xC100, Rect { left: 0, top: 0, right: 400, bottom: 300 }).unwrap();
    let mut dlg: DialogModal<u32> = DialogModal::new(parent, 100);
    os.post_to_dialog(WM_CLOSE);
    os.post_to_dialog(WM_CLOSE);
    assert_eq!(dlg.show_modal(&mut os), Ok(2));
    assert_eq!(os.dialog_end(), Some(DLGID_CANCEL));
    let ends = os.calls().iter().filter(|c| matches!(c, Call::EndDialog { .. })).count();
    assert_eq!(ends, 1);
}
