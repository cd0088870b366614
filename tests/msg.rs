use winsafe::msg::{CtlColor, Msg, Wm, WM_COMMAND, WM_SIZE};

#[test]
fn size_encodes_halves_and_decodes_back() {
    let m = Msg::Size { request: 0, width: 640, height: 480 };
    let w = m.encode();
    assert_eq!(w, Wm { msg_id: WM_SIZE, wparam: 0, lparam: 640 + 480 * 65536 });
    assert_eq!(w.decode(), Some(m));
}

#[test]
fn size_high_half_is_sign_extended() {
    let m = Msg::Size { request: 2, width: 1, height: 0xFFFF };
    let w = m.encode();
    assert_eq!(w.lparam, -65535);
    assert_eq!(w.decode(), Some(m));
    let raw = Wm { msg_id: WM_SIZE, wparam: 2, lparam: -65535 };
    assert_eq!(raw.decode().unwrap().encode(), raw);
}

#[test]
fn command_splits_control_id_and_code() {
    let w = Wm { msg_id: WM_COMMAND, wparam: 0x0300_0065, lparam: 0x1234 };
    let m = w.decode().unwrap();
    assert_eq!(m, Msg::Command { ctrl_id: 0x65, code: 0x300, ctrl_hwnd: 0x1234 });
    assert_eq!(m.encode(), w);
}

#[test]
fn every_payload_round_trips() {
    let all = vec![
        Msg::Null,
        Msg::Create { create_struct: -7 },
        Msg::Destroy,
        Msg::Size { request: 1, width: 0, height: 0x8000 },
        Msg::Activate { event: 2, is_minimized: true, hwnd: 99 },
        Msg::Close,
        Msg::ActivateApp { is_being_activated: true, thread_id: 42 },
        Msg::Notify { ctrl_id: 3, nmhdr: 0x5000 },
        Msg::NcDestroy,
        Msg::InitDialog { hwnd_focus: 8, additional_data: -1 },
        Msg::Command { ctrl_id: 0xFFFF, code: 0xFFFF, ctrl_hwnd: 5 },
        Msg::InitMenuPopup { hmenu: 11, item_pos: 4, is_window_menu: true },
        Msg::CtlColor { kind: CtlColor::Btn, hdc: 1, hwnd: 2 },
        Msg::CtlColor { kind: CtlColor::Dlg, hdc: 1, hwnd: 2 },
        Msg::CtlColor { kind: CtlColor::Edit, hdc: 1, hwnd: 2 },
        Msg::CtlColor { kind: CtlColor::ListBox, hdc: 1, hwnd: 2 },
        Msg::CtlColor { kind: CtlColor::ScrollBar, hdc: 1, hwnd: 2 },
        Msg::CtlColor { kind: CtlColor::Static, hdc: 1, hwnd: 2 },
        Msg::Sizing { edge: 6, rect: 0x7000 },
        Msg::DropFiles { hdrop: 0x4444 },
    ];
    for m in all {
        let w = m.encode();
        assert_eq!(w.decode(), Some(m));
        assert_eq!(w.decode().unwrap().encode(), w);
    }
}

#[test]
fn unknown_id_is_not_decoded() {
    let w = Wm { msg_id: 0x0400, wparam: 1, lparam: 2 };
    assert_eq!(w.decode(), None);
}
