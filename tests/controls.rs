use std::cell::RefCell;
use std::rc::Rc;

use winsafe::control::SubclassReply;
use winsafe::edit::{Edit, EditOpts, EDIT_EX_STYLE, EDIT_STYLE, EDIT_WINDOW_STYLE, EN_CHANGE};
use winsafe::events::{EventKey, HandlerRet};
use winsafe::handle::Hwnd;
use winsafe::msg::{Msg, Wm, WM_CREATE, WM_NCDESTROY, WM_SETFONT};
use winsafe::os::{Call, Os, Rect, FIRST_AUTO_CTRL_ID, UI_FONT, WC_DIALOG, WC_EDIT};

fn top_level(os: &mut Os, class_atom: u16) -> Hwnd {
    os.create_top_level(class_atom, Rect { left: 0, top: 0, right: 400, bottom: 300 }).unwrap()
}

#[test]
fn edit_construction_defaults() {
    let mut os = Os::new();
    let mut edit: Edit<u32> = Edit::new(&mut os, EditOpts::default());
    assert_eq!(edit.ctrl_id(), FIRST_AUTO_CTRL_ID);
    assert!(edit.hwnd().is_null());
    let parent = top_level(&mut os, 0xC100);
    edit.create(&mut os, parent).unwrap();
    assert!(!edit.hwnd().is_null());

    let w = *os.windows().last().unwrap();
    assert_eq!(w.hwnd, edit.hwnd().raw);
    assert_eq!(w.parent, parent.raw);
    assert_eq!(w.class_atom, WC_EDIT);
    assert_eq!(w.ctrl_id, FIRST_AUTO_CTRL_ID);
    assert_eq!(w.rect, Rect { left: 0, top: 0, right: 100, bottom: 21 });
    assert_eq!(w.style, 0x4000_0000 | 0x1000_0000 | 0x0001_0000 | 0x0002_0000 | 0x0080 | 0x0100);
    assert_eq!(w.style, EDIT_WINDOW_STYLE | EDIT_STYLE);
    assert_eq!(w.ex_style, 0x0000 | 0x0200);
    assert_eq!(w.ex_style, EDIT_EX_STYLE);
    assert_eq!(
        os.calls(),
        &vec![
            Call::CreateWindowEx { hwnd: edit.hwnd().raw, parent: parent.raw, ctrl_id: FIRST_AUTO_CTRL_ID },
            Call::SendMessage { hwnd: edit.hwnd().raw, msg_id: WM_SETFONT, wparam: UI_FONT, lparam: 1 },
        ]
    );
}

#[test]
fn automatic_ids_count_up_and_given_ids_are_kept() {
    let mut os = Os::new();
    let a: Edit<u32> = Edit::new(&mut os, EditOpts::default());
    let b: Edit<u32> = Edit::new(&mut os, EditOpts::default());
    let c: Edit<u32> = Edit::new(&mut os, EditOpts { ctrl_id: 7, ..EditOpts::default() });
    assert_eq!(a.ctrl_id(), FIRST_AUTO_CTRL_ID);
    assert_eq!(b.ctrl_id(), FIRST_AUTO_CTRL_ID + 1);
    assert_eq!(c.ctrl_id(), 7);
}

#[test]
fn registration_closes_when_control_or_parent_exists() {
    let mut os = Os::new();
    let mut edit: Edit<u32> = Edit::new(&mut os, EditOpts::default());
    let mut parent_events: winsafe::events::Events<u32> = winsafe::events::Events::new();
    assert!(edit.registration_open(Hwnd::null()));
    edit.on(Hwnd::null()).en_change(&mut parent_events, 5).unwrap();
    assert!(parent_events.find(EventKey::Command { ctrl_id: edit.ctrl_id(), code: EN_CHANGE }).is_some());

    let parent = top_level(&mut os, 0xC100);
    assert!(!edit.registration_open(parent));
    edit.create(&mut os, parent).unwrap();
    assert!(!edit.registration_open(Hwnd::null()));
}

#[test]
fn subclass_round_trip() {
    type Handler = Box<dyn Fn(&Msg) -> HandlerRet>;
    let seen: Rc<RefCell<Vec<(u16, u16)>>> = Rc::new(RefCell::new(Vec::new()));
    let mut os = Os::new();
    let mut edit: Edit<Handler> = Edit::new(&mut os, EditOpts::default());
    let rec = seen.clone();
    edit.on_subclass(Hwnd::null())
        .wm_size(Box::new(move |m: &Msg| {
            if let Msg::Size { width, height, .. } = *m {
                rec.borrow_mut().push((width, height));
            }
            HandlerRet::Unit
        }))
        .unwrap();

    let parent = top_level(&mut os, 0xC100);
    edit.create(&mut os, parent).unwrap();
    let hwnd = edit.hwnd().raw;
    let n = os.calls().len();
    assert_eq!(
        os.calls()[n - 1],
        Call::SendMessage { hwnd, msg_id: WM_SETFONT, wparam: UI_FONT, lparam: 1 }
    );
    let installed = match os.calls().get(n - 2) {
        Some(Call::SetWindowSubclass { hwnd: h, subclass_id }) => {
            assert_eq!(*h, hwnd);
            *subclass_id
        },
        other => panic!("no subclass installed: {:?}", other),
    };
    assert_eq!(installed, 1);

    let mut deliver = |os: &mut Os, edit: &mut Edit<Handler>, w: Wm| -> SubclassReply {
        let found = edit.subclass_lookup(w, 0);
        let ret = found.map(|i| (edit.subclass_handler(i))(&w.decode().unwrap()));
        edit.subclass_proc(os, w, found, ret)
    };
    let create = Wm { msg_id: WM_CREATE, wparam: 0, lparam: 0 };
    assert_eq!(deliver(&mut os, &mut edit, create), SubclassReply::DefSubclassProc);
    let size = Msg::Size { request: 0, width: 640, height: 480 }.encode();
    assert_eq!(deliver(&mut os, &mut edit, size), SubclassReply::Word(0));
    let nc = Wm { msg_id: WM_NCDESTROY, wparam: 0, lparam: 0 };
    assert_eq!(deliver(&mut os, &mut edit, nc), SubclassReply::DefSubclassProc);
    assert_eq!(
        os.calls().last(),
        Some(&Call::RemoveWindowSubclass { hwnd, subclass_id: installed })
    );
    assert_eq!(deliver(&mut os, &mut edit, size), SubclassReply::DefSubclassProc);
    assert_eq!(*seen.borrow(), vec![(640, 480)]);
}

#[test]
fn no_subclass_without_subclass_events() {
    let mut os = Os::new();
    let mut edit: Edit<u32> = Edit::new(&mut os, EditOpts::default());
    let parent = top_level(&mut os, 0xC100);
    edit.create(&mut os, parent).unwrap();
    assert_eq!(os.calls().len(), 2);
    let nc = Wm { msg_id: WM_NCDESTROY, wparam: 0, lparam: 0 };
    assert_eq!(edit.subclass_lookup(nc, 0), None);
    assert_eq!(edit.subclass_proc(&mut os, nc, None, None), SubclassReply::DefSubclassProc);
    assert_eq!(os.calls().len(), 2);
}

#[test]
fn dialog_child_attach_failure() {
    let mut os = Os::new();
    let parent = top_level(&mut os, 0xC100);
    let edit: Edit<u32> = Edit::new_dlg(12);
    assert_eq!(edit.ctrl_id(), 12);
    // Attaching needs a dialog parent; the check comes before any host call.
    assert!(!os.is_dialog(parent));
    assert!(!os.calls().iter().any(|c| matches!(c, Call::GetDlgItem { .. })));
}

#[test]
fn dialog_child_attaches_to_its_item() {
    let mut os = Os::new();
    let dlg = top_level(&mut os, WC_DIALOG);
    let item = os
        .create_window_ex(dlg, WC_EDIT, 12, Rect { left: 1, top: 1, right: 50, bottom: 20 }, 0, 0, &String::new())
        .unwrap();
    let mut edit: Edit<u32> = Edit::new_dlg(12);
    assert!(os.is_dialog(dlg));
    edit.create(&mut os, dlg).unwrap();
    assert_eq!(edit.hwnd(), item);
    assert_eq!(os.calls().last(), Some(&Call::GetDlgItem { parent: dlg.raw, ctrl_id: 12 }));

    let mut missing: Edit<u32> = Edit::new_dlg(13);
    assert_eq!(missing.create(&mut os, dlg), Err(winsafe::os::ERROR_CONTROL_ID_NOT_FOUND));
    assert!(missing.hwnd().is_null());
}

#[test]
fn oversized_edit_is_refused() {
    let mut os = Os::new();
    let opts = EditOpts { pos: winsafe::edit::Point { x: i32::MAX - 5, y: 0 }, ..EditOpts::default() };
    let mut edit: Edit<u32> = Edit::new(&mut os, opts);
    let parent = top_level(&mut os, 0xC100);
    assert_eq!(edit.create(&mut os, parent), Err(winsafe::os::ERROR_ARITHMETIC_OVERFLOW));
    assert!(os.calls().is_empty());
}

#[test]
fn edit_text_reaches_the_host() {
    let mut os = Os::new();
    let opts = EditOpts { text: "hello".to_string(), ..EditOpts::default() };
    let mut edit: Edit<u32> = Edit::new(&mut os, opts);
    let parent = top_level(&mut os, 0xC100);
    edit.create(&mut os, parent).unwrap();
    assert_eq!(os.texts().last().map(|t| t.as_str()), Some("hello"));
    assert_eq!(os.texts().len(), os.windows().len());
}

#[test]
fn subclass_ids_are_distinct_across_controls() {
    let mut os = Os::new();
    let mut a: Edit<u32> = Edit::new(&mut os, EditOpts::default());
    let mut b: Edit<u32> = Edit::new(&mut os, EditOpts::default());
    a.on_subclass(Hwnd::null()).wm_size(1).unwrap();
    b.on_subclass(Hwnd::null()).wm_size(2).unwrap();
    let parent = top_level(&mut os, 0xC100);
    a.create(&mut os, parent).unwrap();
    b.create(&mut os, parent).unwrap();
    let ids: Vec<u64> = os
        .calls()
        .iter()
        .filter_map(|c| match c {
            Call::SetWindowSubclass { subclass_id, .. } => Some(*subclass_id),
            _ => None,
        })
        .collect();
    assert_eq!(ids, vec![1, 2]);
}
