use winsafe::events::{coerce, EventError, EventKey, Events, HandlerRet, Reply};
use winsafe::msg::{Wm, WM_CLOSE, WM_COMMAND, WM_NOTIFY, WM_SIZING};
use winsafe::status_bar_events::{StatusBarEvents, NM_CLICK};

#[test]
fn duplicate_registration_is_refused() {
    let mut ev: Events<u32> = Events::new();
    assert_eq!(ev.wm_close(1), Ok(()));
    assert_eq!(ev.wm_close(2), Err(EventError::Duplicate));
    assert_eq!(ev.wm(WM_CLOSE, 3), Err(EventError::Duplicate));
    assert_eq!(ev.len(), 1);
    let i = ev.find(EventKey::Msg(WM_CLOSE)).unwrap();
    assert_eq!(ev.entry(i).handler, 1);
}

#[test]
fn replies_follow_each_convention() {
    let mut ev: Events<u32> = Events::new();
    ev.wm_sizing(0).unwrap();
    let i = ev.find(EventKey::Msg(WM_SIZING)).unwrap();
    assert_eq!(ev.entry(i).reply, Reply::Fixed(1));
    assert_eq!(coerce(Reply::Fixed(1), HandlerRet::Unit), 1);
    assert_eq!(coerce(Reply::FromBool, HandlerRet::Bool(true)), 1);
    assert_eq!(coerce(Reply::FromBool, HandlerRet::Bool(false)), 0);
    assert_eq!(coerce(Reply::FromI32, HandlerRet::I32(-5)), -5);
    assert_eq!(coerce(Reply::FromHandle, HandlerRet::Handle(0x1234)), 0x1234);
    assert_eq!(coerce(Reply::FromHandle, HandlerRet::Handle(usize::MAX)), -1);
    assert_eq!(coerce(Reply::Raw, HandlerRet::Word(-9)), -9);
}

#[test]
fn command_of_a_control_goes_to_its_own_handler_first() {
    let mut ev: Events<u32> = Events::new();
    ev.wm_command(1).unwrap();
    ev.cmd(101, 0x300, 2).unwrap();
    let own = Wm { msg_id: WM_COMMAND, wparam: 101 + 0x300 * 65536, lparam: 0 };
    let other = Wm { msg_id: WM_COMMAND, wparam: 102 + 0x300 * 65536, lparam: 0 };
    assert_eq!(ev.entry(ev.find_for(own, 0).unwrap()).handler, 2);
    assert_eq!(ev.entry(ev.find_for(other, 0).unwrap()).handler, 1);
}

#[test]
fn status_bar_click_is_registered_on_the_parent() {
    let mut parent: Events<u32> = Events::new();
    let sb = StatusBarEvents::new(40);
    sb.nm_click(&mut parent, 7).unwrap();
    assert_eq!(sb.nm_click(&mut parent, 8), Err(EventError::Duplicate));
    let w = Wm { msg_id: WM_NOTIFY, wparam: 40, lparam: 0x9000 };
    let i = parent.find_for(w, NM_CLICK).unwrap();
    assert_eq!(parent.entry(i).handler, 7);
    assert_eq!(parent.entry(i).reply, Reply::FromBool);
    assert_eq!(parent.find_for(w, -3), None);
}

#[test]
fn drain_empties_the_table() {
    let mut ev: Events<u32> = Events::new();
    assert!(ev.is_empty());
    ev.wm_size(1).unwrap();
    ev.wm_close(2).unwrap();
    let out = ev.drain();
    assert_eq!(out.len(), 2);
    assert_eq!(out[0].handler, 1);
    assert!(ev.is_empty());
}
