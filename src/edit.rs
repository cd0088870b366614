use vstd::prelude::*;

use crate::control::{NativeControlBase, OptsId, SubclassReply};
use crate::events::{EventError, EventKey, Events, HandlerRet, Reply};
use crate::handle::Hwnd;
use crate::msg::{Wm, WM_SETFONT};
use crate::os::{
    has_child, is_dialog_window, next_auto_ctrl_id, Call, Os, Rect, Window, ERROR_ARITHMETIC_OVERFLOW,
    ERROR_CONTROL_ID_NOT_FOUND, ERROR_NOT_ENOUGH_MEMORY, UI_FONT, WC_EDIT,
};

verus! {

pub const WS_CHILD: u32 = 0x4000_0000;
pub const WS_VISIBLE: u32 = 0x1000_0000;
pub const WS_TABSTOP: u32 = 0x0001_0000;
pub const WS_GROUP: u32 = 0x0002_0000;
pub const ES_AUTOHSCROLL: u32 = 0x0080;
pub const ES_NOHIDESEL: u32 = 0x0100;
pub const WS_EX_LEFT: u32 = 0x0000;
pub const WS_EX_CLIENTEDGE: u32 = 0x0200;

/// Default window styles of an edit control.
pub const EDIT_WINDOW_STYLE: u32 = 0x5003_0000;
/// Default edit styles of an edit control.
pub const EDIT_STYLE: u32 = 0x0180;
/// Default extended window styles of an edit control.
pub const EDIT_EX_STYLE: u32 = 0x0200;

pub const EN_SETFOCUS: u16 = 0x0100;
pub const EN_KILLFOCUS: u16 = 0x0200;
pub const EN_CHANGE: u16 = 0x0300;
pub const EN_UPDATE: u16 = 0x0400;
pub const EN_MAXTEXT: u16 = 0x0501;

/// The default styles are the documented flags combined.
pub proof fn lemma_default_styles()
    ensures
        EDIT_WINDOW_STYLE == WS_CHILD | WS_VISIBLE | WS_TABSTOP | WS_GROUP,
        EDIT_STYLE == ES_AUTOHSCROLL | ES_NOHIDESEL,
        EDIT_EX_STYLE == WS_EX_LEFT | WS_EX_CLIENTEDGE,
{
    assert(0x5003_0000u32 == 0x4000_0000u32 | 0x1000_0000u32 | 0x0001_0000u32 | 0x0002_0000u32) by (bit_vector);
    assert(0x0180u32 == 0x0080u32 | 0x0100u32) by (bit_vector);
    assert(0x0200u32 == 0x0000u32 | 0x0200u32) by (bit_vector);
}

/// A point in client coordinates.
#[derive(Clone, Copy, Debug, PartialEq, Eq, Structural)]
pub struct Point {
    pub x: i32,
    pub y: i32,
}

/// Options for an edit control created with `CreateWindowEx`.
pub struct EditOpts {
    /// Initial text; defaults to empty.
    pub text: String,
    /// Position within the parent's client area; defaults to 0x0.
    pub pos: Point,
    /// Width in pixels; defaults to 100.
    pub width: u32,
    /// Height in pixels; defaults to 21.
    pub height: u32,
    /// Edit styles; default `ES_AUTOHSCROLL | ES_NOHIDESEL`.
    pub edit_style: u32,
    /// Window styles; default `WS_CHILD | WS_VISIBLE | WS_TABSTOP | WS_GROUP`.
    pub window_style: u32,
    /// Extended window styles; default `WS_EX_LEFT | WS_EX_CLIENTEDGE`.
    pub ex_window_style: u32,
    /// The control id; 0, the default, asks for an automatic one.
    pub ctrl_id: u16,
}

impl Default for EditOpts {
    fn default() -> (r: EditOpts)
        ensures
            r.text@ == Seq::<char>::empty(),
            r.pos == (Point { x: 0, y: 0 }),
            r.width == 100,
            r.height == 21,
            r.edit_style == EDIT_STYLE,
            r.window_style == EDIT_WINDOW_STYLE,
            r.ex_window_style == EDIT_EX_STYLE,
            r.ctrl_id == 0,
    {
        EditOpts {
            text: String::new(),
            pos: Point { x: 0, y: 0 },
            width: 100,
            height: 21,
            edit_style: EDIT_STYLE,
            window_style: EDIT_WINDOW_STYLE,
            ex_window_style: EDIT_EX_STYLE,
            ctrl_id: 0,
        }
    }
}

impl EditOpts {
    /// Replaces a control id of 0 by the next automatic one.
    fn define_ctrl_id(&mut self, os: &mut Os)
        requires
            old(os).wf(),
        ensures
            final(os).wf(),
            final(os).calls_spec() == old(os).calls_spec(),
            final(os).windows_spec() == old(os).windows_spec(),
            old(self).ctrl_id == 0 ==> final(self).ctrl_id == old(os).next_ctrl_id_spec()
                && final(os).next_ctrl_id_spec() == next_auto_ctrl_id(old(os).next_ctrl_id_spec())
                && final(os).next_subclass_id_spec() == old(os).next_subclass_id_spec()
                && final(os).free_handles() == old(os).free_handles(),
            old(self).ctrl_id != 0 ==> final(self).ctrl_id == old(self).ctrl_id && *final(os) == *old(os),
            final(self).ctrl_id != 0,
            final(self).text == old(self).text,
            final(self).pos == old(self).pos,
            final(self).width == old(self).width,
            final(self).height == old(self).height,
            final(self).edit_style == old(self).edit_style,
            final(self).window_style == old(self).window_style,
            final(self).ex_window_style == old(self).ex_window_style,
    {
        if self.ctrl_id == 0 {
            self.ctrl_id = os.auto_ctrl_id();
        }
    }
}

/// Registers, on the parent's table, the commands that an edit control
/// sends its parent. It is handed out only by [`Edit::on`], while the
/// control and its parent do not exist yet.
#[derive(Debug, PartialEq, Eq, Structural)]
pub struct EditEvents {
    pub ctrl_id: u16,
}

impl EditEvents {
    pub(crate) fn new(ctrl_id: u16) -> (r: EditEvents)
        ensures
            r.ctrl_id == ctrl_id,
    {
        EditEvents { ctrl_id }
    }

    /// `EN_CHANGE`: the text changed.
    pub fn en_change<H>(&self, parent_events: &mut Events<H>, handler: H) -> (r: Result<(), EventError>)
        requires
            old(parent_events).wf(),
        ensures
            old(parent_events).registered(final(parent_events), r,
                EventKey::Command { ctrl_id: self.ctrl_id, code: EN_CHANGE }, Reply::Fixed(0), handler),
    {
        parent_events.cmd(self.ctrl_id, EN_CHANGE, handler)
    }

    /// `EN_KILLFOCUS`: the control lost the keyboard focus.
    pub fn en_kill_focus<H>(&self, parent_events: &mut Events<H>, handler: H) -> (r: Result<(), EventError>)
        requires
            old(parent_events).wf(),
        ensures
            old(parent_events).registered(final(parent_events), r,
                EventKey::Command { ctrl_id: self.ctrl_id, code: EN_KILLFOCUS }, Reply::Fixed(0), handler),
    {
        parent_events.cmd(self.ctrl_id, EN_KILLFOCUS, handler)
    }

    /// `EN_SETFOCUS`: the control got the keyboard focus.
    pub fn en_set_focus<H>(&self, parent_events: &mut Events<H>, handler: H) -> (r: Result<(), EventError>)
        requires
            old(parent_events).wf(),
        ensures
            old(parent_events).registered(final(parent_events), r,
                EventKey::Command { ctrl_id: self.ctrl_id, code: EN_SETFOCUS }, Reply::Fixed(0), handler),
    {
        parent_events.cmd(self.ctrl_id, EN_SETFOCUS, handler)
    }

    /// `EN_UPDATE`: the text is about to be drawn.
    pub fn en_update<H>(&self, parent_events: &mut Events<H>, handler: H) -> (r: Result<(), EventError>)
        requires
            old(parent_events).wf(),
        ensures
            old(parent_events).registered(final(parent_events), r,
                EventKey::Command { ctrl_id: self.ctrl_id, code: EN_UPDATE }, Reply::Fixed(0), handler),
    {
        parent_events.cmd(self.ctrl_id, EN_UPDATE, handler)
    }

    /// `EN_MAXTEXT`: an insertion was cut at the text limit.
    pub fn en_max_text<H>(&self, parent_events: &mut Events<H>, handler: H) -> (r: Result<(), EventError>)
        requires
            old(parent_events).wf(),
        ensures
            old(parent_events).registered(final(parent_events), r,
                EventKey::Command { ctrl_id: self.ctrl_id, code: EN_MAXTEXT }, Reply::Fixed(0), handler),
    {
        parent_events.cmd(self.ctrl_id, EN_MAXTEXT, handler)
    }
}

/// The rectangle a control at `pos` of the given size occupies, where it
/// fits the host's coordinates.
pub open spec fn placed_rect(pos: Point, width: u32, height: u32) -> Option<Rect> {
    let right = pos.x + width;
    let bottom = pos.y + height;
    if right <= i32::MAX && bottom <= i32::MAX {
        Some(Rect { left: pos.x, top: pos.y, right: right as i32, bottom: bottom as i32 })
    } else {
        None
    }
}

/// Once an edit control or its parent window exists, no event can be
/// registered on it any more: neither parent-scoped nor subclass events.
pub proof fn lemma_edit_registration_closed<H>(e: &Edit<H>, parent: Hwnd)
    requires
        !e.hwnd_spec().is_null() || !parent.is_null(),
    ensures
        !e.base_spec().can_register(parent),
{
}

/// Native edit control.
pub struct Edit<H> {
    base: NativeControlBase<H, EditEvents, EditOpts>,
}

impl<H> Edit<H> {
    pub closed spec fn base_spec(&self) -> &NativeControlBase<H, EditEvents, EditOpts> {
        &self.base
    }

    pub open spec fn hwnd_spec(&self) -> Hwnd {
        self.base_spec().hwnd_spec()
    }

    pub open spec fn ctrl_id_spec(&self) -> u16 {
        match self.base_spec().opts_id_spec() {
            OptsId::Wnd(opts) => opts.ctrl_id,
            OptsId::Dlg(id) => *id,
        }
    }

    pub open spec fn wf(&self) -> bool {
        &&& self.base_spec().wf()
        &&& self.base_spec().parent_events_spec().ctrl_id == self.ctrl_id_spec()
    }

    /// An edit control to be created under its parent with `CreateWindowEx`.
    /// A control id of 0 in `opts` is replaced by the next automatic one.
    pub fn new(os: &mut Os, opts: EditOpts) -> (r: Edit<H>)
        requires
            old(os).wf(),
        ensures
            final(os).wf(),
            final(os).calls_spec() == old(os).calls_spec(),
            final(os).windows_spec() == old(os).windows_spec(),
            r.wf(),
            r.hwnd_spec().is_null(),
            r.base_spec().subclass_events_spec().keys().len() == 0,
            r.base_spec().opts_id_spec() is Wnd,
            opts.ctrl_id == 0 ==> r.ctrl_id_spec() == old(os).next_ctrl_id_spec()
                && final(os).next_ctrl_id_spec() == next_auto_ctrl_id(old(os).next_ctrl_id_spec())
                && final(os).next_subclass_id_spec() == old(os).next_subclass_id_spec()
                && final(os).free_handles() == old(os).free_handles(),
            opts.ctrl_id != 0 ==> r.ctrl_id_spec() == opts.ctrl_id && *final(os) == *old(os),
            r.ctrl_id_spec() != 0,
            ({
                let o = r.base_spec().opts_id_spec()->Wnd_0;
                &&& o.text == opts.text
                &&& o.pos == opts.pos
                &&& o.width == opts.width
                &&& o.height == opts.height
                &&& o.edit_style == opts.edit_style
                &&& o.window_style == opts.window_style
                &&& o.ex_window_style == opts.ex_window_style
            }),
    {
        let mut opts = opts;
        opts.define_ctrl_id(os);
        let ctrl_id = opts.ctrl_id;
        Edit { base: NativeControlBase::new(EditEvents::new(ctrl_id), OptsId::Wnd(opts)) }
    }

    /// An edit control to be attached to the item `ctrl_id` of its parent
    /// dialog with `GetDlgItem`.
    pub fn new_dlg(ctrl_id: u16) -> (r: Edit<H>)
        ensures
            r.wf(),
            r.hwnd_spec().is_null(),
            r.base_spec().subclass_events_spec().keys().len() == 0,
            r.base_spec().opts_id_spec() == &OptsId::<EditOpts>::Dlg(ctrl_id),
            r.ctrl_id_spec() == ctrl_id,
    {
        Edit { base: NativeControlBase::new(EditEvents::new(ctrl_id), OptsId::Dlg(ctrl_id)) }
    }

    /// The control's handle: null until the control is created.
    pub fn hwnd(&self) -> (r: Hwnd)
        ensures
            r == self.hwnd_spec(),
    {
        self.base.hwnd()
    }

    /// The control id.
    pub fn ctrl_id(&self) -> (r: u16)
        ensures
            r == self.ctrl_id_spec(),
    {
        match self.base.opts_id() {
            OptsId::Wnd(opts) => opts.ctrl_id,
            OptsId::Dlg(ctrl_id) => *ctrl_id,
        }
    }

    /// Whether events may still be registered: neither the control nor its
    /// parent, whose handle is `parent`, exists yet.
    pub fn registration_open(&self, parent: Hwnd) -> (r: bool)
        ensures
            r == self.base_spec().can_register(parent),
    {
        self.base.registration_open(parent)
    }

    /// The edit events, which the parent receives. Allowed only before the
    /// control and its parent exist.
    pub fn on(&self, parent: Hwnd) -> (r: &EditEvents)
        requires
            self.wf(),
            self.base_spec().can_register(parent),
        ensures
            r.ctrl_id == self.ctrl_id_spec(),
    {
        self.base.on(parent)
    }

    /// The subclass events; if any is registered when the control is
    /// created, the control is subclassed. Allowed only before the control
    /// and its parent exist.
    pub fn on_subclass(&mut self, parent: Hwnd) -> (r: &mut Events<H>)
        requires
            old(self).base_spec().can_register(parent),
        ensures
            *r == old(self).base_spec().subclass_events_spec(),
            final(self).base_spec().subclass_events_spec() == *final(r),
            final(self).base_spec().hwnd_spec() == old(self).base_spec().hwnd_spec(),
            final(self).base_spec().opts_id_spec() == old(self).base_spec().opts_id_spec(),
            final(self).base_spec().parent_events_spec() == old(self).base_spec().parent_events_spec(),
            final(self).base_spec().subclass_id_spec() == old(self).base_spec().subclass_id_spec(),
    {
        self.base.on_subclass(parent)
    }

    /// Creates the control under `parent`: with `CreateWindowEx`, class
    /// edit, its options' rectangle and control id, and styles the window
    /// styles combined with the edit styles; or by attaching to the dialog
    /// item. Then subclasses it if subclass events are registered. A window
    /// it created gets the host's UI font with `WM_SETFONT`. The control must
    /// not exist yet, its parent must, and a dialog item's parent must be a
    /// dialog.
    ///
    /// Errors: `ERROR_ARITHMETIC_OVERFLOW`, before any host call, where the
    /// options' position and size reach past the host's coordinate range;
    /// the host's error where it cannot make the window or has no such dialog
    /// item, with the handle left null; `ERROR_NOT_ENOUGH_MEMORY` where the
    /// window exists but no subclass id is left, with the handle naming it.
    pub fn create(&mut self, os: &mut Os, parent: Hwnd) -> (r: Result<(), u32>)
        requires
            old(os).wf(),
            old(self).wf(),
            old(self).hwnd_spec().is_null(),
            !parent.is_null(),
            old(self).base_spec().opts_id_spec() is Dlg ==> is_dialog_window(old(os).windows_spec(), parent.raw),
        ensures
            final(os).wf(),
            final(self).wf(),
            final(self).ctrl_id_spec() == old(self).ctrl_id_spec(),
            final(self).base_spec().subclass_events_spec() == old(self).base_spec().subclass_events_spec(),
            final(os).next_ctrl_id_spec() == old(os).next_ctrl_id_spec(),
            r is Ok ==> !final(self).hwnd_spec().is_null()
                && (final(self).base_spec().subclass_id_spec() is Some <==> old(self).base_spec().subclass_events_spec().keys().len() > 0),
            r is Err ==> final(self).base_spec().subclass_id_spec() is None,
            final(self).base_spec().subclass_id_spec() is Some ==> {
                &&& final(self).base_spec().subclass_id_spec() == Some(old(os).next_subclass_id_spec())
                &&& final(os).next_subclass_id_spec() == old(os).next_subclass_id_spec() + 1
                &&& final(os).calls_spec().len() > old(os).calls_spec().len() + 1
                &&& final(os).calls_spec()[old(os).calls_spec().len() + 1int] == (Call::SetWindowSubclass {
                    hwnd: final(self).hwnd_spec().raw,
                    subclass_id: old(os).next_subclass_id_spec(),
                })
            },
            old(self).base_spec().opts_id_spec() is Wnd && r is Ok ==> {
                let extra: int = if final(self).base_spec().subclass_id_spec() is Some { 1 } else { 0 };
                &&& final(os).calls_spec().len() == old(os).calls_spec().len() + 2 + extra
                &&& final(os).calls_spec().last() == (Call::SendMessage {
                    hwnd: final(self).hwnd_spec().raw,
                    msg_id: WM_SETFONT,
                    wparam: UI_FONT,
                    lparam: 1,
                })
            },
            old(self).base_spec().opts_id_spec() is Wnd && r is Err && placed_rect(
                old(self).base_spec().opts_id_spec()->Wnd_0.pos,
                old(self).base_spec().opts_id_spec()->Wnd_0.width,
                old(self).base_spec().opts_id_spec()->Wnd_0.height,
            ) is Some ==> final(os).calls_spec().len() == old(os).calls_spec().len() + 1,
            old(self).base_spec().opts_id_spec() is Dlg ==> final(os).calls_spec().len() <= old(os).calls_spec().len() + 2,
            old(self).base_spec().opts_id_spec() is Wnd ==> {
                let o = old(self).base_spec().opts_id_spec()->Wnd_0;
                let cwe = Call::CreateWindowEx { hwnd: final(self).hwnd_spec().raw, parent: parent.raw, ctrl_id: o.ctrl_id };
                &&& placed_rect(o.pos, o.width, o.height) is None ==> r == Err::<(), u32>(ERROR_ARITHMETIC_OVERFLOW)
                    && *final(os) == *old(os) && final(self).hwnd_spec().is_null()
                &&& placed_rect(o.pos, o.width, o.height) is Some ==> {
                    &&& (r is Ok <==> old(os).has_free_handle() && old(self).base_spec().can_install(*old(os)))
                    &&& r is Err ==> r == Err::<(), u32>(ERROR_NOT_ENOUGH_MEMORY)
                    &&& final(os).calls_spec().len() > old(os).calls_spec().len()
                    &&& final(os).calls_spec()[old(os).calls_spec().len() as int] == cwe
                    &&& !old(os).has_free_handle() ==> final(self).hwnd_spec().is_null()
                        && final(os).calls_spec() == old(os).calls_spec().push(cwe)
                        && final(os).windows_spec() == old(os).windows_spec()
                    &&& old(os).has_free_handle() ==> final(os).texts_spec() == old(os).texts_spec().push(o.text@)
                    &&& old(os).has_free_handle() ==> !final(self).hwnd_spec().is_null()
                        && final(os).windows_spec() == old(os).windows_spec().push(Window {
                            hwnd: final(self).hwnd_spec().raw,
                            parent: parent.raw,
                            class_atom: WC_EDIT,
                            ctrl_id: o.ctrl_id,
                            rect: placed_rect(o.pos, o.width, o.height)->0,
                            style: o.window_style | o.edit_style,
                            ex_style: o.ex_window_style,
                        })
                }
            },
            old(self).base_spec().opts_id_spec() is Dlg ==> {
                let id = old(self).ctrl_id_spec();
                &&& final(os).windows_spec() == old(os).windows_spec()
                &&& (r is Ok <==> has_child(old(os).windows_spec(), parent.raw, id) && old(self).base_spec().can_install(*old(os)))
                &&& final(os).calls_spec().len() > old(os).calls_spec().len()
                &&& final(os).calls_spec()[old(os).calls_spec().len() as int] == (Call::GetDlgItem { parent: parent.raw, ctrl_id: id })
                &&& !has_child(old(os).windows_spec(), parent.raw, id) ==> r == Err::<(), u32>(ERROR_CONTROL_ID_NOT_FOUND)
                    && final(self).hwnd_spec().is_null()
                &&& has_child(old(os).windows_spec(), parent.raw, id) ==> !final(self).hwnd_spec().is_null()
                    && (r is Err ==> r == Err::<(), u32>(ERROR_NOT_ENOUGH_MEMORY))
            },
    {
        let dlg_id: Option<u16> = match self.base.opts_id() {
            OptsId::Dlg(id) => Some(*id),
            OptsId::Wnd(_) => None,
        };
        match dlg_id {
            Some(id) => {
                self.base.create_dlg(os, parent, id)?;
                Ok(())
            },
            None => {
                let (rect, ctrl_id, ex, style, text) = match self.base.opts_id() {
                    OptsId::Wnd(o) => {
                        let right = o.pos.x as i64 + o.width as i64;
                        let bottom = o.pos.y as i64 + o.height as i64;
                        if right > i32::MAX as i64 || bottom > i32::MAX as i64 {
                            return Err(ERROR_ARITHMETIC_OVERFLOW);
                        }
                        (
                            Rect { left: o.pos.x, top: o.pos.y, right: right as i32, bottom: bottom as i32 },
                            o.ctrl_id,
                            o.ex_window_style,
                            o.window_style | o.edit_style,
                            o.text.clone(),
                        )
                    },
                    OptsId::Dlg(_) => {
                        return Ok(());
                    },
                };
                let h = self.base.create_window(os, parent, WC_EDIT, &text, rect, ctrl_id, ex, style)?;
                os.send_message(h, WM_SETFONT, UI_FONT, 1);
                Ok(())
            },
        }
    }

    /// See [`NativeControlBase::subclass_lookup`].
    pub fn subclass_lookup(&self, w: Wm, notify_code: i32) -> (r: Option<usize>)
        requires
            self.wf(),
        ensures
            self.base_spec().subclass_id_spec() is None ==> r is None,
            self.base_spec().subclass_id_spec() is Some ==> r
                == self.base_spec().subclass_events_spec().find_for_spec(w, notify_code),
    {
        self.base.subclass_lookup(w, notify_code)
    }

    /// The handler at position `i` of the subclass events.
    pub fn subclass_handler(&self, i: usize) -> (r: &H)
        requires
            i < self.base_spec().subclass_events_spec().keys().len(),
        ensures
            *r == self.base_spec().subclass_events_spec().handlers()[i as int],
    {
        &self.base.subclass_events_ref().entry(i).handler
    }

    /// See [`NativeControlBase::subclass_proc`].
    pub fn subclass_proc(&mut self, os: &mut Os, w: Wm, found: Option<usize>, ret: Option<HandlerRet>) -> (r: SubclassReply)
        requires
            old(self).wf(),
            found is Some <==> ret is Some,
            found is Some ==> found->0 < old(self).base_spec().subclass_events_spec().keys().len()
                && crate::events::ret_fits(old(self).base_spec().subclass_events_spec().replies()[found->0 as int], ret->0),
        ensures
            final(self).wf(),
            final(self).hwnd_spec() == old(self).hwnd_spec(),
            final(os).same_state(old(os)),
            w.msg_id == crate::msg::WM_NCDESTROY && old(self).base_spec().subclass_id_spec() is Some ==> {
                &&& final(os).calls_spec() == old(os).calls_spec().push(Call::RemoveWindowSubclass {
                    hwnd: old(self).hwnd_spec().raw,
                    subclass_id: old(self).base_spec().subclass_id_spec()->0,
                })
                &&& final(self).base_spec().subclass_id_spec() is None
            },
            r == crate::control::subclass_reply_spec(match found {
                Some(i) => crate::events::ProcessResult::HandledWithRet(
                    crate::events::coerce_spec(old(self).base_spec().subclass_events_spec().replies()[i as int], ret->0),
                ),
                None => crate::events::ProcessResult::NotHandled,
            }),
    {
        self.base.subclass_proc(os, w, found, ret)
    }
}

} // verus!
