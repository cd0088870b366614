use vstd::prelude::*;

use crate::events::{coerce, coerce_spec, ret_fits, Events, HandlerRet, ProcessResult};
use crate::handle::{Hwnd, NULL};
use crate::msg::{Wm, WM_NCDESTROY};
use crate::os::{
    has_child, is_dialog_window, rect_wf, Call, Os, Rect, Window, ERROR_CONTROL_ID_NOT_FOUND, ERROR_NOT_ENOUGH_MEMORY,
};

verus! {

/// How a child control comes to exist: created with the given options, or
/// attached to the item with this control id of a parent dialog.
pub enum OptsId<Op> {
    Wnd(Op),
    Dlg(u16),
}

/// Reply of the subclass dispatcher: a word, or the call on to the inner
/// window procedure through `DefSubclassProc`.
#[derive(Clone, Copy, Debug, PartialEq, Eq, Structural)]
pub enum SubclassReply {
    Word(isize),
    DefSubclassProc,
}

/// The dispatcher's reply for the outcome of the subclass table.
pub open spec fn subclass_reply_spec(p: ProcessResult) -> SubclassReply {
    match p {
        ProcessResult::HandledWithRet(w) => SubclassReply::Word(w),
        ProcessResult::HandledWithoutRet => SubclassReply::Word(0),
        ProcessResult::NotHandled => SubclassReply::DefSubclassProc,
    }
}

/// State shared by all native child controls: the handle, how the control
/// comes to exist, the proxy for events the parent receives on its behalf,
/// the subclass events, and the subclass installed on its window, if any.
pub struct NativeControlBase<H, Ev, Op> {
    hwnd: Hwnd,
    opts_id: OptsId<Op>,
    parent_events: Ev,
    subclass_events: Events<H>,
    subclass_id: Option<u64>,
}

impl<H, Ev, Op> NativeControlBase<H, Ev, Op> {
    pub closed spec fn hwnd_spec(&self) -> Hwnd {
        self.hwnd
    }

    pub closed spec fn opts_id_spec(&self) -> &OptsId<Op> {
        &self.opts_id
    }

    pub closed spec fn parent_events_spec(&self) -> Ev {
        self.parent_events
    }

    pub closed spec fn subclass_events_spec(&self) -> Events<H> {
        self.subclass_events
    }

    /// The id of the subclass installed on the control's window, if any.
    pub closed spec fn subclass_id_spec(&self) -> Option<u64> {
        self.subclass_id
    }

    pub open spec fn wf(&self) -> bool {
        &&& self.subclass_events_spec().wf()
        &&& self.subclass_id_spec() is Some ==> !self.hwnd_spec().is_null()
    }

    /// Events may be registered only while neither the control nor its
    /// parent window exists.
    pub open spec fn can_register(&self, parent: Hwnd) -> bool {
        self.hwnd_spec().is_null() && parent.is_null()
    }

    /// A control not created yet, with no subclass events.
    pub fn new(parent_events: Ev, opts_id: OptsId<Op>) -> (r: Self)
        ensures
            r.wf(),
            r.hwnd_spec().is_null(),
            r.opts_id_spec() == &opts_id,
            r.parent_events_spec() == parent_events,
            r.subclass_events_spec().keys().len() == 0,
            r.subclass_id_spec() is None,
    {
        NativeControlBase {
            hwnd: Hwnd::null(),
            opts_id,
            parent_events,
            subclass_events: Events::new(),
            subclass_id: None,
        }
    }

    /// The control's handle: null until creation succeeds.
    pub fn hwnd(&self) -> (r: Hwnd)
        ensures
            r == self.hwnd_spec(),
    {
        self.hwnd
    }

    /// The subclass events, for reading.
    pub fn subclass_events_ref(&self) -> (r: &Events<H>)
        ensures
            *r == self.subclass_events_spec(),
    {
        &self.subclass_events
    }

    /// Whether the parent window, whose handle is `parent`, exists.
    pub fn is_parent_created(&self, parent: Hwnd) -> (r: bool)
        ensures
            r == !parent.is_null(),
    {
        !parent.is_null()
    }

    /// Whether events may still be registered on this control.
    pub fn registration_open(&self, parent: Hwnd) -> (r: bool)
        ensures
            r == self.can_register(parent),
    {
        self.hwnd.is_null() && parent.is_null()
    }

    /// The creation options, or the dialog item id.
    pub fn opts_id(&self) -> (r: &OptsId<Op>)
        ensures
            r == self.opts_id_spec(),
    {
        &self.opts_id
    }

    /// The proxy that registers, on the parent's table, the events the
    /// parent receives on this control's behalf. Allowed only before the
    /// control and its parent exist.
    pub fn on(&self, parent: Hwnd) -> (r: &Ev)
        requires
            self.can_register(parent),
        ensures
            *r == self.parent_events_spec(),
    {
        &self.parent_events
    }

    /// The subclass events. If at least one is registered when the control
    /// is created, its window is subclassed. Allowed only before the control
    /// and its parent exist.
    pub fn on_subclass(&mut self, parent: Hwnd) -> (r: &mut Events<H>)
        requires
            old(self).can_register(parent),
        ensures
            *r == old(self).subclass_events_spec(),
            final(self).subclass_events_spec() == *final(r),
            final(self).hwnd_spec() == old(self).hwnd_spec(),
            final(self).opts_id_spec() == old(self).opts_id_spec(),
            final(self).parent_events_spec() == old(self).parent_events_spec(),
            final(self).subclass_id_spec() == old(self).subclass_id_spec(),
    {
        &mut self.subclass_events
    }

    /// Whether subclassing at creation, if it is needed, can succeed: no
    /// subclass events, or a subclass id left to draw.
    pub open spec fn can_install(&self, os: Os) -> bool {
        self.subclass_events_spec().keys().len() == 0 || os.next_subclass_id_spec() < u64::MAX
    }

    /// Installs the subclass dispatcher on the new window when subclass
    /// events are registered, under the next id of the process-wide counter.
    fn install_subclass_if_needed(&mut self, os: &mut Os) -> (r: Result<(), u32>)
        requires
            old(os).wf(),
            old(self).wf(),
            !old(self).hwnd_spec().is_null(),
            old(self).subclass_id_spec() is None,
        ensures
            final(os).texts_spec() == old(os).texts_spec(),
            final(os).wf(),
            final(self).wf(),
            final(self).hwnd_spec() == old(self).hwnd_spec(),
            final(self).opts_id_spec() == old(self).opts_id_spec(),
            final(self).parent_events_spec() == old(self).parent_events_spec(),
            final(self).subclass_events_spec() == old(self).subclass_events_spec(),
            final(os).windows_spec() == old(os).windows_spec(),
            final(os).next_ctrl_id_spec() == old(os).next_ctrl_id_spec(),
            r is Ok <==> old(self).can_install(*old(os)),
            old(self).subclass_events_spec().keys().len() == 0 ==> *final(os) == *old(os)
                && final(self).subclass_id_spec() is None,
            old(self).subclass_events_spec().keys().len() > 0 && r is Ok ==> {
                &&& final(self).subclass_id_spec() == Some(old(os).next_subclass_id_spec())
                &&& final(os).next_subclass_id_spec() == old(os).next_subclass_id_spec() + 1
                &&& final(os).calls_spec() == old(os).calls_spec().push(
                    Call::SetWindowSubclass { hwnd: old(self).hwnd_spec().raw, subclass_id: old(os).next_subclass_id_spec() },
                )
            },
            r is Err ==> {
                &&& r == Err::<(), u32>(ERROR_NOT_ENOUGH_MEMORY)
                &&& final(self).subclass_id_spec() is None
                &&& final(os).calls_spec() == old(os).calls_spec()
                &&& final(os).next_subclass_id_spec() == old(os).next_subclass_id_spec()
            },
    {
        if self.subclass_events.is_empty() {
            Ok(())
        } else {
            let id = os.set_window_subclass(self.hwnd)?;
            self.subclass_id = Some(id);
            Ok(())
        }
    }

    /// Creates the control's window under `parent` with `CreateWindowEx`,
    /// then subclasses it if subclass events are registered. The control
    /// must not exist yet and its parent must.
    ///
    /// Fails with the host's error where it cannot make the window; the
    /// handle then stays null. Fails with `ERROR_NOT_ENOUGH_MEMORY` where the
    /// window was made but no subclass id is left; the handle then names the
    /// window, which exists, and no subclass is installed.
    pub fn create_window(&mut self, os: &mut Os, parent: Hwnd, class_atom: u16, text: &String, rect: Rect, ctrl_id: u16, ex_styles: u32, styles: u32) -> (r: Result<Hwnd, u32>)
        requires
            old(os).wf(),
            old(self).wf(),
            old(self).hwnd_spec().is_null(),
            old(self).subclass_id_spec() is None,
            !parent.is_null(),
            rect_wf(rect),
        ensures
            final(os).wf(),
            final(self).wf(),
            final(self).opts_id_spec() == old(self).opts_id_spec(),
            final(self).parent_events_spec() == old(self).parent_events_spec(),
            final(self).subclass_events_spec() == old(self).subclass_events_spec(),
            final(os).next_ctrl_id_spec() == old(os).next_ctrl_id_spec(),
            r is Ok <==> old(os).has_free_handle() && old(self).can_install(*old(os)),
            r is Ok ==> r == Ok::<Hwnd, u32>(final(self).hwnd_spec()),
            r is Err ==> r == Err::<Hwnd, u32>(ERROR_NOT_ENOUGH_MEMORY) && final(self).subclass_id_spec() is None,
            !old(os).has_free_handle() ==> {
                &&& final(self).hwnd_spec().is_null()
                &&& final(os).windows_spec() == old(os).windows_spec()
                &&& final(os).calls_spec() == old(os).calls_spec().push(
                    Call::CreateWindowEx { hwnd: NULL, parent: parent.raw, ctrl_id },
                )
            },
            old(os).has_free_handle() ==> {
                let h = final(self).hwnd_spec();
                let created = old(os).calls_spec().push(Call::CreateWindowEx { hwnd: h.raw, parent: parent.raw, ctrl_id });
                &&& !h.is_null()
                &&& final(os).windows_spec() == old(os).windows_spec().push(
                    Window { hwnd: h.raw, parent: parent.raw, class_atom, ctrl_id, rect, style: styles, ex_style: ex_styles },
                )
                &&& final(os).texts_spec() == old(os).texts_spec().push(text@)
                &&& final(self).subclass_id_spec() is Some ==> {
                    &&& final(self).subclass_id_spec() == Some(old(os).next_subclass_id_spec())
                    &&& final(os).next_subclass_id_spec() == old(os).next_subclass_id_spec() + 1
                    &&& final(os).calls_spec() == created.push(
                        Call::SetWindowSubclass { hwnd: h.raw, subclass_id: old(os).next_subclass_id_spec() },
                    )
                }
                &&& final(self).subclass_id_spec() is None ==> final(os).calls_spec() == created
                &&& (final(self).subclass_id_spec() is Some <==> r is Ok && old(self).subclass_events_spec().keys().len() > 0)
            },
    {
        let h = os.create_window_ex(parent, class_atom, ctrl_id, rect, styles, ex_styles, text)?;
        self.hwnd = h;
        self.install_subclass_if_needed(os)?;
        Ok(h)
    }

    /// Attaches the control to the item `ctrl_id` of the parent dialog with
    /// `GetDlgItem`, then subclasses it if subclass events are registered.
    /// The control must not exist yet, and its parent must exist and be a
    /// dialog.
    ///
    /// Fails with `ERROR_CONTROL_ID_NOT_FOUND` where the dialog has no such
    /// item; the handle then stays null. Fails with `ERROR_NOT_ENOUGH_MEMORY`
    /// where the item was found but no subclass id is left; the handle then
    /// names the item and no subclass is installed.
    pub fn create_dlg(&mut self, os: &mut Os, parent: Hwnd, ctrl_id: u16) -> (r: Result<Hwnd, u32>)
        requires
            old(os).wf(),
            old(self).wf(),
            old(self).hwnd_spec().is_null(),
            old(self).subclass_id_spec() is None,
            !parent.is_null(),
            is_dialog_window(old(os).windows_spec(), parent.raw),
        ensures
            final(os).wf(),
            final(self).wf(),
            final(self).opts_id_spec() == old(self).opts_id_spec(),
            final(self).parent_events_spec() == old(self).parent_events_spec(),
            final(self).subclass_events_spec() == old(self).subclass_events_spec(),
            final(os).windows_spec() == old(os).windows_spec(),
            final(os).next_ctrl_id_spec() == old(os).next_ctrl_id_spec(),
            r is Ok <==> has_child(old(os).windows_spec(), parent.raw, ctrl_id) && old(self).can_install(*old(os)),
            r is Ok ==> r == Ok::<Hwnd, u32>(final(self).hwnd_spec()),
            r is Err ==> final(self).subclass_id_spec() is None,
            !has_child(old(os).windows_spec(), parent.raw, ctrl_id) ==> {
                &&& r == Err::<Hwnd, u32>(ERROR_CONTROL_ID_NOT_FOUND)
                &&& final(self).hwnd_spec().is_null()
                &&& final(os).calls_spec() == old(os).calls_spec().push(Call::GetDlgItem { parent: parent.raw, ctrl_id })
            },
            has_child(old(os).windows_spec(), parent.raw, ctrl_id) ==> {
                let h = final(self).hwnd_spec();
                let fetched = old(os).calls_spec().push(Call::GetDlgItem { parent: parent.raw, ctrl_id });
                &&& !h.is_null()
                &&& exists|i: int|
                    0 <= i < old(os).windows_spec().len() && #[trigger] old(os).windows_spec()[i].hwnd == h.raw
                        && old(os).windows_spec()[i].parent == parent.raw && old(os).windows_spec()[i].ctrl_id == ctrl_id
                &&& r is Err ==> r == Err::<Hwnd, u32>(ERROR_NOT_ENOUGH_MEMORY) && final(os).calls_spec() == fetched
                &&& final(self).subclass_id_spec() is Some ==> {
                    &&& final(self).subclass_id_spec() == Some(old(os).next_subclass_id_spec())
                    &&& final(os).next_subclass_id_spec() == old(os).next_subclass_id_spec() + 1
                    &&& final(os).calls_spec() == fetched.push(
                        Call::SetWindowSubclass { hwnd: h.raw, subclass_id: old(os).next_subclass_id_spec() },
                    )
                }
                &&& final(self).subclass_id_spec() is None ==> final(os).calls_spec() == fetched
                &&& (final(self).subclass_id_spec() is Some <==> r is Ok && old(self).subclass_events_spec().keys().len() > 0)
            },
    {
        let h = os.get_dlg_item(parent, ctrl_id)?;
        proof {
            let i = choose|i: int|
                0 <= i < old(os).windows_spec().len() && #[trigger] old(os).windows_spec()[i].hwnd == h.raw
                    && old(os).windows_spec()[i].parent == parent.raw && old(os).windows_spec()[i].ctrl_id == ctrl_id;
            os.lemma_window_handle_non_null(i);
        }
        self.hwnd = h;
        self.install_subclass_if_needed(os)?;
        Ok(h)
    }

    /// Position of the subclass handler for `w`, looked up only while the
    /// control's window exists and carries the subclass.
    pub fn subclass_lookup(&self, w: Wm, notify_code: i32) -> (r: Option<usize>)
        requires
            self.wf(),
        ensures
            self.subclass_id_spec() is None ==> r is None,
            self.subclass_id_spec() is Some ==> r == self.subclass_events_spec().find_for_spec(w, notify_code),
    {
        if self.subclass_id.is_none() || self.hwnd.is_null() {
            None
        } else {
            self.subclass_events.find_for(w, notify_code)
        }
    }

    /// The subclass dispatcher, after the handler found by
    /// [`Self::subclass_lookup`] ran and returned `ret` (`None` where none
    /// was found). On `WM_NCDESTROY` it removes the subclass it installed,
    /// whether a handler ran or not; afterwards no handler is looked up.
    pub fn subclass_proc(&mut self, os: &mut Os, w: Wm, found: Option<usize>, ret: Option<HandlerRet>) -> (r: SubclassReply)
        requires
            old(self).wf(),
            found is Some <==> ret is Some,
            found is Some ==> found->0 < old(self).subclass_events_spec().keys().len()
                && ret_fits(old(self).subclass_events_spec().replies()[found->0 as int], ret->0),
        ensures
            final(self).wf(),
            final(self).hwnd_spec() == old(self).hwnd_spec(),
            final(self).opts_id_spec() == old(self).opts_id_spec(),
            final(self).parent_events_spec() == old(self).parent_events_spec(),
            final(self).subclass_events_spec() == old(self).subclass_events_spec(),
            final(os).same_state(old(os)),
            r == subclass_reply_spec(match found {
                Some(i) => ProcessResult::HandledWithRet(
                    coerce_spec(old(self).subclass_events_spec().replies()[i as int], ret->0),
                ),
                None => ProcessResult::NotHandled,
            }),
            w.msg_id == WM_NCDESTROY && old(self).subclass_id_spec() is Some ==> {
                &&& final(os).calls_spec() == old(os).calls_spec().push(
                    Call::RemoveWindowSubclass { hwnd: old(self).hwnd_spec().raw, subclass_id: old(self).subclass_id_spec()->0 },
                )
                &&& final(self).subclass_id_spec() is None
            },
            !(w.msg_id == WM_NCDESTROY && old(self).subclass_id_spec() is Some) ==> final(os).calls_spec()
                == old(os).calls_spec() && final(self).subclass_id_spec() == old(self).subclass_id_spec(),
    {
        let processed = match found {
            Some(i) => {
                let reply = self.subclass_events.entry(i).reply;
                let word = match ret {
                    Some(v) => coerce(reply, v),
                    None => 0,
                };
                ProcessResult::HandledWithRet(word)
            },
            None => ProcessResult::NotHandled,
        };
        if w.msg_id == WM_NCDESTROY {
            if let Some(id) = self.subclass_id {
                os.remove_window_subclass(self.hwnd, id);
                self.subclass_id = None;
            }
        }
        match processed {
            ProcessResult::HandledWithRet(word) => SubclassReply::Word(word),
            ProcessResult::HandledWithoutRet => SubclassReply::Word(0),
            ProcessResult::NotHandled => SubclassReply::DefSubclassProc,
        }
    }
}

/// Once the control or its parent window exists, no event can be
/// registered on the control any more.
pub proof fn lemma_no_registration_after_creation<H, Ev, Op>(c: &NativeControlBase<H, Ev, Op>, parent: Hwnd)
    requires
        !c.hwnd_spec().is_null() || !parent.is_null(),
    ensures
        !c.can_register(parent),
{
}

} // verus!
