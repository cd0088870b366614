use vstd::prelude::*;

use crate::events::{coerce, coerce_spec, ret_fits, EventKey, Events, HandlerRet, Reply};
use crate::handle::Hwnd;
use crate::msg::{Wm, WM_CLOSE, WM_INITDIALOG};
use crate::os::{
    extends, fits_i32, has_window, window_of, Call, Os, Rect, Window, ERROR_ARITHMETIC_OVERFLOW,
    ERROR_INVALID_WINDOW_HANDLE, ERROR_NOT_ENOUGH_MEMORY, DIALOG_HEIGHT, DIALOG_WIDTH, WC_DIALOG,
};

verus! {

/// Result code of a dialog that was cancelled.
pub const DLGID_CANCEL: isize = 2;

/// Last-error code: the host ran out of messages before the dialog ended.
pub const ERROR_NO_MORE_ITEMS: u32 = 259;

/// Handlers the framework itself registers on a modal dialog, which run
/// before the user's.
#[derive(Clone, Copy, Debug, PartialEq, Eq, Structural)]
pub enum Privileged {
    /// On `WM_INITDIALOG`: centre the dialog over its owner.
    CenterInParent,
    /// On `WM_CLOSE`: end the modal loop with the cancel result.
    EndDialogCancel,
}

/// The reply of the window procedure: the user handler's reply where one
/// ran, which overrides the privileged one; else the privileged one; `None`
/// where neither ran and the message goes to the default procedure.
pub open spec fn proc_reply_spec(privileged: Option<isize>, user: Option<isize>) -> Option<isize> {
    if user is Some {
        user
    } else {
        privileged
    }
}

/// Combines the replies of the privileged and the user handler.
pub fn proc_reply(privileged: Option<isize>, user: Option<isize>) -> (r: Option<isize>)
    ensures
        r == proc_reply_spec(privileged, user),
{
    match user {
        Some(u) => Some(u),
        None => privileged,
    }
}

/// The reply of the privileged handler for a message id, if one runs.
pub open spec fn privileged_reply_spec(msg_id: u16) -> Option<isize> {
    if msg_id == WM_INITDIALOG {
        Some(1)
    } else if msg_id == WM_CLOSE {
        Some(0)
    } else {
        None
    }
}

/// Top-left corner that centres a window of rectangle `rc` over `rc_parent`.
pub open spec fn centered(rc_parent: Rect, rc: Rect) -> (int, int) {
    (
        rc_parent.left + (rc_parent.right - rc_parent.left) / 2 - (rc.right - rc.left) / 2,
        rc_parent.top + (rc_parent.bottom - rc_parent.top) / 2 - (rc.bottom - rc.top) / 2,
    )
}

/// Where centring the window `h` of `ws` over its parent puts it.
pub open spec fn center_at(ws: Seq<Window>, h: usize) -> (int, int) {
    let w = window_of(ws, h);
    centered(window_of(ws, w.parent).rect, w.rect)
}

/// Whether the window `h` of `ws` can be centred over its parent: both are
/// windows of the host and the centred rectangle fits its coordinates.
pub open spec fn center_ok(ws: Seq<Window>, h: usize) -> bool {
    let w = window_of(ws, h);
    let (x, y) = center_at(ws, h);
    &&& has_window(ws, h)
    &&& has_window(ws, w.parent)
    &&& fits_i32(x)
    &&& fits_i32(y)
    &&& fits_i32(x + (w.rect.right - w.rect.left))
    &&& fits_i32(y + (w.rect.bottom - w.rect.top))
}

/// Whether centring the window `h` of `ws` reaches the host's
/// `SetWindowPos`: both windows exist and the new corner fits the host's
/// coordinates. The call can still fail where the far edges do not.
pub open spec fn center_reaches_host(ws: Seq<Window>, h: usize) -> bool {
    let w = window_of(ws, h);
    let (x, y) = center_at(ws, h);
    &&& has_window(ws, h)
    &&& has_window(ws, w.parent)
    &&& fits_i32(x)
    &&& fits_i32(y)
}

/// The `SetWindowPos` call that centres the window `h` of `ws`.
pub open spec fn centring_call(ws: Seq<Window>, h: usize) -> Call {
    Call::SetWindowPos { hwnd: h, x: center_at(ws, h).0 as i32, y: center_at(ws, h).1 as i32 }
}

/// The host calls after `calls` once the privileged handler for `msg_id`
/// ran on the dialog `h` of the windows `ws`.
pub open spec fn after_privileged(calls: Seq<Call>, ws: Seq<Window>, h: usize, msg_id: u16) -> Seq<Call> {
    if msg_id == WM_CLOSE {
        calls.push(Call::EndDialog { hwnd: h, result: DLGID_CANCEL })
    } else if msg_id == WM_INITDIALOG && center_reaches_host(ws, h) {
        calls.push(centring_call(ws, h))
    } else {
        calls
    }
}

/// How many calls of `calls` end a modal dialog.
pub open spec fn count_end_dialogs(calls: Seq<Call>) -> nat
    decreases calls.len(),
{
    if calls.len() == 0 {
        0
    } else {
        count_end_dialogs(calls.drop_last()) + if calls.last() is EndDialog {
            1nat
        } else {
            0nat
        }
    }
}

/// Appending a call adds one to the count exactly when it ends a dialog.
pub proof fn lemma_count_end_dialogs_push(calls: Seq<Call>, c: Call)
    ensures
        count_end_dialogs(calls.push(c)) == count_end_dialogs(calls) + if c is EndDialog {
            1nat
        } else {
            0nat
        },
{
    assert(calls.push(c).drop_last() =~= calls);
}

/// One run of the dialog's procedure for `msg_id` without a user reply
/// ends the dialog once on `WM_CLOSE`, and otherwise never.
pub proof fn lemma_count_after_proc(calls: Seq<Call>, ws: Seq<Window>, h: usize, msg_id: u16, hu: usize, after: Seq<Call>)
    requires
        after == after_privileged(calls, ws, h, msg_id)
            || after == after_privileged(calls, ws, h, msg_id).push(Call::UserHandler { hwnd: hu, msg_id }),
    ensures
        count_end_dialogs(after) == count_end_dialogs(calls) + if msg_id == WM_CLOSE {
            1nat
        } else {
            0nat
        },
{
    let mid = after_privileged(calls, ws, h, msg_id);
    if msg_id == WM_CLOSE {
        lemma_count_end_dialogs_push(calls, Call::EndDialog { hwnd: h, result: DLGID_CANCEL });
    } else if msg_id == WM_INITDIALOG && center_reaches_host(ws, h) {
        lemma_count_end_dialogs_push(calls, centring_call(ws, h));
    }
    lemma_count_end_dialogs_push(mid, Call::UserHandler { hwnd: hu, msg_id });
}

/// The window the host makes for a dialog template under `parent`.
pub open spec fn dialog_window(hwnd: usize, parent: usize) -> Window {
    Window {
        hwnd,
        parent,
        class_atom: WC_DIALOG,
        ctrl_id: 0,
        rect: Rect { left: 0, top: 0, right: DIALOG_WIDTH, bottom: DIALOG_HEIGHT },
        style: 0,
        ex_style: 0,
    }
}

/// A modal dialog made from a dialog template and run by the host's modal
/// loop.
pub struct DialogModal<H> {
    hwnd: Hwnd,
    parent: Hwnd,
    dialog_id: i32,
    user: Events<H>,
    privileged: Events<Privileged>,
}

impl<H> DialogModal<H> {
    pub closed spec fn hwnd_spec(&self) -> Hwnd {
        self.hwnd
    }

    pub closed spec fn parent_spec(&self) -> Hwnd {
        self.parent
    }

    pub closed spec fn dialog_id_spec(&self) -> i32 {
        self.dialog_id
    }

    pub closed spec fn user_spec(&self) -> Events<H> {
        self.user
    }

    pub closed spec fn privileged_spec(&self) -> Events<Privileged> {
        self.privileged
    }

    /// The privileged table holds exactly the two framework handlers.
    pub open spec fn wf(&self) -> bool {
        &&& self.user_spec().wf()
        &&& self.privileged_spec().wf()
        &&& self.privileged_spec().keys() == seq![EventKey::Msg(WM_INITDIALOG), EventKey::Msg(WM_CLOSE)]
        &&& self.privileged_spec().handlers() == seq![Privileged::CenterInParent, Privileged::EndDialogCancel]
        &&& self.privileged_spec().replies() == seq![Reply::FromBool, Reply::Fixed(0)]
    }

    /// A modal dialog of template `dialog_id` owned by `parent`, not shown
    /// yet, with the framework's handlers in place and no user handler.
    pub fn new(parent: Hwnd, dialog_id: i32) -> (r: DialogModal<H>)
        ensures
            r.wf(),
            r.hwnd_spec().is_null(),
            r.parent_spec() == parent,
            r.dialog_id_spec() == dialog_id,
            r.user_spec().keys().len() == 0,
    {
        let mut dlg = DialogModal {
            hwnd: Hwnd::null(),
            parent,
            dialog_id,
            user: Events::new(),
            privileged: Events::new(),
        };
        dlg.default_message_handlers();
        dlg
    }

    /// Registers the framework's handlers: centring on `WM_INITDIALOG`, which
    /// replies true so the host sets the default focus, and ending the loop
    /// with the cancel result on `WM_CLOSE`.
    fn default_message_handlers(&mut self)
        requires
            old(self).privileged_spec().wf(),
            old(self).privileged_spec().keys().len() == 0,
            old(self).privileged_spec().handlers().len() == 0,
            old(self).privileged_spec().replies().len() == 0,
        ensures
            final(self).privileged_spec().keys() == seq![EventKey::Msg(WM_INITDIALOG), EventKey::Msg(WM_CLOSE)],
            final(self).privileged_spec().handlers() == seq![Privileged::CenterInParent, Privileged::EndDialogCancel],
            final(self).privileged_spec().replies() == seq![Reply::FromBool, Reply::Fixed(0)],
            final(self).privileged_spec().wf(),
            final(self).hwnd_spec() == old(self).hwnd_spec(),
            final(self).parent_spec() == old(self).parent_spec(),
            final(self).dialog_id_spec() == old(self).dialog_id_spec(),
            final(self).user_spec() == old(self).user_spec(),
    {
        let r1 = self.privileged.wm_init_dialog(Privileged::CenterInParent);
        proof {
            if r1 is Err {
                assert(old(self).privileged_spec().keys().contains(EventKey::Msg(WM_INITDIALOG)));
            }
        }
        let r2 = self.privileged.wm_close(Privileged::EndDialogCancel);
        proof {
            if r2 is Err {
                assert(self.privileged.keys().contains(EventKey::Msg(WM_CLOSE)));
                assert(self.privileged.keys()[0] == EventKey::Msg(WM_INITDIALOG));
            }
        }
        assert(self.privileged.keys() =~= seq![EventKey::Msg(WM_INITDIALOG), EventKey::Msg(WM_CLOSE)]);
        assert(self.privileged.handlers() =~= seq![Privileged::CenterInParent, Privileged::EndDialogCancel]);
        assert(self.privileged.replies() =~= seq![Reply::FromBool, Reply::Fixed(0)]);
    }

    /// The dialog's handle: null until it is shown.
    pub fn hwnd(&self) -> (r: Hwnd)
        ensures
            r == self.hwnd_spec(),
    {
        self.hwnd
    }

    /// The user events. Allowed only before the dialog is shown.
    pub fn on(&mut self) -> (r: &mut Events<H>)
        requires
            old(self).hwnd_spec().is_null(),
        ensures
            *r == old(self).user_spec(),
            final(self).user_spec() == *final(r),
            final(self).hwnd_spec() == old(self).hwnd_spec(),
            final(self).parent_spec() == old(self).parent_spec(),
            final(self).dialog_id_spec() == old(self).dialog_id_spec(),
            final(self).privileged_spec() == old(self).privileged_spec(),
    {
        &mut self.user
    }

    /// The framework's own handlers, which run before the user's.
    pub fn privileged_events(&self) -> (r: &Events<Privileged>)
        ensures
            *r == self.privileged_spec(),
    {
        &self.privileged
    }

    /// The user events, for reading.
    pub fn user_events(&self) -> (r: &Events<H>)
        ensures
            *r == self.user_spec(),
    {
        &self.user
    }

    /// Moves the dialog so that it stands centred over its parent window.
    /// Fails, with nothing moved, where the dialog or its parent is no window
    /// of the host, or where the centred rectangle leaves the host's
    /// coordinate range.
    fn center_in_parent(&self, os: &mut Os) -> (r: Result<(), u32>)
        requires
            old(os).wf(),
        ensures
            final(os).wf(),
            final(os).pending_spec() == old(os).pending_spec(),
            final(os).dialog_end_spec() == old(os).dialog_end_spec(),
            final(os).next_subclass_id_spec() == old(os).next_subclass_id_spec(),
            extends(final(os).calls_spec(), old(os).calls_spec()),
            r is Ok <==> center_ok(old(os).windows_spec(), self.hwnd_spec().raw),
            center_reaches_host(old(os).windows_spec(), self.hwnd_spec().raw) ==> final(os).calls_spec()
                == old(os).calls_spec().push(centring_call(old(os).windows_spec(), self.hwnd_spec().raw)),
            !center_reaches_host(old(os).windows_spec(), self.hwnd_spec().raw) ==> final(os).calls_spec()
                == old(os).calls_spec(),
            r is Err ==> r == Err::<(), u32>(ERROR_INVALID_WINDOW_HANDLE) || r == Err::<(), u32>(ERROR_ARITHMETIC_OVERFLOW),
    {
        let rc = os.get_window_rect(self.hwnd)?;
        let parent = os.get_parent(self.hwnd)?;
        let rcp = os.get_window_rect(parent)?;
        let ghost gi = choose|i: int| 0 <= i < os.windows_spec().len() && #[trigger] os.windows_spec()[i].hwnd == self.hwnd.raw
            && os.windows_spec()[i].rect == rc;
        let ghost gj = choose|i: int| 0 <= i < os.windows_spec().len() && #[trigger] os.windows_spec()[i].hwnd == parent.raw
            && os.windows_spec()[i].rect == rcp;
        proof {
            os.lemma_window_of(gi);
            os.lemma_window_of(gj);
            os.lemma_rect_wf(gi);
            os.lemma_rect_wf(gj);
        }
        let x: i64 = rcp.left as i64 + (rcp.right as i64 - rcp.left as i64) / 2 - (rc.right as i64 - rc.left as i64) / 2;
        let y: i64 = rcp.top as i64 + (rcp.bottom as i64 - rcp.top as i64) / 2 - (rc.bottom as i64 - rc.top as i64) / 2;
        if x < i32::MIN as i64 || x > i32::MAX as i64 || y < i32::MIN as i64 || y > i32::MAX as i64 {
            return Err(ERROR_ARITHMETIC_OVERFLOW);
        }
        os.set_window_pos(self.hwnd, x as i32, y as i32)
    }

    /// Position of the user handler that runs for `w`, if any.
    pub fn user_lookup(&self, w: Wm, notify_code: i32) -> (r: Option<usize>)
        requires
            self.wf(),
        ensures
            r == self.user_spec().find_for_spec(w, notify_code),
    {
        self.user.find_for(w, notify_code)
    }

    /// The dialog's procedure for a message `w`. The privileged handler runs
    /// first: on `WM_INITDIALOG` it centres the dialog and replies 1, on
    /// `WM_CLOSE` it ends the modal loop with [`DLGID_CANCEL`] and replies 0.
    /// Then the user handler found by [`Self::user_lookup`], which the host
    /// records; `user_ret` is what it returned, and its reply overrides the
    /// privileged one. `None` where the user handler was not run. Returns
    /// the reply, or `None` where the default procedure answers.
    pub fn window_proc(&mut self, os: &mut Os, w: Wm, notify_code: i32, user_ret: Option<HandlerRet>) -> (r: Option<isize>)
        requires
            old(os).wf(),
            old(self).wf(),
            user_ret is Some ==> {
                let f = old(self).user_spec().find_for_spec(w, notify_code);
                f is Some && ret_fits(old(self).user_spec().replies()[f->0 as int], user_ret->0)
            },
        ensures
            final(os).wf(),
            *final(self) == *old(self),
            final(os).pending_spec() == old(os).pending_spec(),
            extends(final(os).calls_spec(), old(os).calls_spec()),
            w.msg_id == WM_CLOSE ==> final(os).dialog_end_spec() == Some(DLGID_CANCEL),
            w.msg_id != WM_CLOSE ==> final(os).dialog_end_spec() == old(os).dialog_end_spec(),
            ({
                let mid = after_privileged(old(os).calls_spec(), old(os).windows_spec(), old(self).hwnd_spec().raw, w.msg_id);
                final(os).calls_spec() == if old(self).user_spec().find_for_spec(w, notify_code) is Some {
                    mid.push(Call::UserHandler { hwnd: old(self).hwnd_spec().raw, msg_id: w.msg_id })
                } else {
                    mid
                }
            }),
            r == proc_reply_spec(
                privileged_reply_spec(w.msg_id),
                match user_ret {
                    Some(v) => Some(coerce_spec(
                        old(self).user_spec().replies()[old(self).user_spec().find_for_spec(w, notify_code)->0 as int],
                        v,
                    )),
                    None => None,
                },
            ),
    {
        let mut privileged_reply: Option<isize> = None;
        if let Some(i) = self.privileged.find_for(w, 0) {
            proof {
                assert(self.privileged.keys()[0] == EventKey::Msg(WM_INITDIALOG));
                assert(self.privileged.keys()[1] == EventKey::Msg(WM_CLOSE));
            }
            let action = self.privileged.entry(i).handler;
            match action {
                Privileged::CenterInParent => {
                    let _ = self.center_in_parent(os);
                    privileged_reply = Some(1);
                },
                Privileged::EndDialogCancel => {
                    os.end_dialog(self.hwnd, DLGID_CANCEL);
                    privileged_reply = Some(0);
                },
            }
        }
        proof {
            if w.msg_id == WM_CLOSE {
                self.privileged.lemma_index_of(1);
            }
            if w.msg_id == WM_INITDIALOG {
                self.privileged.lemma_index_of(0);
            }
        }
        let mut user_reply: Option<isize> = None;
        if let Some(i) = self.user.find_for(w, notify_code) {
            os.note_user_handler(self.hwnd, w.msg_id);
            if let Some(v) = user_ret {
                user_reply = Some(coerce(self.user.entry(i).reply, v));
            }
        }
        proc_reply(privileged_reply, user_reply)
    }

    /// Shows the dialog with `DialogBoxParam` and runs its modal loop over
    /// the messages the host delivers, until the dialog ends; returns the
    /// result it ended with. The loop delivers `WM_INITDIALOG` first, which
    /// centres the dialog; `WM_CLOSE` ends it with [`DLGID_CANCEL`]. Fails
    /// where the host cannot make the dialog, or runs out of messages
    /// before one ends it.
    pub fn show_modal(&mut self, os: &mut Os) -> (r: Result<i32, u32>)
        requires
            old(os).wf(),
            old(self).wf(),
            old(self).hwnd_spec().is_null(),
        ensures
            final(os).wf(),
            final(self).wf(),
            final(os).calls_spec().len() > old(os).calls_spec().len(),
            final(os).calls_spec()[old(os).calls_spec().len() as int] == (Call::DialogBoxParam {
                parent: old(self).parent_spec().raw,
                dialog_id: old(self).dialog_id_spec(),
            }),
            r is Ok ==> r == Ok::<i32, u32>(DLGID_CANCEL as i32),
            r is Ok ==> final(os).dialog_end_spec() is Some && r == Ok::<i32, u32>(final(os).dialog_end_spec()->0 as i32),
            r is Ok ==> count_end_dialogs(final(os).calls_spec()) == count_end_dialogs(old(os).calls_spec()) + 1,
            r is Err ==> count_end_dialogs(final(os).calls_spec()) == count_end_dialogs(old(os).calls_spec()),
            old(os).has_free_handle() ==> !has_window(old(os).windows_spec(), final(self).hwnd_spec().raw),
            r is Err ==> r == Err::<i32, u32>(ERROR_NOT_ENOUGH_MEMORY) || r == Err::<i32, u32>(ERROR_NO_MORE_ITEMS),
            r == Err::<i32, u32>(ERROR_NO_MORE_ITEMS) ==> !old(os).pending_spec().contains(WM_CLOSE),
            r == Err::<i32, u32>(ERROR_NOT_ENOUGH_MEMORY) ==> final(self).hwnd_spec().is_null(),
            old(os).pending_spec().contains(WM_CLOSE) ==> r is Ok || final(self).hwnd_spec().is_null(),
            r == Err::<i32, u32>(ERROR_NOT_ENOUGH_MEMORY) <==> !old(os).has_free_handle(),
            !old(os).has_free_handle() ==> final(os).windows_spec() == old(os).windows_spec(),
            old(os).has_free_handle() && old(os).pending_spec().contains(WM_CLOSE) ==> r == Ok::<i32, u32>(2),
            r is Ok ==> final(os).calls_spec().contains(Call::EndDialog { hwnd: final(self).hwnd_spec().raw, result: DLGID_CANCEL }),
            old(os).has_free_handle() ==> !final(self).hwnd_spec().is_null(),
            old(os).has_free_handle() && center_reaches_host(
                old(os).windows_spec().push(dialog_window(final(self).hwnd_spec().raw, old(self).parent_spec().raw)),
                final(self).hwnd_spec().raw,
            ) ==> {
                let ws = old(os).windows_spec().push(dialog_window(final(self).hwnd_spec().raw, old(self).parent_spec().raw));
                &&& final(os).calls_spec().len() > old(os).calls_spec().len() + 1
                &&& final(os).calls_spec()[old(os).calls_spec().len() + 1int] == centring_call(ws, final(self).hwnd_spec().raw)
            },
    {
        proof {
            lemma_count_end_dialogs_push(old(os).calls_spec(), Call::DialogBoxParam {
                parent: old(self).parent_spec().raw,
                dialog_id: old(self).dialog_id_spec(),
            });
        }
        let h = os.dialog_box_param(self.parent, self.dialog_id)?;
        self.hwnd = h;
        let ghost pending0 = os.pending_spec();
        let ghost ws1 = os.windows_spec();
        let ghost c1 = os.calls_spec();
        let _ = self.window_proc(os, Wm { msg_id: WM_INITDIALOG, wparam: 0, lparam: 0 }, 0, None);
        proof {
            lemma_count_after_proc(c1, ws1, h.raw, WM_INITDIALOG, self.hwnd_spec().raw, os.calls_spec());
        }
        let ghost init_calls = os.calls_spec();
        assert(ws1 == old(os).windows_spec().push(dialog_window(h.raw, old(self).parent_spec().raw)));
        assert(c1.len() == old(os).calls_spec().len() + 1);
        let ghost mut consumed: int = 0;
        while os.dialog_end().is_none()
            invariant
                os.wf(),
                self.wf(),
                !self.hwnd_spec().is_null(),
                self.parent_spec() == old(self).parent_spec(),
                self.dialog_id_spec() == old(self).dialog_id_spec(),
                pending0 == old(os).pending_spec(),
                0 <= consumed <= pending0.len(),
                os.pending_spec() == pending0.subrange(consumed, pending0.len() as int),
                os.dialog_end_spec() is Some ==> os.dialog_end_spec() == Some(DLGID_CANCEL),
                os.dialog_end_spec() is Some ==> os.calls_spec().contains(
                    Call::EndDialog { hwnd: self.hwnd_spec().raw, result: DLGID_CANCEL },
                ),
                self.hwnd_spec() == h,
                old(os).has_free_handle(),
                extends(os.calls_spec(), init_calls),
                ws1 == old(os).windows_spec().push(dialog_window(h.raw, old(self).parent_spec().raw)),
                c1.len() == old(os).calls_spec().len() + 1,
                center_reaches_host(ws1, h.raw) ==> init_calls.len() > c1.len() && init_calls[c1.len() as int] == centring_call(ws1, h.raw),
                !has_window(old(os).windows_spec(), h.raw),
                count_end_dialogs(os.calls_spec()) == count_end_dialogs(old(os).calls_spec()) + if os.dialog_end_spec() is Some {
                    1nat
                } else {
                    0nat
                },
                os.dialog_end_spec() is None ==> forall|k: int| 0 <= k < consumed ==> pending0[k] != WM_CLOSE,
                extends(os.calls_spec(), old(os).calls_spec().push(Call::DialogBoxParam {
                    parent: old(self).parent_spec().raw,
                    dialog_id: old(self).dialog_id_spec(),
                })),
                os.calls_spec()[old(os).calls_spec().len() as int] == (Call::DialogBoxParam {
                    parent: old(self).parent_spec().raw,
                    dialog_id: old(self).dialog_id_spec(),
                }),
            decreases os.pending_spec().len(),
        {
            match os.next_pending() {
                Some(id) => {
                    proof {
                        consumed = consumed + 1;
                        assert(os.pending_spec() =~= pending0.subrange(consumed, pending0.len() as int));
                    }
                    let ghost before = os.calls_spec();
                    let ghost ws_before = os.windows_spec();
                    let _ = self.window_proc(os, Wm { msg_id: id, wparam: 0, lparam: 0 }, 0, None);
                    proof {
                        lemma_count_after_proc(before, ws_before, self.hwnd_spec().raw, id, self.hwnd_spec().raw, os.calls_spec());
                        if id == WM_CLOSE {
                            assert(os.calls_spec()[before.len() as int] == (Call::EndDialog {
                                hwnd: self.hwnd_spec().raw,
                                result: DLGID_CANCEL,
                            }));
                        } else if os.dialog_end_spec() is Some {
                            let k = choose|k: int| 0 <= k < before.len() && before[k] == (Call::EndDialog {
                                hwnd: self.hwnd_spec().raw,
                                result: DLGID_CANCEL,
                            });
                            assert(os.calls_spec()[k] == before[k]);
                        }
                    }
                },
                None => {
                    proof {
                        assert(consumed == pending0.len());
                        let dbp = Call::DialogBoxParam {
                            parent: old(self).parent_spec().raw,
                            dialog_id: old(self).dialog_id_spec(),
                        };
                        assert(old(os).calls_spec().push(dbp)[old(os).calls_spec().len() as int] == dbp);
                        assert(os.calls_spec()[old(os).calls_spec().len() as int] == dbp);
                        assert forall|k: int| 0 <= k < pending0.len() implies pending0[k] != WM_CLOSE by {}
                        if center_reaches_host(ws1, h.raw) {
                            assert(os.calls_spec()[c1.len() as int] == init_calls[c1.len() as int]);
                        }
                    }
                    return Err(ERROR_NO_MORE_ITEMS);
                },
            }
        }
        proof {
            if center_reaches_host(ws1, h.raw) {
                assert(os.calls_spec()[c1.len() as int] == init_calls[c1.len() as int]);
            }
        }
        match os.dialog_end() {
            Some(result) => Ok(result as i32),
            None => Err(ERROR_NO_MORE_ITEMS),
        }
    }
}

} // verus!
