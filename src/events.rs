use vstd::prelude::*;

use crate::msg::{
    hi_half, lo_half, Wm, WM_ACTIVATE, WM_ACTIVATEAPP, WM_CLOSE, WM_COMMAND, WM_CREATE, WM_CTLCOLORBTN,
    WM_CTLCOLORDLG, WM_CTLCOLOREDIT, WM_CTLCOLORLISTBOX, WM_CTLCOLORSCROLLBAR, WM_CTLCOLORSTATIC,
    WM_DESTROY, WM_DROPFILES, WM_INITDIALOG, WM_INITMENUPOPUP, WM_NCDESTROY, WM_NOTIFY, WM_NULL,
    WM_SIZE, WM_SIZING,
};

verus! {

/// What a handler is registered for: a message id, or a command or
/// notification of one child control, which the parent receives.
#[allow(inconsistent_fields)]
#[derive(Clone, Copy, Debug, PartialEq, Eq, Structural)]
pub enum EventKey {
    Msg(u16),
    Command { ctrl_id: u16, code: u16 },
    Notify { ctrl_id: u16, code: i32 },
}

/// How a handler's return becomes the reply word.
#[derive(Clone, Copy, Debug, PartialEq, Eq, Structural)]
pub enum Reply {
    /// The handler returns nothing; the reply is this constant.
    Fixed(isize),
    /// The handler returns a flag: 1 for true, 0 for false.
    FromBool,
    /// The handler returns a 32-bit integer, sign-extended.
    FromI32,
    /// The handler returns a handle; the reply is its raw value.
    FromHandle,
    /// The handler returns the reply word itself.
    Raw,
}

/// What a handler returned.
#[derive(Clone, Copy, Debug, PartialEq, Eq, Structural)]
pub enum HandlerRet {
    Unit,
    Bool(bool),
    I32(i32),
    Handle(usize),
    Word(isize),
}

/// Outcome of running an event table on a message.
#[derive(Clone, Copy, Debug, PartialEq, Eq, Structural)]
pub enum ProcessResult {
    HandledWithRet(isize),
    HandledWithoutRet,
    NotHandled,
}

/// Why a registration was refused.
#[derive(Clone, Copy, Debug, PartialEq, Eq, Structural)]
pub enum EventError {
    /// The table already holds a handler for the key.
    Duplicate,
}

/// Whether a handler's return has the shape a reply convention expects.
pub open spec fn ret_fits(reply: Reply, ret: HandlerRet) -> bool {
    match reply {
        Reply::Fixed(_) => ret is Unit,
        Reply::FromBool => ret is Bool,
        Reply::FromI32 => ret is I32,
        Reply::FromHandle => ret is Handle,
        Reply::Raw => ret is Word,
    }
}

/// The signed word holding the same bits as a raw handle value.
pub open spec fn handle_word(h: usize) -> isize {
    if h <= isize::MAX {
        h as isize
    } else {
        (h - usize::MAX - 1) as isize
    }
}

/// The reply word for a handler's return under a convention.
pub open spec fn coerce_spec(reply: Reply, ret: HandlerRet) -> isize {
    match (reply, ret) {
        (Reply::Fixed(k), _) => k,
        (Reply::FromBool, HandlerRet::Bool(b)) => if b { 1 } else { 0 },
        (Reply::FromI32, HandlerRet::I32(i)) => i as isize,
        (Reply::FromHandle, HandlerRet::Handle(h)) => handle_word(h),
        (Reply::Raw, HandlerRet::Word(w)) => w,
        _ => 0,
    }
}

/// Converts a handler's return to the reply word.
pub fn coerce(reply: Reply, ret: HandlerRet) -> (r: isize)
    requires
        ret_fits(reply, ret),
    ensures
        r == coerce_spec(reply, ret),
{
    match (reply, ret) {
        (Reply::Fixed(k), _) => k,
        (Reply::FromBool, HandlerRet::Bool(b)) => if b { 1 } else { 0 },
        (Reply::FromI32, HandlerRet::I32(i)) => i as isize,
        (Reply::FromHandle, HandlerRet::Handle(h)) => {
            if h <= isize::MAX as usize {
                h as isize
            } else {
                ((h - isize::MAX as usize - 1) as isize) + isize::MIN
            }
        },
        (Reply::Raw, HandlerRet::Word(w)) => w,
        _ => 0,
    }
}

/// One registered handler.
pub struct Entry<H> {
    pub key: EventKey,
    pub reply: Reply,
    pub handler: H,
}

/// A table from event keys to handlers. Keys are unique.
pub struct Events<H> {
    entries: Vec<Entry<H>>,
}

/// The key that a triple is looked up under first: the command or
/// notification of its control where it is one, else its message id.
pub open spec fn specific_key(w: Wm, notify_code: i32) -> EventKey {
    if w.msg_id == WM_COMMAND {
        EventKey::Command { ctrl_id: lo_half(w.wparam as int), code: hi_half(w.wparam as int) }
    } else if w.msg_id == WM_NOTIFY {
        EventKey::Notify { ctrl_id: lo_half(w.wparam as int), code: notify_code }
    } else {
        EventKey::Msg(w.msg_id)
    }
}

impl<H> Events<H> {
    /// The keys, in order of registration.
    pub closed spec fn keys(&self) -> Seq<EventKey> {
        self.entries@.map_values(|e: Entry<H>| e.key)
    }

    /// The reply convention registered with each key, in the same order.
    pub closed spec fn replies(&self) -> Seq<Reply> {
        self.entries@.map_values(|e: Entry<H>| e.reply)
    }

    /// The handlers, in the same order.
    pub closed spec fn handlers(&self) -> Seq<H> {
        self.entries@.map_values(|e: Entry<H>| e.handler)
    }

    pub open spec fn has_key(&self, key: EventKey) -> bool {
        self.keys().contains(key)
    }

    /// No key occurs twice, and each key has one reply convention and one
    /// handler.
    pub open spec fn wf(&self) -> bool {
        &&& self.keys().no_duplicates()
        &&& self.replies().len() == self.keys().len()
        &&& self.handlers().len() == self.keys().len()
    }

    /// An empty table.
    pub fn new() -> (r: Events<H>)
        ensures
            r.wf(),
            r.keys() == Seq::<EventKey>::empty(),
            r.replies() == Seq::<Reply>::empty(),
            r.handlers() == Seq::<H>::empty(),
    {
        let r = Events { entries: Vec::new() };
        assert(r.keys() =~= Seq::<EventKey>::empty());
        assert(r.replies() =~= Seq::<Reply>::empty());
        assert(r.handlers() =~= Seq::<H>::empty());
        r
    }

    /// Number of handlers.
    pub fn len(&self) -> (r: usize)
        ensures
            r == self.keys().len(),
    {
        self.entries.len()
    }

    /// Whether the table holds no handler.
    pub fn is_empty(&self) -> (r: bool)
        ensures
            r == (self.keys().len() == 0),
    {
        self.entries.len() == 0
    }

    /// Position of the handler for `key`, if there is one.
    pub fn find(&self, key: EventKey) -> (r: Option<usize>)
        ensures
            match r {
                Some(i) => i < self.keys().len() && self.keys()[i as int] == key,
                None => !self.has_key(key),
            },
    {
        let mut i: usize = 0;
        while i < self.entries.len()
            invariant
                i <= self.entries@.len(),
                forall|j: int| 0 <= j < i ==> self.keys()[j] != key,
            decreases self.entries@.len() - i,
        {
            if self.entries[i].key == key {
                return Some(i);
            }
            i = i + 1;
        }
        None
    }

    /// The handler at position `i` and its reply convention.
    pub fn entry(&self, i: usize) -> (r: &Entry<H>)
        requires
            i < self.keys().len(),
        ensures
            r.key == self.keys()[i as int],
            r.reply == self.replies()[i as int],
            r.handler == self.handlers()[i as int],
    {
        &self.entries[i]
    }

    /// Registers `handler` for `key` with a reply convention. A key that is
    /// already registered is refused and the table is left as it was.
    pub fn insert(&mut self, key: EventKey, reply: Reply, handler: H) -> (r: Result<(), EventError>)
        requires
            old(self).wf(),
        ensures
            final(self).wf(),
            r is Err <==> old(self).has_key(key),
            r is Err ==> r == Err::<(), EventError>(EventError::Duplicate)
                && final(self).keys() == old(self).keys()
                && final(self).replies() == old(self).replies()
                && final(self).handlers() == old(self).handlers(),
            r is Ok ==> final(self).keys() == old(self).keys().push(key)
                && final(self).replies() == old(self).replies().push(reply)
                && final(self).handlers() == old(self).handlers().push(handler),
    {
        match self.find(key) {
            Some(_) => Err(EventError::Duplicate),
            None => {
                self.entries.push(Entry { key, reply, handler });
                assert(self.keys() =~= old(self).keys().push(key));
                assert(self.replies() =~= old(self).replies().push(reply));
                assert(self.handlers() =~= old(self).handlers().push(handler));
                assert(self.keys().no_duplicates()) by {
                    assert(forall|j: int| 0 <= j < old(self).keys().len() ==> old(self).keys()[j] != key);
                }
                Ok(())
            },
        }
    }

    /// In a table without duplicate keys, a key's position is the one where
    /// it stands.
    pub proof fn lemma_index_of(&self, i: int)
        requires
            self.wf(),
            0 <= i < self.keys().len(),
        ensures
            self.has_key(self.keys()[i]),
            self.keys().index_of(self.keys()[i]) == i,
    {
        let k = self.keys()[i];
        assert(self.keys().contains(k));
        let j = self.keys().index_of(k);
        assert(0 <= j < self.keys().len() && self.keys()[j] == k);
    }

    /// The position [`Self::find_for`] gives for `w`.
    pub open spec fn find_for_spec(&self, w: Wm, notify_code: i32) -> Option<usize> {
        let k = specific_key(w, notify_code);
        if self.has_key(k) {
            Some(self.keys().index_of(k) as usize)
        } else if self.has_key(EventKey::Msg(w.msg_id)) {
            Some(self.keys().index_of(EventKey::Msg(w.msg_id)) as usize)
        } else {
            None
        }
    }

    /// Position of the handler that runs for the triple `w`: the one for its
    /// control's command or notification (with `notify_code` read from the
    /// notification header) if registered, else the one for its message id.
    pub fn find_for(&self, w: Wm, notify_code: i32) -> (r: Option<usize>)
        requires
            self.wf(),
        ensures
            r == self.find_for_spec(w, notify_code),
            match r {
                Some(i) => i < self.keys().len() && (self.keys()[i as int] == specific_key(w, notify_code)
                    || (!self.has_key(specific_key(w, notify_code)) && self.keys()[i as int] == EventKey::Msg(w.msg_id))),
                None => !self.has_key(specific_key(w, notify_code)) && !self.has_key(EventKey::Msg(w.msg_id)),
            },
    {
        let key = if w.msg_id == WM_COMMAND {
            let ctrl_id = (w.wparam % 65536) as u16;
            let code = ((w.wparam / 65536) % 65536) as u16;
            EventKey::Command { ctrl_id, code }
        } else if w.msg_id == WM_NOTIFY {
            EventKey::Notify { ctrl_id: (w.wparam % 65536) as u16, code: notify_code }
        } else {
            EventKey::Msg(w.msg_id)
        };
        match self.find(key) {
            Some(i) => {
                proof { self.lemma_index_of(i as int); }
                Some(i)
            },
            None => {
                let r = self.find(EventKey::Msg(w.msg_id));
                proof {
                    if r is Some {
                        self.lemma_index_of(r->0 as int);
                    }
                }
                r
            },
        }
    }

    /// Removes every handler, handing them back in order of registration.
    pub fn drain(&mut self) -> (r: Vec<Entry<H>>)
        ensures
            final(self).wf(),
            final(self).keys().len() == 0,
            r@.map_values(|e: Entry<H>| e.key) == old(self).keys(),
    {
        let mut out: Vec<Entry<H>> = Vec::new();
        std::mem::swap(&mut out, &mut self.entries);
        assert(self.keys() =~= Seq::<EventKey>::empty());
        out
    }

    /// The outcome of `insert(key, reply, handler)` from `self` to `after`.
    pub open spec fn registered(&self, after: &Events<H>, r: Result<(), EventError>, key: EventKey, reply: Reply, handler: H) -> bool {
        &&& after.wf()
        &&& (r is Err <==> self.has_key(key))
        &&& r is Err ==> r == Err::<(), EventError>(EventError::Duplicate) && after.keys() == self.keys()
            && after.replies() == self.replies() && after.handlers() == self.handlers()
        &&& r is Ok ==> after.keys() == self.keys().push(key) && after.replies() == self.replies().push(reply)
            && after.handlers() == self.handlers().push(handler)
    }

    /// Registers an untyped handler for any message id: it takes the raw
    /// triple and its return is the reply word.
    pub fn wm(&mut self, msg_id: u16, handler: H) -> (r: Result<(), EventError>)
        requires
            old(self).wf(),
        ensures
            old(self).registered(final(self), r, EventKey::Msg(msg_id), Reply::Raw, handler),
    {
        self.insert(EventKey::Msg(msg_id), Reply::Raw, handler)
    }

    /// Registers a handler for a command that child control `ctrl_id` sends
    /// its parent with notification code `code`; it replies 0.
    pub fn cmd(&mut self, ctrl_id: u16, code: u16, handler: H) -> (r: Result<(), EventError>)
        requires
            old(self).wf(),
        ensures
            old(self).registered(final(self), r, EventKey::Command { ctrl_id, code }, Reply::Fixed(0), handler),
    {
        self.insert(EventKey::Command { ctrl_id, code }, Reply::Fixed(0), handler)
    }

    /// Registers a handler for a notification that child control `ctrl_id`
    /// sends its parent with code `code`; it replies with the handler's word.
    pub fn nfy(&mut self, ctrl_id: u16, code: i32, handler: H) -> (r: Result<(), EventError>)
        requires
            old(self).wf(),
        ensures
            old(self).registered(final(self), r, EventKey::Notify { ctrl_id, code }, Reply::Raw, handler),
    {
        self.insert(EventKey::Notify { ctrl_id, code }, Reply::Raw, handler)
    }

    /// Registers a handler for `WM_ACTIVATE`; the framework replies 0.
    pub fn wm_activate(&mut self, handler: H) -> (r: Result<(), EventError>)
        requires
            old(self).wf(),
        ensures
            old(self).registered(final(self), r, EventKey::Msg(WM_ACTIVATE), Reply::Fixed(0), handler),
    {
        self.insert(EventKey::Msg(WM_ACTIVATE), Reply::Fixed(0), handler)
    }

    /// Registers a handler for `WM_ACTIVATEAPP`; the framework replies 0.
    pub fn wm_activate_app(&mut self, handler: H) -> (r: Result<(), EventError>)
        requires
            old(self).wf(),
        ensures
            old(self).registered(final(self), r, EventKey::Msg(WM_ACTIVATEAPP), Reply::Fixed(0), handler),
    {
        self.insert(EventKey::Msg(WM_ACTIVATEAPP), Reply::Fixed(0), handler)
    }

    /// Registers a handler for `WM_CLOSE`; the framework replies 0.
    pub fn wm_close(&mut self, handler: H) -> (r: Result<(), EventError>)
        requires
            old(self).wf(),
        ensures
            old(self).registered(final(self), r, EventKey::Msg(WM_CLOSE), Reply::Fixed(0), handler),
    {
        self.insert(EventKey::Msg(WM_CLOSE), Reply::Fixed(0), handler)
    }

    /// Registers a handler for `WM_COMMAND`; the framework replies 0.
    pub fn wm_command(&mut self, handler: H) -> (r: Result<(), EventError>)
        requires
            old(self).wf(),
        ensures
            old(self).registered(final(self), r, EventKey::Msg(WM_COMMAND), Reply::Fixed(0), handler),
    {
        self.insert(EventKey::Msg(WM_COMMAND), Reply::Fixed(0), handler)
    }

    /// Registers a handler for `WM_CREATE`; the framework replies with the handler's integer.
    pub fn wm_create(&mut self, handler: H) -> (r: Result<(), EventError>)
        requires
            old(self).wf(),
        ensures
            old(self).registered(final(self), r, EventKey::Msg(WM_CREATE), Reply::FromI32, handler),
    {
        self.insert(EventKey::Msg(WM_CREATE), Reply::FromI32, handler)
    }

    /// Registers a handler for `WM_CTLCOLORBTN`; the framework replies with the raw value of the handler's handle.
    pub fn wm_ctl_color_btn(&mut self, handler: H) -> (r: Result<(), EventError>)
        requires
            old(self).wf(),
        ensures
            old(self).registered(final(self), r, EventKey::Msg(WM_CTLCOLORBTN), Reply::FromHandle, handler),
    {
        self.insert(EventKey::Msg(WM_CTLCOLORBTN), Reply::FromHandle, handler)
    }

    /// Registers a handler for `WM_CTLCOLORDLG`; the framework replies with the raw value of the handler's handle.
    pub fn wm_ctl_color_dlg(&mut self, handler: H) -> (r: Result<(), EventError>)
        requires
            old(self).wf(),
        ensures
            old(self).registered(final(self), r, EventKey::Msg(WM_CTLCOLORDLG), Reply::FromHandle, handler),
    {
        self.insert(EventKey::Msg(WM_CTLCOLORDLG), Reply::FromHandle, handler)
    }

    /// Registers a handler for `WM_CTLCOLOREDIT`; the framework replies with the raw value of the handler's handle.
    pub fn wm_ctl_color_edit(&mut self, handler: H) -> (r: Result<(), EventError>)
        requires
            old(self).wf(),
        ensures
            old(self).registered(final(self), r, EventKey::Msg(WM_CTLCOLOREDIT), Reply::FromHandle, handler),
    {
        self.insert(EventKey::Msg(WM_CTLCOLOREDIT), Reply::FromHandle, handler)
    }

    /// Registers a handler for `WM_CTLCOLORLISTBOX`; the framework replies with the raw value of the handler's handle.
    pub fn wm_ctl_color_list_box(&mut self, handler: H) -> (r: Result<(), EventError>)
        requires
            old(self).wf(),
        ensures
            old(self).registered(final(self), r, EventKey::Msg(WM_CTLCOLORLISTBOX), Reply::FromHandle, handler),
    {
        self.insert(EventKey::Msg(WM_CTLCOLORLISTBOX), Reply::FromHandle, handler)
    }

    /// Registers a handler for `WM_CTLCOLORSCROLLBAR`; the framework replies with the raw value of the handler's handle.
    pub fn wm_ctl_color_scroll_bar(&mut self, handler: H) -> (r: Result<(), EventError>)
        requires
            old(self).wf(),
        ensures
            old(self).registered(final(self), r, EventKey::Msg(WM_CTLCOLORSCROLLBAR), Reply::FromHandle, handler),
    {
        self.insert(EventKey::Msg(WM_CTLCOLORSCROLLBAR), Reply::FromHandle, handler)
    }

    /// Registers a handler for `WM_CTLCOLORSTATIC`; the framework replies with the raw value of the handler's handle.
    pub fn wm_ctl_color_static(&mut self, handler: H) -> (r: Result<(), EventError>)
        requires
            old(self).wf(),
        ensures
            old(self).registered(final(self), r, EventKey::Msg(WM_CTLCOLORSTATIC), Reply::FromHandle, handler),
    {
        self.insert(EventKey::Msg(WM_CTLCOLORSTATIC), Reply::FromHandle, handler)
    }

    /// Registers a handler for `WM_DESTROY`; the framework replies 0.
    pub fn wm_destroy(&mut self, handler: H) -> (r: Result<(), EventError>)
        requires
            old(self).wf(),
        ensures
            old(self).registered(final(self), r, EventKey::Msg(WM_DESTROY), Reply::Fixed(0), handler),
    {
        self.insert(EventKey::Msg(WM_DESTROY), Reply::Fixed(0), handler)
    }

    /// Registers a handler for `WM_DROPFILES`; the framework replies 0.
    pub fn wm_drop_files(&mut self, handler: H) -> (r: Result<(), EventError>)
        requires
            old(self).wf(),
        ensures
            old(self).registered(final(self), r, EventKey::Msg(WM_DROPFILES), Reply::Fixed(0), handler),
    {
        self.insert(EventKey::Msg(WM_DROPFILES), Reply::Fixed(0), handler)
    }

    /// Registers a handler for `WM_INITDIALOG`; the framework replies 1 or 0 for the handler's flag.
    pub fn wm_init_dialog(&mut self, handler: H) -> (r: Result<(), EventError>)
        requires
            old(self).wf(),
        ensures
            old(self).registered(final(self), r, EventKey::Msg(WM_INITDIALOG), Reply::FromBool, handler),
    {
        self.insert(EventKey::Msg(WM_INITDIALOG), Reply::FromBool, handler)
    }

    /// Registers a handler for `WM_INITMENUPOPUP`; the framework replies 0.
    pub fn wm_init_menu_popup(&mut self, handler: H) -> (r: Result<(), EventError>)
        requires
            old(self).wf(),
        ensures
            old(self).registered(final(self), r, EventKey::Msg(WM_INITMENUPOPUP), Reply::Fixed(0), handler),
    {
        self.insert(EventKey::Msg(WM_INITMENUPOPUP), Reply::Fixed(0), handler)
    }

    /// Registers a handler for `WM_NOTIFY`; the framework replies with the handler's word.
    pub fn wm_notify(&mut self, handler: H) -> (r: Result<(), EventError>)
        requires
            old(self).wf(),
        ensures
            old(self).registered(final(self), r, EventKey::Msg(WM_NOTIFY), Reply::Raw, handler),
    {
        self.insert(EventKey::Msg(WM_NOTIFY), Reply::Raw, handler)
    }

    /// Registers a handler for `WM_NULL`; the framework replies 0.
    pub fn wm_null(&mut self, handler: H) -> (r: Result<(), EventError>)
        requires
            old(self).wf(),
        ensures
            old(self).registered(final(self), r, EventKey::Msg(WM_NULL), Reply::Fixed(0), handler),
    {
        self.insert(EventKey::Msg(WM_NULL), Reply::Fixed(0), handler)
    }

    /// Registers a handler for `WM_SIZE`; the framework replies 0.
    pub fn wm_size(&mut self, handler: H) -> (r: Result<(), EventError>)
        requires
            old(self).wf(),
        ensures
            old(self).registered(final(self), r, EventKey::Msg(WM_SIZE), Reply::Fixed(0), handler),
    {
        self.insert(EventKey::Msg(WM_SIZE), Reply::Fixed(0), handler)
    }

    /// Registers a handler for `WM_SIZING`; the framework replies 1.
    pub fn wm_sizing(&mut self, handler: H) -> (r: Result<(), EventError>)
        requires
            old(self).wf(),
        ensures
            old(self).registered(final(self), r, EventKey::Msg(WM_SIZING), Reply::Fixed(1), handler),
    {
        self.insert(EventKey::Msg(WM_SIZING), Reply::Fixed(1), handler)
    }

    /// Registers a handler for `WM_NCDESTROY`; the framework replies 0.
    pub fn wm_nc_destroy(&mut self, handler: H) -> (r: Result<(), EventError>)
        requires
            old(self).wf(),
        ensures
            old(self).registered(final(self), r, EventKey::Msg(WM_NCDESTROY), Reply::Fixed(0), handler),
    {
        self.insert(EventKey::Msg(WM_NCDESTROY), Reply::Fixed(0), handler)
    }
}

/// After a handler was registered for a key, a second registration for the
/// same key on that table is refused.
pub proof fn lemma_second_registration_refused<H>(before: &Events<H>, after: &Events<H>, key: EventKey, reply: Reply, handler: H)
    requires
        before.registered(after, Ok(()), key, reply, handler),
    ensures
        after.has_key(key),
{
    assert(after.keys()[before.keys().len() as int] == key);
}

} // verus!
