use vstd::prelude::*;

use crate::handle::{Hwnd, NULL};

verus! {

/// Last-error code: not enough memory to create another window.
pub const ERROR_NOT_ENOUGH_MEMORY: u32 = 8;
/// Last-error code: the window handle names no window.
pub const ERROR_INVALID_WINDOW_HANDLE: u32 = 1400;
/// Last-error code: no child of the window has the control id.
pub const ERROR_CONTROL_ID_NOT_FOUND: u32 = 1421;
/// Last-error code: a coordinate does not fit in the host's range.
pub const ERROR_ARITHMETIC_OVERFLOW: u32 = 534;

/// Class atom of the dialog window class.
pub const WC_DIALOG: u16 = 0x8002;
/// Class atom of the edit control class.
pub const WC_EDIT: u16 = 0xC0A1;

/// Handle of the font the host uses for its user interface.
pub const UI_FONT: usize = 0x0A0F;

/// First control id that automatic assignment hands out.
pub const FIRST_AUTO_CTRL_ID: u16 = 20000;

/// Width the host gives to a dialog made from a template.
pub const DIALOG_WIDTH: i32 = 200;
/// Height the host gives to a dialog made from a template.
pub const DIALOG_HEIGHT: i32 = 100;

/// First raw value that the host gives to a window handle.
pub const FIRST_HANDLE: usize = 0x1000;

/// A rectangle in screen coordinates.
#[derive(Clone, Copy, Debug, PartialEq, Eq, Structural)]
pub struct Rect {
    pub left: i32,
    pub top: i32,
    pub right: i32,
    pub bottom: i32,
}

/// What the host knows of one window.
#[derive(Clone, Copy, Debug, PartialEq, Eq, Structural)]
pub struct Window {
    pub hwnd: usize,
    pub parent: usize,
    pub class_atom: u16,
    pub ctrl_id: u16,
    pub rect: Rect,
    pub style: u32,
    pub ex_style: u32,
}

/// One call that the framework made into the host, as the host records it.
#[derive(Clone, Copy, Debug, PartialEq, Eq, Structural)]
pub enum Call {
    CreateWindowEx { hwnd: usize, parent: usize, ctrl_id: u16 },
    GetDlgItem { parent: usize, ctrl_id: u16 },
    SetWindowSubclass { hwnd: usize, subclass_id: u64 },
    RemoveWindowSubclass { hwnd: usize, subclass_id: u64 },
    DialogBoxParam { parent: usize, dialog_id: i32 },
    EndDialog { hwnd: usize, result: isize },
    SetWindowPos { hwnd: usize, x: i32, y: i32 },
    UserHandler { hwnd: usize, msg_id: u16 },
    RegCloseKey { hkey: usize },
    QueryInterface { obj: usize, iid: u128 },
    Release { obj: usize },
    Com { obj: usize, method: ComMethod },
    SendMessage { hwnd: usize, msg_id: u16, wparam: usize, lparam: isize },
}

/// A method of a COM interface, or an HRESULT-returning function on a
/// window, with the arguments the host received.
#[derive(Clone, Copy, Debug, PartialEq, Eq, Structural)]
pub enum ComMethod {
    MarkFullscreenWindow { hwnd: usize, fullscreen: bool },
    SetPrivateDataInterface { iid: u128, interface: usize },
    GetCount,
    GetItemAt { index: u32 },
    DwmExtendFrameIntoClientArea { left: i32, right: i32, top: i32, bottom: i32 },
    DwmInvalidateIconicBitmaps,
    DwmSetIconicLivePreviewBitmap { hbmp: usize, client_x: i32, client_y: i32, has_point: bool, flags: u32 },
    DwmSetIconicThumbnail { hbmp: usize, flags: u32 },
}

/// The HRESULT of success.
pub const S_OK: u32 = 0;
/// HRESULT of an argument out of range.
pub const E_INVALIDARG: u32 = 0x8007_0057;
/// HRESULT of an allocation that failed.
pub const E_OUTOFMEMORY: u32 = 0x8007_000E;

/// A simulated windowing host: the windows that exist, every call made into
/// it, and the process-wide counters that the framework draws ids from.
pub struct Os {
    calls: Vec<Call>,
    windows: Vec<Window>,
    next_handle: usize,
    next_subclass_id: u64,
    next_ctrl_id: u16,
    pending: Vec<u16>,
    dialog_end: Option<isize>,
    com_failure: Option<u32>,
    item_arrays: Vec<(usize, u32)>,
    texts: Vec<String>,
}

/// Whether some window of `ws` has the raw handle `h`.
pub open spec fn has_window(ws: Seq<Window>, h: usize) -> bool {
    exists|i: int| 0 <= i < ws.len() && ws[i].hwnd == h
}

/// `r` moved to `(x, y)` with its size kept.
pub open spec fn moved(r: Rect, x: i32, y: i32) -> Rect {
    Rect {
        left: x,
        top: y,
        right: (x + (r.right - r.left)) as i32,
        bottom: (y + (r.bottom - r.top)) as i32,
    }
}

/// `after` starts with the calls of `before`.
pub open spec fn extends(after: Seq<Call>, before: Seq<Call>) -> bool {
    &&& before.len() <= after.len()
    &&& forall|k: int| 0 <= k < before.len() ==> after[k] == before[k]
}

/// Whether some window of `ws` is a child of `parent` with control id `ctrl_id`.
pub open spec fn has_child(ws: Seq<Window>, parent: usize, ctrl_id: u16) -> bool {
    exists|i: int| 0 <= i < ws.len() && #[trigger] ws[i].parent == parent && ws[i].ctrl_id == ctrl_id
}

/// The window of `ws` with handle `h`; in a well-formed host there is at
/// most one.
pub open spec fn window_of(ws: Seq<Window>, h: usize) -> Window {
    ws[choose|i: int| 0 <= i < ws.len() && ws[i].hwnd == h]
}

/// Whether a value fits a 32-bit signed coordinate.
pub open spec fn fits_i32(v: int) -> bool {
    i32::MIN <= v <= i32::MAX
}

/// Item count of the shell item array `obj` of `arrays`, if the host made
/// one; in a well-formed host there is at most one.
pub open spec fn array_count(arrays: Seq<(usize, u32)>, obj: usize) -> Option<u32> {
    if exists|i: int| 0 <= i < arrays.len() && #[trigger] arrays[i].0 == obj {
        Some(arrays[choose|i: int| 0 <= i < arrays.len() && #[trigger] arrays[i].0 == obj].1)
    } else {
        None
    }
}

/// A rectangle whose right and bottom edges are not before its left and top.
pub open spec fn rect_wf(r: Rect) -> bool {
    r.left <= r.right && r.top <= r.bottom
}

/// Whether `h` names a window of the dialog class in `ws`.
pub open spec fn is_dialog_window(ws: Seq<Window>, h: usize) -> bool {
    exists|i: int| 0 <= i < ws.len() && ws[i].hwnd == h && ws[i].class_atom == WC_DIALOG
}

/// The automatic control id handed out after `id`.
pub open spec fn next_auto_ctrl_id(id: u16) -> u16 {
    if id == u16::MAX { FIRST_AUTO_CTRL_ID } else { (id + 1) as u16 }
}

impl Os {
    pub closed spec fn calls_spec(&self) -> Seq<Call> {
        self.calls@
    }

    pub closed spec fn windows_spec(&self) -> Seq<Window> {
        self.windows@
    }

    /// The subclass id that the next installation receives.
    pub closed spec fn next_subclass_id_spec(&self) -> u64 {
        self.next_subclass_id
    }

    /// The control id that the next automatic assignment receives.
    pub closed spec fn next_ctrl_id_spec(&self) -> u16 {
        self.next_ctrl_id
    }

    /// Messages the host will deliver to the next modal dialog, in order.
    pub closed spec fn pending_spec(&self) -> Seq<u16> {
        self.pending@
    }

    /// The result that `EndDialog` set for the running modal loop, if any.
    pub closed spec fn dialog_end_spec(&self) -> Option<isize> {
        self.dialog_end
    }

    /// The failure the next interface call answers with, if one was set.
    pub closed spec fn com_failure_spec(&self) -> Option<u32> {
        self.com_failure
    }

    /// Shell item arrays the host made: object pointer and item count.
    pub closed spec fn item_arrays_spec(&self) -> Seq<(usize, u32)> {
        self.item_arrays@
    }

    /// The text of each window, in the order of `windows_spec`.
    pub closed spec fn texts_spec(&self) -> Seq<Seq<char>> {
        self.texts@.map_values(|t: String| t@)
    }

    /// How many more fresh handles or pointers the host can hand out.
    pub closed spec fn free_handles(&self) -> nat {
        (usize::MAX - self.next_handle) as nat
    }

    /// Whether the host can still hand out a fresh handle or pointer.
    pub open spec fn has_free_handle(&self) -> bool {
        self.free_handles() > 0
    }

    /// Every window handle is non-null, unique and below the next one handed
    /// out, and every rectangle is well-formed.
    pub closed spec fn wf(&self) -> bool {
        &&& self.next_handle >= FIRST_HANDLE
        &&& self.next_ctrl_id >= FIRST_AUTO_CTRL_ID
        &&& self.texts@.len() == self.windows@.len()
        &&& forall|i: int|
            0 <= i < self.windows@.len() ==> #[trigger] self.windows@[i].hwnd != NULL
                && self.windows@[i].hwnd < self.next_handle && rect_wf(self.windows@[i].rect)
        &&& forall|i: int, j: int|
            0 <= i < self.windows@.len() && 0 <= j < self.windows@.len() && i != j
                ==> #[trigger] self.windows@[i].hwnd != #[trigger] self.windows@[j].hwnd
        &&& forall|i: int| 0 <= i < self.item_arrays@.len() ==> #[trigger] self.item_arrays@[i].0 < self.next_handle
        &&& forall|i: int, j: int|
            0 <= i < self.item_arrays@.len() && 0 <= j < self.item_arrays@.len() && i != j
                ==> #[trigger] self.item_arrays@[i].0 != #[trigger] self.item_arrays@[j].0
    }

    /// A host with no windows, whose counters start at their first values.
    pub fn new() -> (r: Os)
        ensures
            r.wf(),
            r.free_handles() == usize::MAX - FIRST_HANDLE,
            r.com_failure_spec() is None,
            r.item_arrays_spec() == Seq::<(usize, u32)>::empty(),
            r.calls_spec() == Seq::<Call>::empty(),
            r.windows_spec() == Seq::<Window>::empty(),
            r.pending_spec() == Seq::<u16>::empty(),
            r.next_subclass_id_spec() == 1,
            r.next_ctrl_id_spec() == FIRST_AUTO_CTRL_ID,
    {
        Os {
            calls: Vec::new(),
            windows: Vec::new(),
            next_handle: FIRST_HANDLE,
            next_subclass_id: 1,
            next_ctrl_id: FIRST_AUTO_CTRL_ID,
            pending: Vec::new(),
            dialog_end: None,
            com_failure: None,
            item_arrays: Vec::new(),
            texts: Vec::new(),
        }
    }

    /// The calls made into the host so far, oldest first.
    pub fn calls(&self) -> (r: &Vec<Call>)
        ensures
            r@ == self.calls_spec(),
    {
        &self.calls
    }

    /// The text of each window, in order of creation.
    pub fn texts(&self) -> (r: &Vec<String>)
        ensures
            r@.map_values(|t: String| t@) == self.texts_spec(),
    {
        &self.texts
    }

    /// The windows that exist, in order of creation.
    pub fn windows(&self) -> (r: &Vec<Window>)
        ensures
            r@ == self.windows_spec(),
    {
        &self.windows
    }

    /// Queues a message for the host to deliver to the next modal dialog.
    pub fn post_to_dialog(&mut self, msg_id: u16)
        ensures
            final(self).free_handles() == old(self).free_handles(),
            final(self).dialog_end_spec() == old(self).dialog_end_spec(),
            final(self).texts_spec() == old(self).texts_spec(),
            old(self).wf() ==> final(self).wf(),
            final(self).pending_spec() == old(self).pending_spec().push(msg_id),
            final(self).calls_spec() == old(self).calls_spec(),
            final(self).windows_spec() == old(self).windows_spec(),
            final(self).next_subclass_id_spec() == old(self).next_subclass_id_spec(),
            final(self).next_ctrl_id_spec() == old(self).next_ctrl_id_spec(),
    {
        self.pending.push(msg_id);
    }

    /// Adds a window with a fresh handle, without recording a call.
    fn add_window(&mut self, parent: usize, class_atom: u16, ctrl_id: u16, rect: Rect, style: u32, ex_style: u32, text: String) -> (r: Result<Hwnd, u32>)
        requires
            old(self).wf(),
            rect_wf(rect),
        ensures
            r is Ok ==> final(self).free_handles() == old(self).free_handles() - 1,
            r is Err ==> final(self).free_handles() == old(self).free_handles(),
            r is Ok ==> final(self).texts_spec() == old(self).texts_spec().push(text@),
            r is Err ==> final(self).texts_spec() == old(self).texts_spec(),
            r is Ok <==> old(self).has_free_handle(),
            final(self).wf(),
            final(self).calls_spec() == old(self).calls_spec(),
            final(self).pending_spec() == old(self).pending_spec(),
            final(self).next_subclass_id_spec() == old(self).next_subclass_id_spec(),
            final(self).next_ctrl_id_spec() == old(self).next_ctrl_id_spec(),
            final(self).dialog_end_spec() == old(self).dialog_end_spec(),
            match r {
                Ok(h) => {
                    &&& h.raw != NULL
                    &&& !has_window(old(self).windows_spec(), h.raw)
                    &&& final(self).windows_spec() == old(self).windows_spec().push(
                        Window { hwnd: h.raw, parent, class_atom, ctrl_id, rect, style, ex_style },
                    )
                },
                Err(e) => {
                    &&& e == ERROR_NOT_ENOUGH_MEMORY
                    &&& final(self).windows_spec() == old(self).windows_spec()
                },
            },
    {
        if self.next_handle == usize::MAX {
            return Err(ERROR_NOT_ENOUGH_MEMORY);
        }
        let h = self.next_handle;
        self.next_handle = h + 1;
        self.windows.push(Window { hwnd: h, parent, class_atom, ctrl_id, rect, style, ex_style });
        self.texts.push(text);
        assert(self.texts_spec() =~= old(self).texts_spec().push(text@));
        assert(forall|i: int| 0 <= i < old(self).windows@.len() ==> #[trigger] old(self).windows@[i].hwnd != h);
        assert(self.windows@[old(self).windows@.len() as int].hwnd == h);
        Ok(Hwnd { raw: h })
    }

    /// Makes a top-level window of a class at a rectangle, as an application
    /// would before building its controls.
    pub fn create_top_level(&mut self, class_atom: u16, rect: Rect) -> (r: Result<Hwnd, u32>)
        requires
            old(self).wf(),
            rect_wf(rect),
        ensures
            r is Ok ==> final(self).free_handles() == old(self).free_handles() - 1,
            r is Err ==> final(self).free_handles() == old(self).free_handles(),
            r is Ok <==> old(self).has_free_handle(),
            final(self).wf(),
            final(self).calls_spec() == old(self).calls_spec(),
            final(self).pending_spec() == old(self).pending_spec(),
            final(self).next_subclass_id_spec() == old(self).next_subclass_id_spec(),
            final(self).next_ctrl_id_spec() == old(self).next_ctrl_id_spec(),
            match r {
                Ok(h) => {
                    &&& h.raw != NULL
                    &&& final(self).windows_spec() == old(self).windows_spec().push(
                        Window { hwnd: h.raw, parent: NULL, class_atom, ctrl_id: 0, rect, style: 0, ex_style: 0 },
                    )
                },
                Err(e) => e == ERROR_NOT_ENOUGH_MEMORY && final(self).windows_spec() == old(self).windows_spec(),
            },
    {
        self.add_window(NULL, class_atom, 0, rect, 0, 0, String::new())
    }

    /// Position of the window with raw handle `h` in `windows`, if any.
    fn find(&self, h: usize) -> (r: Option<usize>)
        ensures
            match r {
                Some(i) => i < self.windows_spec().len() && self.windows_spec()[i as int].hwnd == h,
                None => !has_window(self.windows_spec(), h),
            },
    {
        let mut i: usize = 0;
        while i < self.windows.len()
            invariant
                i <= self.windows@.len(),
                forall|j: int| 0 <= j < i ==> #[trigger] self.windows@[j].hwnd != h,
            decreases self.windows@.len() - i,
        {
            if self.windows[i].hwnd == h {
                return Some(i);
            }
            i = i + 1;
        }
        None
    }

    /// The class atom of a window, as `GetClassLongPtr` with `GCLP_ATOM`
    /// reads it; 0 where the handle names no window.
    pub fn class_atom(&self, hwnd: Hwnd) -> (r: u16)
        ensures
            has_window(self.windows_spec(), hwnd.raw) ==> exists|i: int|
                0 <= i < self.windows_spec().len() && self.windows_spec()[i].hwnd == hwnd.raw
                    && self.windows_spec()[i].class_atom == r,
            !has_window(self.windows_spec(), hwnd.raw) ==> r == 0,
    {
        match self.find(hwnd.raw) {
            Some(i) => self.windows[i].class_atom,
            None => 0,
        }
    }

    /// `other` differs from `self` at most in its recorded calls.
    pub open spec fn same_state(&self, other: &Os) -> bool {
        &&& other.wf() ==> self.wf()
        &&& self.free_handles() == other.free_handles()
        &&& self.windows_spec() == other.windows_spec()
        &&& self.pending_spec() == other.pending_spec()
        &&& self.next_subclass_id_spec() == other.next_subclass_id_spec()
        &&& self.next_ctrl_id_spec() == other.next_ctrl_id_spec()
        &&& self.dialog_end_spec() == other.dialog_end_spec()
        &&& self.com_failure_spec() == other.com_failure_spec()
        &&& self.item_arrays_spec() == other.item_arrays_spec()
        &&& self.texts_spec() == other.texts_spec()
    }

    /// Every window of a well-formed host has a non-null handle.
    pub proof fn lemma_window_handle_non_null(&self, i: int)
        requires
            self.wf(),
            0 <= i < self.windows_spec().len(),
        ensures
            self.windows_spec()[i].hwnd != NULL,
    {
    }

    /// In a well-formed host, the window a handle names is the one at its
    /// position.
    pub proof fn lemma_window_of(&self, i: int)
        requires
            self.wf(),
            0 <= i < self.windows_spec().len(),
        ensures
            window_of(self.windows_spec(), self.windows_spec()[i].hwnd) == self.windows_spec()[i],
    {
        let ws = self.windows_spec();
        let h = ws[i].hwnd;
        assert(ws[i].hwnd == h);
        let j = choose|j: int| 0 <= j < ws.len() && ws[j].hwnd == h;
        self.lemma_unique_handles(i, j);
    }

    /// Two windows of a well-formed host with the same handle are one.
    pub proof fn lemma_unique_handles(&self, i: int, j: int)
        requires
            self.wf(),
            0 <= i < self.windows_spec().len(),
            0 <= j < self.windows_spec().len(),
            self.windows_spec()[i].hwnd == self.windows_spec()[j].hwnd,
        ensures
            i == j,
    {
    }

    /// Every window of a well-formed host has a well-formed rectangle.
    pub proof fn lemma_rect_wf(&self, i: int)
        requires
            self.wf(),
            0 <= i < self.windows_spec().len(),
        ensures
            rect_wf(self.windows_spec()[i].rect),
    {
        assert(self.windows@[i].hwnd != NULL && self.windows@[i].hwnd < self.next_handle && rect_wf(self.windows@[i].rect));
    }

    /// Records one call.
    fn record(&mut self, c: Call)
        ensures
            final(self).same_state(old(self)),
            final(self).calls_spec() == old(self).calls_spec().push(c),
    {
        self.calls.push(c);
    }

    /// Creates a child window under `parent` with the given class, control id,
    /// rectangle, styles and text, as `CreateWindowEx` does; the call is
    /// recorded with the new handle.
    pub fn create_window_ex(&mut self, parent: Hwnd, class_atom: u16, ctrl_id: u16, rect: Rect, style: u32, ex_style: u32, text: &String) -> (r: Result<Hwnd, u32>)
        requires
            old(self).wf(),
            rect_wf(rect),
        ensures
            r is Ok ==> final(self).free_handles() == old(self).free_handles() - 1,
            r is Err ==> final(self).free_handles() == old(self).free_handles(),
            r is Ok ==> final(self).texts_spec() == old(self).texts_spec().push(text@),
            r is Ok <==> old(self).has_free_handle(),
            final(self).wf(),
            final(self).pending_spec() == old(self).pending_spec(),
            final(self).next_subclass_id_spec() == old(self).next_subclass_id_spec(),
            final(self).next_ctrl_id_spec() == old(self).next_ctrl_id_spec(),
            match r {
                Ok(h) => {
                    &&& h.raw != NULL
                    &&& final(self).windows_spec() == old(self).windows_spec().push(
                        Window { hwnd: h.raw, parent: parent.raw, class_atom, ctrl_id, rect, style, ex_style },
                    )
                    &&& final(self).calls_spec() == old(self).calls_spec().push(
                        Call::CreateWindowEx { hwnd: h.raw, parent: parent.raw, ctrl_id },
                    )
                },
                Err(e) => {
                    &&& e == ERROR_NOT_ENOUGH_MEMORY
                    &&& final(self).windows_spec() == old(self).windows_spec()
                    &&& final(self).calls_spec() == old(self).calls_spec().push(
                        Call::CreateWindowEx { hwnd: NULL, parent: parent.raw, ctrl_id },
                    )
                },
            },
    {
        let r = self.add_window(parent.raw, class_atom, ctrl_id, rect, style, ex_style, text.clone());
        match r {
            Ok(h) => self.record(Call::CreateWindowEx { hwnd: h.raw, parent: parent.raw, ctrl_id }),
            Err(_) => self.record(Call::CreateWindowEx { hwnd: NULL, parent: parent.raw, ctrl_id }),
        }
        r
    }

    /// The child of `parent` with control id `ctrl_id`, as `GetDlgItem`
    /// finds it; the call is recorded.
    pub fn get_dlg_item(&mut self, parent: Hwnd, ctrl_id: u16) -> (r: Result<Hwnd, u32>)
        ensures
            final(self).same_state(old(self)),
            final(self).calls_spec() == old(self).calls_spec().push(Call::GetDlgItem { parent: parent.raw, ctrl_id }),
            match r {
                Ok(h) => exists|i: int|
                    0 <= i < old(self).windows_spec().len() && #[trigger] old(self).windows_spec()[i] .hwnd == h.raw
                        && old(self).windows_spec()[i].parent == parent.raw
                        && old(self).windows_spec()[i].ctrl_id == ctrl_id,
                Err(e) => e == ERROR_CONTROL_ID_NOT_FOUND && !(exists|i: int|
                    0 <= i < old(self).windows_spec().len() && #[trigger] old(self).windows_spec()[i].parent == parent.raw
                        && old(self).windows_spec()[i].ctrl_id == ctrl_id),
            },
    {
        let found = self.find_child(parent.raw, ctrl_id);
        self.record(Call::GetDlgItem { parent: parent.raw, ctrl_id });
        match found {
            Some(h) => Ok(Hwnd { raw: h }),
            None => Err(ERROR_CONTROL_ID_NOT_FOUND),
        }
    }

    /// The raw handle of the child of `parent` with control id `ctrl_id`.
    fn find_child(&self, parent: usize, ctrl_id: u16) -> (r: Option<usize>)
        ensures
            match r {
                Some(h) => exists|i: int|
                    0 <= i < self.windows_spec().len() && #[trigger] self.windows_spec()[i] .hwnd == h
                        && self.windows_spec()[i].parent == parent
                        && self.windows_spec()[i].ctrl_id == ctrl_id,
                None => !(exists|i: int|
                    0 <= i < self.windows_spec().len() && #[trigger] self.windows_spec()[i].parent == parent
                        && self.windows_spec()[i].ctrl_id == ctrl_id),
            },
    {
        let mut i: usize = 0;
        while i < self.windows.len()
            invariant
                i <= self.windows@.len(),
                forall|j: int| 0 <= j < i ==> !(#[trigger] self.windows@[j].parent == parent && self.windows@[j].ctrl_id == ctrl_id),
            decreases self.windows@.len() - i,
        {
            if self.windows[i].parent == parent && self.windows[i].ctrl_id == ctrl_id {
                assert(self.windows_spec()[i as int].hwnd == self.windows@[i as int].hwnd);
                return Some(self.windows[i].hwnd);
            }
            i = i + 1;
        }
        None
    }

    /// The rectangle of a window, as `GetWindowRect` gives it.
    pub fn get_window_rect(&self, hwnd: Hwnd) -> (r: Result<Rect, u32>)
        ensures
            self.wf() && has_window(self.windows_spec(), hwnd.raw) ==> r == Ok::<Rect, u32>(
                window_of(self.windows_spec(), hwnd.raw).rect,
            ),
            match r {
                Ok(rc) => exists|i: int|
                    0 <= i < self.windows_spec().len() && #[trigger] self.windows_spec()[i].hwnd == hwnd.raw
                        && self.windows_spec()[i].rect == rc,
                Err(e) => e == ERROR_INVALID_WINDOW_HANDLE && !has_window(self.windows_spec(), hwnd.raw),
            },
    {
        match self.find(hwnd.raw) {
            Some(i) => {
                proof {
                    if self.wf() {
                        self.lemma_window_of(i as int);
                    }
                }
                Ok(self.windows[i].rect)
            },
            None => Err(ERROR_INVALID_WINDOW_HANDLE),
        }
    }

    /// The parent of a window, as `GetParent` gives it.
    pub fn get_parent(&self, hwnd: Hwnd) -> (r: Result<Hwnd, u32>)
        ensures
            self.wf() && has_window(self.windows_spec(), hwnd.raw) ==> r == Ok::<Hwnd, u32>(
                Hwnd { raw: window_of(self.windows_spec(), hwnd.raw).parent },
            ),
            match r {
                Ok(p) => exists|i: int|
                    0 <= i < self.windows_spec().len() && #[trigger] self.windows_spec()[i].hwnd == hwnd.raw
                        && self.windows_spec()[i].parent == p.raw,
                Err(e) => e == ERROR_INVALID_WINDOW_HANDLE && !has_window(self.windows_spec(), hwnd.raw),
            },
    {
        match self.find(hwnd.raw) {
            Some(i) => {
                proof {
                    if self.wf() {
                        self.lemma_window_of(i as int);
                    }
                }
                Ok(Hwnd { raw: self.windows[i].parent })
            },
            None => Err(ERROR_INVALID_WINDOW_HANDLE),
        }
    }

    /// Moves a window to `(x, y)` keeping its size, as `SetWindowPos` with
    /// `SWP_NOSIZE | SWP_NOZORDER` does; the call is recorded.
    pub fn set_window_pos(&mut self, hwnd: Hwnd, x: i32, y: i32) -> (r: Result<(), u32>)
        requires
            old(self).wf(),
        ensures
            final(self).wf(),
            final(self).calls_spec() == old(self).calls_spec().push(Call::SetWindowPos { hwnd: hwnd.raw, x, y }),
            final(self).pending_spec() == old(self).pending_spec(),
            final(self).next_subclass_id_spec() == old(self).next_subclass_id_spec(),
            final(self).next_ctrl_id_spec() == old(self).next_ctrl_id_spec(),
            final(self).dialog_end_spec() == old(self).dialog_end_spec(),
            final(self).windows_spec().len() == old(self).windows_spec().len(),
            r is Ok ==> exists|i: int|
                0 <= i < old(self).windows_spec().len() && #[trigger] old(self).windows_spec()[i].hwnd == hwnd.raw
                    && final(self).windows_spec() == old(self).windows_spec().update(i, Window {
                        rect: moved(old(self).windows_spec()[i].rect, x, y), ..old(self).windows_spec()[i]
                    }),
            r is Err ==> final(self).windows_spec() == old(self).windows_spec(),
            r == Err::<(), u32>(ERROR_INVALID_WINDOW_HANDLE) <==> !has_window(old(self).windows_spec(), hwnd.raw),
            has_window(old(self).windows_spec(), hwnd.raw) ==> {
                let w = window_of(old(self).windows_spec(), hwnd.raw);
                &&& (r is Ok <==> fits_i32(x + (w.rect.right - w.rect.left)) && fits_i32(y + (w.rect.bottom - w.rect.top)))
                &&& r is Err ==> r == Err::<(), u32>(ERROR_ARITHMETIC_OVERFLOW)
            },
    {
        self.record(Call::SetWindowPos { hwnd: hwnd.raw, x, y });
        match self.find(hwnd.raw) {
            None => Err(ERROR_INVALID_WINDOW_HANDLE),
            Some(i) => {
                proof {
                    self.lemma_window_of(i as int);
                }
                let w = self.windows[i];
                let right = x as i64 + (w.rect.right as i64 - w.rect.left as i64);
                let bottom = y as i64 + (w.rect.bottom as i64 - w.rect.top as i64);
                if right < i32::MIN as i64 || right > i32::MAX as i64 || bottom < i32::MIN as i64 || bottom > i32::MAX as i64 {
                    return Err(ERROR_ARITHMETIC_OVERFLOW);
                }
                let rect = Rect { left: x, top: y, right: right as i32, bottom: bottom as i32 };
                assert(rect == moved(w.rect, x, y));
                let ghost before = self.windows@;
                proof {
                    self.lemma_rect_wf(i as int);
                }
                self.windows.set(i, Window { rect, ..w });
                assert forall|k: int| 0 <= k < self.windows@.len() implies #[trigger] self.windows@[k].hwnd == before[k].hwnd
                    && self.windows@[k].hwnd != NULL && self.windows@[k].hwnd < self.next_handle && rect_wf(self.windows@[k].rect) by {
                    if k != i {
                        assert(before[k].hwnd != NULL);
                    }
                }
                assert forall|a: int, b: int| 0 <= a < self.windows@.len() && 0 <= b < self.windows@.len() && a != b
                    implies #[trigger] self.windows@[a].hwnd != #[trigger] self.windows@[b].hwnd by {
                    assert(self.windows@[a].hwnd == before[a].hwnd);
                    assert(self.windows@[b].hwnd == before[b].hwnd);
                    assert(before[a].hwnd != before[b].hwnd);
                }
                assert(self.windows@[i as int].hwnd == hwnd.raw);
                Ok(())
            },
        }
    }

    /// Whether `hwnd` names a window of the dialog class, read from its class
    /// atom as `GetClassLongPtr` with `GCLP_ATOM` gives it.
    pub fn is_dialog(&self, hwnd: Hwnd) -> (r: bool)
        requires
            self.wf(),
        ensures
            r == is_dialog_window(self.windows_spec(), hwnd.raw),
    {
        match self.find(hwnd.raw) {
            Some(i) => {
                assert(self.windows@[i as int].hwnd == hwnd.raw);
                self.windows[i].class_atom == WC_DIALOG
            },
            None => false,
        }
    }

    /// Draws the next subclass id from the process-wide counter and installs
    /// a subclass on `hwnd` under it, as `SetWindowSubclass` does; the call
    /// is recorded.
    pub fn set_window_subclass(&mut self, hwnd: Hwnd) -> (r: Result<u64, u32>)
        requires
            old(self).wf(),
        ensures
            final(self).texts_spec() == old(self).texts_spec(),
            final(self).free_handles() == old(self).free_handles(),
            final(self).com_failure_spec() == old(self).com_failure_spec(),
            final(self).item_arrays_spec() == old(self).item_arrays_spec(),
            final(self).wf(),
            final(self).windows_spec() == old(self).windows_spec(),
            final(self).pending_spec() == old(self).pending_spec(),
            final(self).next_ctrl_id_spec() == old(self).next_ctrl_id_spec(),
            final(self).dialog_end_spec() == old(self).dialog_end_spec(),
            match r {
                Ok(id) => {
                    &&& id == old(self).next_subclass_id_spec()
                    &&& final(self).next_subclass_id_spec() == id + 1
                    &&& final(self).calls_spec() == old(self).calls_spec().push(
                        Call::SetWindowSubclass { hwnd: hwnd.raw, subclass_id: id },
                    )
                },
                Err(e) => {
                    &&& e == ERROR_NOT_ENOUGH_MEMORY
                    &&& old(self).next_subclass_id_spec() == u64::MAX
                    &&& final(self).next_subclass_id_spec() == old(self).next_subclass_id_spec()
                    &&& final(self).calls_spec() == old(self).calls_spec()
                },
            },
    {
        if self.next_subclass_id == u64::MAX {
            return Err(ERROR_NOT_ENOUGH_MEMORY);
        }
        let id = self.next_subclass_id;
        self.next_subclass_id = id + 1;
        self.calls.push(Call::SetWindowSubclass { hwnd: hwnd.raw, subclass_id: id });
        Ok(id)
    }

    /// Removes the subclass `subclass_id` from `hwnd`, as
    /// `RemoveWindowSubclass` does; the call is recorded.
    pub fn remove_window_subclass(&mut self, hwnd: Hwnd, subclass_id: u64)
        ensures
            final(self).same_state(old(self)),
            final(self).calls_spec() == old(self).calls_spec().push(Call::RemoveWindowSubclass { hwnd: hwnd.raw, subclass_id }),
    {
        self.record(Call::RemoveWindowSubclass { hwnd: hwnd.raw, subclass_id });
    }

    /// The next automatic control id. Ids count up from
    /// [`FIRST_AUTO_CTRL_ID`] and start over there after the largest one.
    pub fn auto_ctrl_id(&mut self) -> (r: u16)
        ensures
            old(self).wf() ==> r >= FIRST_AUTO_CTRL_ID,
            final(self).free_handles() == old(self).free_handles(),
            r == old(self).next_ctrl_id_spec(),
            final(self).next_ctrl_id_spec() == next_auto_ctrl_id(r),
            final(self).calls_spec() == old(self).calls_spec(),
            final(self).windows_spec() == old(self).windows_spec(),
            final(self).pending_spec() == old(self).pending_spec(),
            final(self).next_subclass_id_spec() == old(self).next_subclass_id_spec(),
            final(self).dialog_end_spec() == old(self).dialog_end_spec(),
            old(self).wf() ==> final(self).wf(),
    {
        let id = self.next_ctrl_id;
        self.next_ctrl_id = if id == u16::MAX { FIRST_AUTO_CTRL_ID } else { id + 1 };
        id
    }

    /// Creates a modal dialog from template `dialog_id` owned by `parent`, as
    /// `DialogBoxParam` does before its loop starts; the call is recorded.
    /// The dialog starts at the origin with the template's size.
    pub fn dialog_box_param(&mut self, parent: Hwnd, dialog_id: i32) -> (r: Result<Hwnd, u32>)
        requires
            old(self).wf(),
        ensures
            r is Ok ==> final(self).free_handles() == old(self).free_handles() - 1,
            r is Err ==> final(self).free_handles() == old(self).free_handles(),
            r is Ok <==> old(self).has_free_handle(),
            final(self).wf(),
            final(self).pending_spec() == old(self).pending_spec(),
            final(self).next_subclass_id_spec() == old(self).next_subclass_id_spec(),
            final(self).next_ctrl_id_spec() == old(self).next_ctrl_id_spec(),
            final(self).dialog_end_spec() == None::<isize>,
            final(self).calls_spec() == old(self).calls_spec().push(Call::DialogBoxParam { parent: parent.raw, dialog_id }),
            match r {
                Ok(h) => {
                    &&& h.raw != NULL
                    &&& !has_window(old(self).windows_spec(), h.raw)
                    &&& final(self).windows_spec() == old(self).windows_spec().push(Window {
                        hwnd: h.raw,
                        parent: parent.raw,
                        class_atom: WC_DIALOG,
                        ctrl_id: 0,
                        rect: Rect { left: 0, top: 0, right: DIALOG_WIDTH, bottom: DIALOG_HEIGHT },
                        style: 0,
                        ex_style: 0,
                    })
                },
                Err(e) => e == ERROR_NOT_ENOUGH_MEMORY && final(self).windows_spec() == old(self).windows_spec(),
            },
    {
        self.record(Call::DialogBoxParam { parent: parent.raw, dialog_id });
        self.dialog_end = None;
        self.add_window(parent.raw, WC_DIALOG, 0, Rect { left: 0, top: 0, right: DIALOG_WIDTH, bottom: DIALOG_HEIGHT }, 0, 0, String::new())
    }

    /// Ends the running modal loop with `result`, as `EndDialog` does; the
    /// call is recorded.
    pub fn end_dialog(&mut self, hwnd: Hwnd, result: isize)
        ensures
            old(self).wf() ==> final(self).wf(),
            final(self).windows_spec() == old(self).windows_spec(),
            final(self).pending_spec() == old(self).pending_spec(),
            final(self).next_subclass_id_spec() == old(self).next_subclass_id_spec(),
            final(self).next_ctrl_id_spec() == old(self).next_ctrl_id_spec(),
            final(self).dialog_end_spec() == Some(result),
            final(self).calls_spec() == old(self).calls_spec().push(Call::EndDialog { hwnd: hwnd.raw, result }),
    {
        self.calls.push(Call::EndDialog { hwnd: hwnd.raw, result });
        self.dialog_end = Some(result);
    }

    /// Whether the running modal loop was ended, and with what result.
    pub fn dialog_end(&self) -> (r: Option<isize>)
        ensures
            r == self.dialog_end_spec(),
    {
        self.dialog_end
    }

    /// Takes the next message queued for the modal dialog.
    pub fn next_pending(&mut self) -> (r: Option<u16>)
        ensures
            old(self).wf() ==> final(self).wf(),
            final(self).windows_spec() == old(self).windows_spec(),
            final(self).calls_spec() == old(self).calls_spec(),
            final(self).next_subclass_id_spec() == old(self).next_subclass_id_spec(),
            final(self).next_ctrl_id_spec() == old(self).next_ctrl_id_spec(),
            final(self).dialog_end_spec() == old(self).dialog_end_spec(),
            old(self).pending_spec().len() == 0 ==> r is None && final(self).pending_spec() == old(self).pending_spec(),
            old(self).pending_spec().len() > 0 ==> r == Some(old(self).pending_spec()[0])
                && final(self).pending_spec() == old(self).pending_spec().drop_first(),
    {
        if self.pending.len() == 0 {
            None
        } else {
            let m = self.pending.remove(0);
            assert(self.pending@ =~= old(self).pending@.drop_first());
            Some(m)
        }
    }

    /// Records that a handler of the user's ran for a message of `hwnd`.
    pub fn note_user_handler(&mut self, hwnd: Hwnd, msg_id: u16)
        ensures
            final(self).same_state(old(self)),
            final(self).calls_spec() == old(self).calls_spec().push(Call::UserHandler { hwnd: hwnd.raw, msg_id }),
    {
        self.record(Call::UserHandler { hwnd: hwnd.raw, msg_id });
    }

    /// Closes a registry key, as `RegCloseKey` does; the call is recorded.
    pub fn reg_close_key(&mut self, hkey: usize)
        ensures
            final(self).same_state(old(self)),
            final(self).calls_spec() == old(self).calls_spec().push(Call::RegCloseKey { hkey }),
    {
        self.record(Call::RegCloseKey { hkey });
    }

    /// Calls the `QueryInterface` slot of a COM object for interface `iid`;
    /// the call is recorded. It answers the failure set for the next
    /// interface call, if one was; else, where the host can hand out a
    /// pointer, a fresh non-null one that the caller owns, and
    /// `E_OUTOFMEMORY` where it cannot.
    pub fn query_interface(&mut self, obj: usize, iid: u128) -> (r: Result<usize, u32>)
        requires
            old(self).wf(),
        ensures
            final(self).wf(),
            final(self).windows_spec() == old(self).windows_spec(),
            final(self).pending_spec() == old(self).pending_spec(),
            final(self).next_subclass_id_spec() == old(self).next_subclass_id_spec(),
            final(self).next_ctrl_id_spec() == old(self).next_ctrl_id_spec(),
            final(self).dialog_end_spec() == old(self).dialog_end_spec(),
            final(self).item_arrays_spec() == old(self).item_arrays_spec(),
            final(self).com_failure_spec() is None,
            final(self).calls_spec() == old(self).calls_spec().push(Call::QueryInterface { obj, iid }),
            old(self).com_answer() != S_OK ==> r == Err::<usize, u32>(old(self).com_answer()),
            old(self).com_answer() == S_OK && !old(self).has_free_handle() ==> r == Err::<usize, u32>(E_OUTOFMEMORY),
            old(self).com_answer() == S_OK && old(self).has_free_handle() ==> r is Ok && r->Ok_0 != NULL,
            r is Ok ==> final(self).free_handles() == old(self).free_handles() - 1,
            r is Err ==> final(self).free_handles() == old(self).free_handles(),
    {
        self.calls.push(Call::QueryInterface { obj, iid });
        let answer = match self.com_failure {
            Some(hr) => hr,
            None => S_OK,
        };
        self.com_failure = None;
        if answer != S_OK {
            return Err(answer);
        }
        if self.next_handle == usize::MAX {
            return Err(E_OUTOFMEMORY);
        }
        let p = self.next_handle;
        self.next_handle = p + 1;
        Ok(p)
    }

    /// Makes a COM object as a class factory would, handing out a fresh,
    /// non-null pointer that the caller owns; nothing is recorded.
    pub fn create_object(&mut self) -> (r: Result<usize, u32>)
        requires
            old(self).wf(),
        ensures
            r is Ok ==> final(self).free_handles() == old(self).free_handles() - 1,
            r is Err ==> final(self).free_handles() == old(self).free_handles(),
            r is Ok <==> old(self).has_free_handle(),
            final(self).wf(),
            final(self).com_failure_spec() == old(self).com_failure_spec(),
            final(self).item_arrays_spec() == old(self).item_arrays_spec(),
            final(self).calls_spec() == old(self).calls_spec(),
            final(self).windows_spec() == old(self).windows_spec(),
            final(self).pending_spec() == old(self).pending_spec(),
            final(self).next_subclass_id_spec() == old(self).next_subclass_id_spec(),
            final(self).next_ctrl_id_spec() == old(self).next_ctrl_id_spec(),
            final(self).dialog_end_spec() == old(self).dialog_end_spec(),
            match r {
                Ok(p) => p != NULL && forall|i: int|
                    0 <= i < old(self).item_arrays_spec().len() ==> #[trigger] old(self).item_arrays_spec()[i].0 != p,
                Err(e) => e == ERROR_NOT_ENOUGH_MEMORY,
            },
    {
        if self.next_handle == usize::MAX {
            return Err(ERROR_NOT_ENOUGH_MEMORY);
        }
        let p = self.next_handle;
        self.next_handle = p + 1;
        Ok(p)
    }

    /// Calls the `Release` slot of a COM object; the call is recorded.
    pub fn release(&mut self, obj: usize)
        ensures
            final(self).same_state(old(self)),
            final(self).calls_spec() == old(self).calls_spec().push(Call::Release { obj }),
    {
        self.record(Call::Release { obj });
    }

    /// Makes the next interface call fail with `hr`.
    pub fn fail_next_com_call(&mut self, hr: u32)
        ensures
            final(self).com_failure_spec() == Some(hr),
            final(self).calls_spec() == old(self).calls_spec(),
            final(self).windows_spec() == old(self).windows_spec(),
            final(self).item_arrays_spec() == old(self).item_arrays_spec(),
            old(self).wf() ==> final(self).wf(),
    {
        self.com_failure = Some(hr);
    }

    /// Makes a shell item array of `count` items, handing out a fresh,
    /// non-null pointer to it; nothing is recorded.
    pub fn create_item_array(&mut self, count: u32) -> (r: Result<usize, u32>)
        requires
            old(self).wf(),
        ensures
            r is Ok ==> final(self).free_handles() == old(self).free_handles() - 1,
            r is Err ==> final(self).free_handles() == old(self).free_handles(),
            r is Ok <==> old(self).has_free_handle(),
            final(self).wf(),
            final(self).calls_spec() == old(self).calls_spec(),
            final(self).windows_spec() == old(self).windows_spec(),
            final(self).com_failure_spec() == old(self).com_failure_spec(),
            match r {
                Ok(p) => p != NULL && final(self).item_arrays_spec() == old(self).item_arrays_spec().push((p, count)),
                Err(e) => e == ERROR_NOT_ENOUGH_MEMORY && final(self).item_arrays_spec() == old(self).item_arrays_spec(),
            },
    {
        if self.next_handle == usize::MAX {
            return Err(ERROR_NOT_ENOUGH_MEMORY);
        }
        let p = self.next_handle;
        self.next_handle = p + 1;
        let ghost before = self.item_arrays@;
        self.item_arrays.push((p, count));
        assert(forall|i: int| 0 <= i < before.len() ==> #[trigger] self.item_arrays@[i] == before[i]);
        Ok(p)
    }

    /// The HRESULT the next interface call answers with.
    pub open spec fn com_answer(&self) -> u32 {
        match self.com_failure_spec() {
            Some(hr) => hr,
            None => S_OK,
        }
    }

    /// Calls an interface method, or an HRESULT-returning function on a
    /// window, that only acts; the call is recorded. Answers `S_OK` unless a
    /// failure was set for it.
    pub fn com_call(&mut self, obj: usize, method: ComMethod) -> (r: u32)
        requires
            old(self).wf(),
        ensures
            final(self).free_handles() == old(self).free_handles(),
            final(self).wf(),
            r == old(self).com_answer(),
            final(self).com_failure_spec() is None,
            final(self).calls_spec() == old(self).calls_spec().push(Call::Com { obj, method }),
            final(self).windows_spec() == old(self).windows_spec(),
            final(self).item_arrays_spec() == old(self).item_arrays_spec(),
    {
        self.calls.push(Call::Com { obj, method });
        let r = match self.com_failure {
            Some(hr) => hr,
            None => S_OK,
        };
        self.com_failure = None;
        r
    }

    /// Item count of the array `obj`, where the host made one.
    fn item_count(&self, obj: usize) -> (r: Option<u32>)
        requires
            self.wf(),
        ensures
            r == array_count(self.item_arrays_spec(), obj),
            match r {
                Some(n) => exists|i: int|
                    0 <= i < self.item_arrays_spec().len() && #[trigger] self.item_arrays_spec()[i] == (obj, n),
                None => forall|i: int| 0 <= i < self.item_arrays_spec().len() ==> #[trigger] self.item_arrays_spec()[i].0 != obj,
            },
    {
        let mut i: usize = 0;
        while i < self.item_arrays.len()
            invariant
                self.wf(),
                i <= self.item_arrays@.len(),
                forall|j: int| 0 <= j < i ==> #[trigger] self.item_arrays@[j].0 != obj,
            decreases self.item_arrays@.len() - i,
        {
            if self.item_arrays[i].0 == obj {
                let n = self.item_arrays[i].1;
                assert(self.item_arrays_spec()[i as int] == (obj, n));
                proof {
                    let a = self.item_arrays_spec();
                    assert(a[i as int].0 == obj);
                    let j = choose|j: int| 0 <= j < a.len() && #[trigger] a[j].0 == obj;
                    assert(self.item_arrays@[j].0 == self.item_arrays@[i as int].0);
                    assert(j == i as int);
                }
                return Some(n);
            }
            i = i + 1;
        }
        None
    }

    /// `IShellItemArray::GetCount`: the HRESULT, and the item count of the
    /// array on success; the call is recorded. An object that is no array the
    /// host made answers `E_INVALIDARG`.
    pub fn get_count(&mut self, obj: usize) -> (r: (u32, u32))
        requires
            old(self).wf(),
        ensures
            final(self).free_handles() == old(self).free_handles(),
            final(self).wf(),
            final(self).com_failure_spec() is None,
            final(self).calls_spec() == old(self).calls_spec().push(Call::Com { obj, method: ComMethod::GetCount }),
            final(self).windows_spec() == old(self).windows_spec(),
            final(self).item_arrays_spec() == old(self).item_arrays_spec(),
            old(self).com_answer() != S_OK ==> r.0 == old(self).com_answer(),
            r.0 == S_OK ==> exists|i: int|
                0 <= i < old(self).item_arrays_spec().len() && #[trigger] old(self).item_arrays_spec()[i] == (obj, r.1),
            old(self).com_answer() == S_OK ==> match array_count(old(self).item_arrays_spec(), obj) {
                Some(n) => r == (S_OK, n),
                None => r.0 == E_INVALIDARG,
            },
    {
        let hr = self.com_call(obj, ComMethod::GetCount);
        if hr != S_OK {
            return (hr, 0);
        }
        match self.item_count(obj) {
            Some(n) => (S_OK, n),
            None => (E_INVALIDARG, 0),
        }
    }

    /// `IShellItemArray::GetItemAt`: the HRESULT, and on success a fresh,
    /// non-null pointer to the item, owned by the caller; the call is
    /// recorded. An index past the count answers `E_INVALIDARG`.
    pub fn get_item_at(&mut self, obj: usize, index: u32) -> (r: (u32, usize))
        requires
            old(self).wf(),
        ensures
            r.0 == S_OK ==> final(self).free_handles() == old(self).free_handles() - 1,
            r.0 != S_OK ==> final(self).free_handles() == old(self).free_handles(),
            final(self).wf(),
            final(self).com_failure_spec() is None,
            final(self).calls_spec() == old(self).calls_spec().push(Call::Com { obj, method: ComMethod::GetItemAt { index } }),
            final(self).windows_spec() == old(self).windows_spec(),
            final(self).item_arrays_spec() == old(self).item_arrays_spec(),
            old(self).com_answer() != S_OK ==> r.0 == old(self).com_answer(),
            old(self).com_answer() == S_OK ==> match array_count(old(self).item_arrays_spec(), obj) {
                Some(n) => if index < n && old(self).has_free_handle() {
                    r.0 == S_OK
                } else if index < n {
                    r.0 == E_OUTOFMEMORY
                } else {
                    r.0 == E_INVALIDARG
                },
                None => r.0 == E_INVALIDARG,
            },
            r.0 == S_OK ==> r.1 != NULL && exists|i: int|
                0 <= i < old(self).item_arrays_spec().len() && #[trigger] old(self).item_arrays_spec()[i]
                    == (obj, old(self).item_arrays_spec()[i].1) && index < old(self).item_arrays_spec()[i].1,
    {
        let hr = self.com_call(obj, ComMethod::GetItemAt { index });
        if hr != S_OK {
            return (hr, 0);
        }
        match self.item_count(obj) {
            Some(n) => {
                if index >= n {
                    return (E_INVALIDARG, 0);
                }
                match self.create_object() {
                    Ok(p) => (S_OK, p),
                    Err(_) => (E_OUTOFMEMORY, 0),
                }
            },
            None => (E_INVALIDARG, 0),
        }
    }

    /// Sends a message to a window and answers its reply, 0 for the messages
    /// this host handles; the call is recorded.
    pub fn send_message(&mut self, hwnd: Hwnd, msg_id: u16, wparam: usize, lparam: isize) -> (r: isize)
        ensures
            final(self).same_state(old(self)),
            final(self).calls_spec() == old(self).calls_spec().push(Call::SendMessage { hwnd: hwnd.raw, msg_id, wparam, lparam }),
            r == 0,
    {
        self.record(Call::SendMessage { hwnd: hwnd.raw, msg_id, wparam, lparam });
        0
    }
}

} // verus!
