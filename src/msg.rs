use vstd::prelude::*;

verus! {

pub const WM_NULL: u16 = 0x0000;
pub const WM_CREATE: u16 = 0x0001;
pub const WM_DESTROY: u16 = 0x0002;
pub const WM_SIZE: u16 = 0x0005;
pub const WM_ACTIVATE: u16 = 0x0006;
pub const WM_CLOSE: u16 = 0x0010;
pub const WM_SETFONT: u16 = 0x0030;
pub const WM_ACTIVATEAPP: u16 = 0x001C;
pub const WM_NOTIFY: u16 = 0x004E;
pub const WM_NCDESTROY: u16 = 0x0082;
pub const WM_INITDIALOG: u16 = 0x0110;
pub const WM_COMMAND: u16 = 0x0111;
pub const WM_INITMENUPOPUP: u16 = 0x0117;
pub const WM_CTLCOLOREDIT: u16 = 0x0133;
pub const WM_CTLCOLORLISTBOX: u16 = 0x0134;
pub const WM_CTLCOLORBTN: u16 = 0x0135;
pub const WM_CTLCOLORDLG: u16 = 0x0136;
pub const WM_CTLCOLORSCROLLBAR: u16 = 0x0137;
pub const WM_CTLCOLORSTATIC: u16 = 0x0138;
pub const WM_SIZING: u16 = 0x0214;
pub const WM_DROPFILES: u16 = 0x0233;

/// One past the largest value of a 16-bit half of a word.
pub const HALF: usize = 0x1_0000;

/// A message as the host delivers it: identifier and two untyped words.
#[derive(Clone, Copy, Debug, PartialEq, Eq, Structural)]
pub struct Wm {
    pub msg_id: u16,
    pub wparam: usize,
    pub lparam: isize,
}

/// Which control asks for colours in a `WM_CTLCOLOR*` message.
#[derive(Clone, Copy, Debug, PartialEq, Eq, Structural)]
pub enum CtlColor {
    Btn,
    Dlg,
    Edit,
    ListBox,
    ScrollBar,
    Static,
}

/// A message decoded into its typed payload.
#[allow(inconsistent_fields)]
#[derive(Clone, Copy, Debug, PartialEq, Eq, Structural)]
pub enum Msg {
    Null,
    Create { create_struct: isize },
    Destroy,
    Size { request: usize, width: u16, height: u16 },
    Activate { event: u16, is_minimized: bool, hwnd: isize },
    Close,
    ActivateApp { is_being_activated: bool, thread_id: isize },
    Notify { ctrl_id: usize, nmhdr: isize },
    NcDestroy,
    InitDialog { hwnd_focus: usize, additional_data: isize },
    Command { ctrl_id: u16, code: u16, ctrl_hwnd: isize },
    InitMenuPopup { hmenu: usize, item_pos: u16, is_window_menu: bool },
    CtlColor { kind: CtlColor, hdc: usize, hwnd: isize },
    Sizing { edge: usize, rect: isize },
    DropFiles { hdrop: usize },
}

/// The message id of each colour request.
pub open spec fn ctl_color_id(k: CtlColor) -> u16 {
    match k {
        CtlColor::Btn => WM_CTLCOLORBTN,
        CtlColor::Dlg => WM_CTLCOLORDLG,
        CtlColor::Edit => WM_CTLCOLOREDIT,
        CtlColor::ListBox => WM_CTLCOLORLISTBOX,
        CtlColor::ScrollBar => WM_CTLCOLORSCROLLBAR,
        CtlColor::Static => WM_CTLCOLORSTATIC,
    }
}

/// The word for a flag: 1 for true, 0 for false.
pub open spec fn flag_word(b: bool) -> usize {
    if b { 1 } else { 0 }
}

/// A word made of a low and a high 16-bit half.
pub open spec fn make_word(lo: u16, hi: u16) -> usize {
    (lo + hi * HALF) as usize
}

/// A signed word made of a low and a high 16-bit half, the high half's top
/// bit extended as the sign of a 32-bit value.
pub open spec fn make_long(lo: u16, hi: u16) -> isize {
    if hi < 0x8000 {
        (lo + hi * HALF) as isize
    } else {
        (lo + hi * HALF - HALF * HALF) as isize
    }
}

/// Low 16-bit half of an integer.
pub open spec fn lo_half(x: int) -> u16 {
    (x % HALF as int) as u16
}

/// Second 16-bit half of an integer.
pub open spec fn hi_half(x: int) -> u16 {
    ((x / HALF as int) % HALF as int) as u16
}

/// The message ids this framework decodes.
pub open spec fn is_supported(id: u16) -> bool {
    id == WM_NULL || id == WM_CREATE || id == WM_DESTROY || id == WM_SIZE || id == WM_ACTIVATE
        || id == WM_CLOSE || id == WM_ACTIVATEAPP || id == WM_NOTIFY || id == WM_NCDESTROY
        || id == WM_INITDIALOG || id == WM_COMMAND || id == WM_INITMENUPOPUP
        || id == WM_CTLCOLOREDIT || id == WM_CTLCOLORLISTBOX || id == WM_CTLCOLORBTN
        || id == WM_CTLCOLORDLG || id == WM_CTLCOLORSCROLLBAR || id == WM_CTLCOLORSTATIC
        || id == WM_SIZING || id == WM_DROPFILES
}

/// The triple that carries a typed message.
pub open spec fn encode_spec(m: Msg) -> Wm {
    match m {
        Msg::Null => Wm { msg_id: WM_NULL, wparam: 0, lparam: 0 },
        Msg::Create { create_struct } => Wm { msg_id: WM_CREATE, wparam: 0, lparam: create_struct },
        Msg::Destroy => Wm { msg_id: WM_DESTROY, wparam: 0, lparam: 0 },
        Msg::Size { request, width, height } => Wm {
            msg_id: WM_SIZE,
            wparam: request,
            lparam: make_long(width, height),
        },
        Msg::Activate { event, is_minimized, hwnd } => Wm {
            msg_id: WM_ACTIVATE,
            wparam: make_word(event, flag_word(is_minimized) as u16),
            lparam: hwnd,
        },
        Msg::Close => Wm { msg_id: WM_CLOSE, wparam: 0, lparam: 0 },
        Msg::ActivateApp { is_being_activated, thread_id } => Wm {
            msg_id: WM_ACTIVATEAPP,
            wparam: flag_word(is_being_activated),
            lparam: thread_id,
        },
        Msg::Notify { ctrl_id, nmhdr } => Wm { msg_id: WM_NOTIFY, wparam: ctrl_id, lparam: nmhdr },
        Msg::NcDestroy => Wm { msg_id: WM_NCDESTROY, wparam: 0, lparam: 0 },
        Msg::InitDialog { hwnd_focus, additional_data } => Wm {
            msg_id: WM_INITDIALOG,
            wparam: hwnd_focus,
            lparam: additional_data,
        },
        Msg::Command { ctrl_id, code, ctrl_hwnd } => Wm {
            msg_id: WM_COMMAND,
            wparam: make_word(ctrl_id, code),
            lparam: ctrl_hwnd,
        },
        Msg::InitMenuPopup { hmenu, item_pos, is_window_menu } => Wm {
            msg_id: WM_INITMENUPOPUP,
            wparam: hmenu,
            lparam: make_long(item_pos, flag_word(is_window_menu) as u16),
        },
        Msg::CtlColor { kind, hdc, hwnd } => Wm { msg_id: ctl_color_id(kind), wparam: hdc, lparam: hwnd },
        Msg::Sizing { edge, rect } => Wm { msg_id: WM_SIZING, wparam: edge, lparam: rect },
        Msg::DropFiles { hdrop } => Wm { msg_id: WM_DROPFILES, wparam: hdrop, lparam: 0 },
    }
}

/// The typed payload of a triple, for the ids this framework decodes.
pub open spec fn decode_spec(w: Wm) -> Option<Msg> {
    let id = w.msg_id;
    if id == WM_NULL {
        Some(Msg::Null)
    } else if id == WM_CREATE {
        Some(Msg::Create { create_struct: w.lparam })
    } else if id == WM_DESTROY {
        Some(Msg::Destroy)
    } else if id == WM_SIZE {
        Some(Msg::Size { request: w.wparam, width: lo_half(w.lparam as int), height: hi_half(w.lparam as int) })
    } else if id == WM_ACTIVATE {
        Some(Msg::Activate { event: lo_half(w.wparam as int), is_minimized: hi_half(w.wparam as int) != 0, hwnd: w.lparam })
    } else if id == WM_CLOSE {
        Some(Msg::Close)
    } else if id == WM_ACTIVATEAPP {
        Some(Msg::ActivateApp { is_being_activated: w.wparam != 0, thread_id: w.lparam })
    } else if id == WM_NOTIFY {
        Some(Msg::Notify { ctrl_id: w.wparam, nmhdr: w.lparam })
    } else if id == WM_NCDESTROY {
        Some(Msg::NcDestroy)
    } else if id == WM_INITDIALOG {
        Some(Msg::InitDialog { hwnd_focus: w.wparam, additional_data: w.lparam })
    } else if id == WM_COMMAND {
        Some(Msg::Command { ctrl_id: lo_half(w.wparam as int), code: hi_half(w.wparam as int), ctrl_hwnd: w.lparam })
    } else if id == WM_INITMENUPOPUP {
        Some(Msg::InitMenuPopup {
            hmenu: w.wparam,
            item_pos: lo_half(w.lparam as int),
            is_window_menu: hi_half(w.lparam as int) != 0,
        })
    } else if id == WM_CTLCOLORBTN {
        Some(Msg::CtlColor { kind: CtlColor::Btn, hdc: w.wparam, hwnd: w.lparam })
    } else if id == WM_CTLCOLORDLG {
        Some(Msg::CtlColor { kind: CtlColor::Dlg, hdc: w.wparam, hwnd: w.lparam })
    } else if id == WM_CTLCOLOREDIT {
        Some(Msg::CtlColor { kind: CtlColor::Edit, hdc: w.wparam, hwnd: w.lparam })
    } else if id == WM_CTLCOLORLISTBOX {
        Some(Msg::CtlColor { kind: CtlColor::ListBox, hdc: w.wparam, hwnd: w.lparam })
    } else if id == WM_CTLCOLORSCROLLBAR {
        Some(Msg::CtlColor { kind: CtlColor::ScrollBar, hdc: w.wparam, hwnd: w.lparam })
    } else if id == WM_CTLCOLORSTATIC {
        Some(Msg::CtlColor { kind: CtlColor::Static, hdc: w.wparam, hwnd: w.lparam })
    } else if id == WM_SIZING {
        Some(Msg::Sizing { edge: w.wparam, rect: w.lparam })
    } else if id == WM_DROPFILES {
        Some(Msg::DropFiles { hdrop: w.wparam })
    } else {
        None
    }
}

/// A triple is canonical when it is exactly what some payload encodes to:
/// unused words are zero, split words hold no bits above their two halves,
/// and flags are 0 or 1.
pub open spec fn is_canonical(w: Wm) -> bool {
    let id = w.msg_id;
    if id == WM_NULL || id == WM_DESTROY || id == WM_CLOSE || id == WM_NCDESTROY {
        w.wparam == 0 && w.lparam == 0
    } else if id == WM_CREATE {
        w.wparam == 0
    } else if id == WM_SIZE {
        -0x8000_0000 <= w.lparam < 0x8000_0000
    } else if id == WM_ACTIVATE {
        w.wparam < HALF * 2
    } else if id == WM_ACTIVATEAPP {
        w.wparam <= 1
    } else if id == WM_COMMAND {
        w.wparam < HALF * HALF
    } else if id == WM_INITMENUPOPUP {
        0 <= w.lparam < HALF * 2
    } else if id == WM_DROPFILES {
        w.lparam == 0
    } else {
        is_supported(id)
    }
}

/// The two 16-bit halves of a signed word.
fn halves_of_long(l: isize) -> (r: (u16, u16))
    ensures
        r.0 == lo_half(l as int),
        r.1 == hi_half(l as int),
{
    let y: i128 = l as i128 + 0x1_0000_0000_0000_0000i128;
    let u: u128 = y as u128;
    proof {
        let x = l as int;
        let k: int = 0x1_0000_0000_0000_0000;
        assert((x + k) % 65536 == x % 65536) by (nonlinear_arith)
            requires
                k == 65536 * 0x1_0000_0000_0000,
        ;
        assert(((x + k) / 65536) % 65536 == (x / 65536) % 65536) by (nonlinear_arith)
            requires
                k == 65536 * 0x1_0000_0000_0000,
        ;
    }
    ((u % 65536) as u16, ((u / 65536) % 65536) as u16)
}

/// The two 16-bit halves of a word.
fn halves_of_word(w: usize) -> (r: (u16, u16))
    ensures
        r.0 == lo_half(w as int),
        r.1 == hi_half(w as int),
{
    ((w % 65536) as u16, ((w / 65536) % 65536) as u16)
}

/// A word from two halves.
fn word_of(lo: u16, hi: u16) -> (r: usize)
    ensures
        r == make_word(lo, hi),
{
    lo as usize + hi as usize * 65536
}

/// A signed word from two halves.
fn long_of(lo: u16, hi: u16) -> (r: isize)
    ensures
        r == make_long(lo, hi),
{
    let v: i64 = lo as i64 + hi as i64 * 65536;
    if hi < 0x8000 {
        v as isize
    } else {
        (v - 0x1_0000_0000) as isize
    }
}

fn flag_of(b: bool) -> (r: usize)
    ensures
        r == flag_word(b),
{
    if b { 1 } else { 0 }
}

impl Msg {
    /// Encodes the payload into the triple the host delivers.
    pub fn encode(&self) -> (r: Wm)
        ensures
            r == encode_spec(*self),
    {
        match *self {
            Msg::Null => Wm { msg_id: WM_NULL, wparam: 0, lparam: 0 },
            Msg::Create { create_struct } => Wm { msg_id: WM_CREATE, wparam: 0, lparam: create_struct },
            Msg::Destroy => Wm { msg_id: WM_DESTROY, wparam: 0, lparam: 0 },
            Msg::Size { request, width, height } => Wm {
                msg_id: WM_SIZE,
                wparam: request,
                lparam: long_of(width, height),
            },
            Msg::Activate { event, is_minimized, hwnd } => Wm {
                msg_id: WM_ACTIVATE,
                wparam: word_of(event, flag_of(is_minimized) as u16),
                lparam: hwnd,
            },
            Msg::Close => Wm { msg_id: WM_CLOSE, wparam: 0, lparam: 0 },
            Msg::ActivateApp { is_being_activated, thread_id } => Wm {
                msg_id: WM_ACTIVATEAPP,
                wparam: flag_of(is_being_activated),
                lparam: thread_id,
            },
            Msg::Notify { ctrl_id, nmhdr } => Wm { msg_id: WM_NOTIFY, wparam: ctrl_id, lparam: nmhdr },
            Msg::NcDestroy => Wm { msg_id: WM_NCDESTROY, wparam: 0, lparam: 0 },
            Msg::InitDialog { hwnd_focus, additional_data } => Wm {
                msg_id: WM_INITDIALOG,
                wparam: hwnd_focus,
                lparam: additional_data,
            },
            Msg::Command { ctrl_id, code, ctrl_hwnd } => Wm {
                msg_id: WM_COMMAND,
                wparam: word_of(ctrl_id, code),
                lparam: ctrl_hwnd,
            },
            Msg::InitMenuPopup { hmenu, item_pos, is_window_menu } => Wm {
                msg_id: WM_INITMENUPOPUP,
                wparam: hmenu,
                lparam: long_of(item_pos, flag_of(is_window_menu) as u16),
            },
            Msg::CtlColor { kind, hdc, hwnd } => {
                let msg_id = match kind {
                    CtlColor::Btn => WM_CTLCOLORBTN,
                    CtlColor::Dlg => WM_CTLCOLORDLG,
                    CtlColor::Edit => WM_CTLCOLOREDIT,
                    CtlColor::ListBox => WM_CTLCOLORLISTBOX,
                    CtlColor::ScrollBar => WM_CTLCOLORSCROLLBAR,
                    CtlColor::Static => WM_CTLCOLORSTATIC,
                };
                Wm { msg_id, wparam: hdc, lparam: hwnd }
            },
            Msg::Sizing { edge, rect } => Wm { msg_id: WM_SIZING, wparam: edge, lparam: rect },
            Msg::DropFiles { hdrop } => Wm { msg_id: WM_DROPFILES, wparam: hdrop, lparam: 0 },
        }
    }
}

impl Wm {
    /// Decodes the triple into its typed payload; `None` for an id this
    /// framework does not decode, which goes to the untyped handler as is.
    pub fn decode(&self) -> (r: Option<Msg>)
        ensures
            r == decode_spec(*self),
            r is Some <==> is_supported(self.msg_id),
    {
        let w = *self;
        let id = w.msg_id;
        if id == WM_NULL {
            Some(Msg::Null)
        } else if id == WM_CREATE {
            Some(Msg::Create { create_struct: w.lparam })
        } else if id == WM_DESTROY {
            Some(Msg::Destroy)
        } else if id == WM_SIZE {
            let (width, height) = halves_of_long(w.lparam);
            Some(Msg::Size { request: w.wparam, width, height })
        } else if id == WM_ACTIVATE {
            let (event, min) = halves_of_word(w.wparam);
            Some(Msg::Activate { event, is_minimized: min != 0, hwnd: w.lparam })
        } else if id == WM_CLOSE {
            Some(Msg::Close)
        } else if id == WM_ACTIVATEAPP {
            Some(Msg::ActivateApp { is_being_activated: w.wparam != 0, thread_id: w.lparam })
        } else if id == WM_NOTIFY {
            Some(Msg::Notify { ctrl_id: w.wparam, nmhdr: w.lparam })
        } else if id == WM_NCDESTROY {
            Some(Msg::NcDestroy)
        } else if id == WM_INITDIALOG {
            Some(Msg::InitDialog { hwnd_focus: w.wparam, additional_data: w.lparam })
        } else if id == WM_COMMAND {
            let (ctrl_id, code) = halves_of_word(w.wparam);
            Some(Msg::Command { ctrl_id, code, ctrl_hwnd: w.lparam })
        } else if id == WM_INITMENUPOPUP {
            let (item_pos, win) = halves_of_long(w.lparam);
            Some(Msg::InitMenuPopup { hmenu: w.wparam, item_pos, is_window_menu: win != 0 })
        } else if id == WM_CTLCOLORBTN {
            Some(Msg::CtlColor { kind: CtlColor::Btn, hdc: w.wparam, hwnd: w.lparam })
        } else if id == WM_CTLCOLORDLG {
            Some(Msg::CtlColor { kind: CtlColor::Dlg, hdc: w.wparam, hwnd: w.lparam })
        } else if id == WM_CTLCOLOREDIT {
            Some(Msg::CtlColor { kind: CtlColor::Edit, hdc: w.wparam, hwnd: w.lparam })
        } else if id == WM_CTLCOLORLISTBOX {
            Some(Msg::CtlColor { kind: CtlColor::ListBox, hdc: w.wparam, hwnd: w.lparam })
        } else if id == WM_CTLCOLORSCROLLBAR {
            Some(Msg::CtlColor { kind: CtlColor::ScrollBar, hdc: w.wparam, hwnd: w.lparam })
        } else if id == WM_CTLCOLORSTATIC {
            Some(Msg::CtlColor { kind: CtlColor::Static, hdc: w.wparam, hwnd: w.lparam })
        } else if id == WM_SIZING {
            Some(Msg::Sizing { edge: w.wparam, rect: w.lparam })
        } else if id == WM_DROPFILES {
            Some(Msg::DropFiles { hdrop: w.wparam })
        } else {
            None
        }
    }
}

proof fn lemma_halves_of_word(lo: u16, hi: u16)
    ensures
        lo_half(make_word(lo, hi) as int) == lo,
        hi_half(make_word(lo, hi) as int) == hi,
{
    let x = lo + hi * HALF;
    assert(x % 65536 == lo && x / 65536 == hi) by (nonlinear_arith)
        requires
            x == lo + hi * 65536,
            0 <= lo < 65536,
            0 <= hi < 65536,
    ;
}

proof fn lemma_halves_of_long(lo: u16, hi: u16)
    ensures
        lo_half(make_long(lo, hi) as int) == lo,
        hi_half(make_long(lo, hi) as int) == hi,
{
    let x: int = lo + hi * HALF;
    if hi < 0x8000 {
        assert(x % 65536 == lo && x / 65536 == hi) by (nonlinear_arith)
            requires
                x == lo + hi * 65536,
                0 <= lo < 65536,
                0 <= hi < 65536,
        ;
    } else {
        let y: int = x - HALF * HALF;
        assert(y % 65536 == lo && y / 65536 == hi - 65536) by (nonlinear_arith)
            requires
                y == lo + hi * 65536 - 65536 * 65536,
                0 <= lo < 65536,
                0 <= hi < 65536,
        ;
    }
}

proof fn lemma_word_of_halves(w: int)
    requires
        0 <= w < HALF * HALF,
    ensures
        w == lo_half(w) + hi_half(w) * HALF,
{
    assert(w == w % 65536 + (w / 65536) * 65536 && 0 <= w / 65536 < 65536 && (w / 65536) % 65536 == w / 65536)
        by (nonlinear_arith)
        requires
            0 <= w < 65536 * 65536,
    ;
}

proof fn lemma_long_of_halves(l: int)
    requires
        -0x8000_0000 <= l < 0x8000_0000,
    ensures
        l == make_long(lo_half(l), hi_half(l)),
{
    let lo = l % 65536;
    let q = l / 65536;
    assert(l == lo + q * 65536 && 0 <= lo < 65536 && -32768 <= q < 32768) by (nonlinear_arith)
        requires
            -0x8000_0000 <= l < 0x8000_0000,
            lo == l % 65536,
            q == l / 65536,
    ;
    if q >= 0 {
        assert(q % 65536 == q);
    } else {
        assert(q % 65536 == q + 65536);
    }
}

/// Decoding what a payload encodes to gives that payload back, bit for bit.
pub proof fn lemma_decode_encode(m: Msg)
    ensures
        decode_spec(encode_spec(m)) == Some(m),
        is_canonical(encode_spec(m)),
{
    match m {
        Msg::Size { request, width, height } => {
            lemma_halves_of_long(width, height);
        },
        Msg::Activate { event, is_minimized, hwnd } => {
            lemma_halves_of_word(event, flag_word(is_minimized) as u16);
        },
        Msg::Command { ctrl_id, code, ctrl_hwnd } => {
            lemma_halves_of_word(ctrl_id, code);
        },
        Msg::InitMenuPopup { hmenu, item_pos, is_window_menu } => {
            lemma_halves_of_long(item_pos, flag_word(is_window_menu) as u16);
        },
        Msg::CtlColor { kind, hdc, hwnd } => {},
        _ => {},
    }
}

/// Encoding the payload of a canonical triple gives that triple back.
pub proof fn lemma_encode_decode(w: Wm)
    requires
        is_canonical(w),
    ensures
        decode_spec(w) is Some,
        encode_spec(decode_spec(w)->0) == w,
{
    let id = w.msg_id;
    if id == WM_SIZE {
        lemma_long_of_halves(w.lparam as int);
    } else if id == WM_ACTIVATE {
        lemma_word_of_halves(w.wparam as int);
    } else if id == WM_COMMAND {
        lemma_word_of_halves(w.wparam as int);
    } else if id == WM_INITMENUPOPUP {
        lemma_long_of_halves(w.lparam as int);
    }
}

} // verus!
