//! What the library knows of input devices: event codes of the Linux input
//! layer, events as a tagged variant decided once at the device boundary,
//! the capability sets given to the virtual clone, and device descriptions.
use vstd::prelude::*;

verus! {

/// Event type: synchronization marker.
pub const EV_SYN: u16 = 0x00;

/// Event type: key or button.
pub const EV_KEY: u16 = 0x01;

/// Event type: relative axis motion.
pub const EV_REL: u16 = 0x02;

/// Synchronization code that ends a frame of events.
pub const SYN_REPORT: u16 = 0;

pub const BTN_LEFT: u16 = 0x110;

pub const BTN_RIGHT: u16 = 0x111;

pub const BTN_MIDDLE: u16 = 0x112;

pub const BTN_SIDE: u16 = 0x113;

pub const BTN_EXTRA: u16 = 0x114;

pub const REL_X: u16 = 0x00;

pub const REL_Y: u16 = 0x01;

pub const REL_HWHEEL: u16 = 0x06;

pub const REL_WHEEL: u16 = 0x08;

/// Key event value: released.
pub const KEY_RELEASE: i32 = 0;

/// Key event value: pressed.
pub const KEY_PRESS: i32 = 1;

/// Key event value: autorepeat.
pub const KEY_REPEAT: i32 = 2;

/// One input event.
#[derive(Clone, Copy, Debug, PartialEq, Eq, Structural)]
pub enum InputEvent {
    Key { code: u16, value: i32 },
    Motion { axis: u16, delta: i32 },
    Sync { code: u16, value: i32 },
    Other { kind: u16, code: u16, value: i32 },
}

/// The event that a raw `(type, code, value)` triple stands for.
pub open spec fn event_of(kind: u16, code: u16, value: i32) -> InputEvent {
    if kind == EV_KEY {
        InputEvent::Key { code, value }
    } else if kind == EV_REL {
        InputEvent::Motion { axis: code, delta: value }
    } else if kind == EV_SYN {
        InputEvent::Sync { code, value }
    } else {
        InputEvent::Other { kind, code, value }
    }
}

/// The raw triple of an event.
pub open spec fn raw_of(e: InputEvent) -> (u16, u16, i32) {
    match e {
        InputEvent::Key { code, value } => (EV_KEY, code, value),
        InputEvent::Motion { axis, delta } => (EV_REL, axis, delta),
        InputEvent::Sync { code, value } => (EV_SYN, code, value),
        InputEvent::Other { kind, code, value } => (kind, code, value),
    }
}

/// Events are well formed when their variant matches their type: an
/// `Other` event carries none of the types that have a variant of their own.
pub open spec fn event_wf(e: InputEvent) -> bool {
    match e {
        InputEvent::Other { kind, .. } => kind != EV_KEY && kind != EV_REL && kind != EV_SYN,
        _ => true,
    }
}

impl InputEvent {
    /// Classifies a raw event by its type.
    pub fn from_raw(kind: u16, code: u16, value: i32) -> (r: InputEvent)
        ensures
            r == event_of(kind, code, value),
            event_wf(r),
            raw_of(r) == (kind, code, value),
    {
        if kind == EV_KEY {
            InputEvent::Key { code, value }
        } else if kind == EV_REL {
            InputEvent::Motion { axis: code, delta: value }
        } else if kind == EV_SYN {
            InputEvent::Sync { code, value }
        } else {
            InputEvent::Other { kind, code, value }
        }
    }

    /// The raw `(type, code, value)` triple of the event.
    pub fn to_raw(&self) -> (r: (u16, u16, i32))
        ensures
            r == raw_of(*self),
            event_wf(*self) ==> event_of(r.0, r.1, r.2) == *self,
    {
        match *self {
            InputEvent::Key { code, value } => (EV_KEY, code, value),
            InputEvent::Motion { axis, delta } => (EV_REL, axis, delta),
            InputEvent::Sync { code, value } => (EV_SYN, code, value),
            InputEvent::Other { kind, code, value } => (kind, code, value),
        }
    }

    /// The marker that ends a frame.
    pub fn sync_report() -> (r: InputEvent)
        ensures
            r == (InputEvent::Sync { code: SYN_REPORT, value: 0 }),
    {
        InputEvent::Sync { code: SYN_REPORT, value: 0 }
    }
}

/// The frame that presses (or releases) the synthetic left button: the key
/// event, then the marker that ends the frame.
pub fn left_button_frame(pressed: bool) -> (r: Vec<InputEvent>)
    ensures
        r@ == seq![
            InputEvent::Key {
                code: BTN_LEFT,
                value: if pressed {
                    KEY_PRESS
                } else {
                    KEY_RELEASE
                },
            },
            InputEvent::Sync { code: SYN_REPORT, value: 0 },
        ],
{
    let value = if pressed {
        KEY_PRESS
    } else {
        KEY_RELEASE
    };
    let r = vec![InputEvent::Key { code: BTN_LEFT, value }, InputEvent::sync_report()];
    assert(r@ =~= seq![
        InputEvent::Key { code: BTN_LEFT, value },
        InputEvent::Sync { code: SYN_REPORT, value: 0 },
    ]);
    r
}

/// The buttons a virtual clone offers when the physical device's cannot be
/// read.
pub open spec fn default_keys() -> Seq<u16> {
    seq![BTN_LEFT, BTN_RIGHT, BTN_MIDDLE, BTN_SIDE, BTN_EXTRA]
}

/// The relative axes a virtual clone offers when the physical device's
/// cannot be read.
pub open spec fn default_relative_axes() -> Seq<u16> {
    seq![REL_X, REL_Y, REL_WHEEL, REL_HWHEEL]
}

/// The buttons for the virtual clone: those read from the physical device,
/// or the default set when none could be read.
pub fn clone_keys(found: Option<Vec<u16>>) -> (r: Vec<u16>)
    ensures
        r@ == (match found {
            Some(v) => v@,
            None => default_keys(),
        }),
{
    match found {
        Some(v) => v,
        None => {
            let r = vec![BTN_LEFT, BTN_RIGHT, BTN_MIDDLE, BTN_SIDE, BTN_EXTRA];
            assert(r@ =~= default_keys());
            r
        },
    }
}

/// The relative axes for the virtual clone: those read from the physical
/// device, or the default set when none could be read.
pub fn clone_relative_axes(found: Option<Vec<u16>>) -> (r: Vec<u16>)
    ensures
        r@ == (match found {
            Some(v) => v@,
            None => default_relative_axes(),
        }),
{
    match found {
        Some(v) => v,
        None => {
            let r = vec![REL_X, REL_Y, REL_WHEEL, REL_HWHEEL];
            assert(r@ =~= default_relative_axes());
            r
        },
    }
}

fn holds_code(v: &Vec<u16>, x: u16) -> (r: bool)
    ensures
        r == v@.contains(x),
{
    let mut i: usize = 0;
    while i < v.len()
        invariant
            i <= v@.len(),
            forall|j: int| 0 <= j < i ==> v@[j] != x,
        decreases v@.len() - i,
    {
        if v[i] == x {
            assert(v@[i as int] == x);
            return true;
        }
        i = i + 1;
    }
    false
}

/// A device counts as a mouse when it has a left, right or middle button,
/// or an X or Y relative axis; a capability set that cannot be read counts
/// as empty.
pub open spec fn looks_like_mouse(keys: Option<Seq<u16>>, axes: Option<Seq<u16>>) -> bool {
    let buttons = match keys {
        Some(k) => k.contains(BTN_LEFT) || k.contains(BTN_RIGHT) || k.contains(BTN_MIDDLE),
        None => false,
    };
    let motion = match axes {
        Some(a) => a.contains(REL_X) || a.contains(REL_Y),
        None => false,
    };
    buttons || motion
}

/// Whether a device with these buttons and relative axes is offered as a
/// mouse.
pub fn is_mouse(keys: &Option<Vec<u16>>, axes: &Option<Vec<u16>>) -> (r: bool)
    ensures
        r == looks_like_mouse(
            match keys {
                Some(k) => Some(k@),
                None => None,
            },
            match axes {
                Some(a) => Some(a@),
                None => None,
            },
        ),
{
    let buttons = match keys {
        Some(k) => holds_code(k, BTN_LEFT) || holds_code(k, BTN_RIGHT) || holds_code(k, BTN_MIDDLE),
        None => false,
    };
    let motion = match axes {
        Some(a) => holds_code(a, REL_X) || holds_code(a, REL_Y),
        None => false,
    };
    buttons || motion
}

/// The code of a key press event.
pub open spec fn press_code(e: InputEvent) -> Option<u16> {
    match e {
        InputEvent::Key { code, value } => if value == KEY_PRESS {
            Some(code)
        } else {
            None
        },
        _ => None,
    }
}

/// The code of the first key press in `s`.
pub open spec fn first_press(s: Seq<InputEvent>) -> Option<u16>
    decreases s.len(),
{
    if s.len() == 0 {
        None
    } else if press_code(s[0]) is Some {
        press_code(s[0])
    } else {
        first_press(s.drop_first())
    }
}

/// The code of the first key press among `events`, in order; what the
/// button recorder keeps from one batch of events.
pub fn first_key_press(events: &Vec<InputEvent>) -> (r: Option<u16>)
    ensures
        r == first_press(events@),
{
    let mut i: usize = 0;
    assert(events@.subrange(0, events@.len() as int) =~= events@);
    while i < events.len()
        invariant
            i <= events@.len(),
            first_press(events@) == first_press(events@.subrange(i as int, events@.len() as int)),
        decreases events@.len() - i,
    {
        proof {
            let rest = events@.subrange(i as int, events@.len() as int);
            assert(rest.drop_first() =~= events@.subrange(i + 1, events@.len() as int));
            assert(rest[0] == events@[i as int]);
        }
        match events[i] {
            InputEvent::Key { code, value } => {
                if value == KEY_PRESS {
                    return Some(code);
                }
            },
            _ => {},
        }
        i = i + 1;
    }
    assert(events@.subrange(i as int, events@.len() as int).len() == 0);
    None
}

/// Whether the button recorder keeps waiting: neither cancelled nor past
/// its timeout.
pub fn recording_continues(cancelled: bool, elapsed_us: u64, timeout_us: u64) -> (r: bool)
    ensures
        r == (!cancelled && elapsed_us < timeout_us),
{
    !cancelled && elapsed_us < timeout_us
}

/// What `str::to_lowercase` makes of a string.
pub uninterp spec fn lower_of(s: Seq<char>) -> Seq<char>;

/// Relies on `str::to_lowercase`: the result depends on the characters
/// alone.
#[verifier::external_body]
fn lowercase(s: &str) -> (r: String)
    ensures
        r@ == lower_of(s@),
{
    s.to_lowercase()
}

/// `needle` occurs in `hay` as a contiguous run.
pub open spec fn has_infix(hay: Seq<char>, needle: Seq<char>) -> bool {
    exists|i: int|
        0 <= i && i + needle.len() <= hay.len() && #[trigger] hay.subrange(i, i + needle.len())
            == needle
}

/// Whether `needle` occurs in `hay`.
pub fn contains_text(hay: &str, needle: &str) -> (r: bool)
    ensures
        r == has_infix(hay@, needle@),
{
    let n = hay.unicode_len();
    let m = needle.unicode_len();
    if m > n {
        return false;
    }
    let mut i: usize = 0;
    while i <= n - m
        invariant
            n == hay@.len(),
            m == needle@.len(),
            m <= n,
            i <= n - m + 1,
            forall|j: int| 0 <= j < i ==> #[trigger] hay@.subrange(j, j + m) != needle@,
        decreases n - m + 1 - i,
    {
        let mut k: usize = 0;
        let mut same = true;
        while k < m && same
            invariant
                n == hay@.len(),
                m == needle@.len(),
                i + m <= n,
                k <= m,
                same == (forall|t: int| 0 <= t < k ==> hay@[i + t] == needle@[t]),
            decreases m - k,
        {
            if hay.get_char(i + k) != needle.get_char(k) {
                same = false;
            }
            k = k + 1;
        }
        if same {
            assert(hay@.subrange(i as int, i + m) =~= needle@);
            return true;
        }
        assert(hay@.subrange(i as int, i + m) != needle@) by {
            let t = choose|t: int| 0 <= t < k && hay@[i + t] != needle@[t];
            assert(hay@.subrange(i as int, i + m)[t] == hay@[i + t]);
        }
        i = i + 1;
    }
    proof {
        if has_infix(hay@, needle@) {
            let j = choose|j: int|
                0 <= j && j + needle@.len() <= hay@.len() && #[trigger] hay@.subrange(
                    j,
                    j + needle@.len(),
                ) == needle@;
            assert(hay@.subrange(j, j + m) != needle@);
        }
    }
    false
}

/// Whether an already lower-cased device name marks a virtual device, such
/// as a clone made by this proxy.
pub fn names_virtual_device(lowered: &str) -> (r: bool)
    ensures
        r == has_infix(lowered@, "virtual"@),
{
    contains_text(lowered, "virtual")
}

/// Whether a device name marks a virtual device, in any letter case; such
/// devices are left out of the device list.
pub fn is_virtual_device_name(name: &str) -> (r: bool)
    ensures
        r == has_infix(lower_of(name@), "virtual"@),
{
    let lowered = lowercase(name);
    names_virtual_device(lowered.as_str())
}

/// The lower-case hexadecimal digit of `d`.
pub open spec fn hex_char(d: int) -> char {
    if d < 10 {
        ('0' as int + d) as char
    } else {
        ('a' as int + d - 10) as char
    }
}

/// `v` as four lower-case hexadecimal digits.
pub open spec fn hex4(v: u16) -> Seq<char> {
    seq![
        hex_char(v as int / 4096),
        hex_char((v as int / 256) % 16),
        hex_char((v as int / 16) % 16),
        hex_char(v as int % 16),
    ]
}

fn hex_digit(d: u16) -> (r: &'static str)
    requires
        d < 16,
    ensures
        r@ == seq![hex_char(d as int)],
{
    let r = match d {
        0 => "0",
        1 => "1",
        2 => "2",
        3 => "3",
        4 => "4",
        5 => "5",
        6 => "6",
        7 => "7",
        8 => "8",
        9 => "9",
        10 => "a",
        11 => "b",
        12 => "c",
        13 => "d",
        14 => "e",
        _ => "f",
    };
    proof {
        reveal_strlit("0");
        reveal_strlit("1");
        reveal_strlit("2");
        reveal_strlit("3");
        reveal_strlit("4");
        reveal_strlit("5");
        reveal_strlit("6");
        reveal_strlit("7");
        reveal_strlit("8");
        reveal_strlit("9");
        reveal_strlit("a");
        reveal_strlit("b");
        reveal_strlit("c");
        reveal_strlit("d");
        reveal_strlit("e");
        reveal_strlit("f");
    }
    assert(r@ =~= seq![hex_char(d as int)]);
    r
}

fn push_hex4(s: &mut String, v: u16)
    ensures
        final(s)@ == old(s)@ + hex4(v),
{
    s.append(hex_digit(v / 4096));
    s.append(hex_digit((v / 256) % 16));
    s.append(hex_digit((v / 16) % 16));
    s.append(hex_digit(v % 16));
    assert(s@ =~= old(s)@ + hex4(v));
}

/// An input device that can be selected.
#[derive(Debug, Clone)]
pub struct DeviceInfo {
    pub path: String,
    pub name: String,
    pub vendor_id: u16,
    pub product_id: u16,
}

impl DeviceInfo {
    /// `name (vvvv:pppp)`, with the vendor and product ids as four
    /// lower-case hexadecimal digits.
    pub fn display_name(&self) -> (r: String)
        ensures
            r@ == self.name@ + seq![' ', '('] + hex4(self.vendor_id) + seq![':'] + hex4(
                self.product_id,
            ) + seq![')'],
    {
        let mut s = self.name.clone();
        s.append(" (");
        push_hex4(&mut s, self.vendor_id);
        s.append(":");
        push_hex4(&mut s, self.product_id);
        s.append(")");
        proof {
            reveal_strlit(" (");
            reveal_strlit(":");
            reveal_strlit(")");
        }
        assert(s@ =~= self.name@ + seq![' ', '('] + hex4(self.vendor_id) + seq![':'] + hex4(
            self.product_id,
        ) + seq![')']);
        s
    }
}

} // verus!
