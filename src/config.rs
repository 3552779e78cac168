//! User configuration: the button tables, the remapping of GameCube
//! buttons to Xbox 360 buttons, and the parsing of setting values.

use vstd::prelude::*;
use crate::pad::{GButton, GC_A, GC_B, GC_X, GC_Y, GC_Z, GC_START, GC_DPAD_LEFT, GC_DPAD_RIGHT, GC_DPAD_UP, GC_DPAD_DOWN};

verus! {

/// Xbox 360 button flags, as laid out in a virtual pad report.
pub const XB_DPAD_UP: u16 = 0x0001;
pub const XB_DPAD_DOWN: u16 = 0x0002;
pub const XB_DPAD_LEFT: u16 = 0x0004;
pub const XB_DPAD_RIGHT: u16 = 0x0008;
pub const XB_START: u16 = 0x0010;
pub const XB_BACK: u16 = 0x0020;
pub const XB_LEFT_THUMB: u16 = 0x0040;
pub const XB_RIGHT_THUMB: u16 = 0x0080;
pub const XB_LEFT_SHOULDER: u16 = 0x0100;
pub const XB_RIGHT_SHOULDER: u16 = 0x0200;
pub const XB_GUIDE: u16 = 0x0400;
pub const XB_A: u16 = 0x1000;
pub const XB_B: u16 = 0x2000;
pub const XB_X: u16 = 0x4000;
pub const XB_Y: u16 = 0x8000;

/// Number of target buttons a logical button can be mapped to.
pub const XBUTTON_COUNT: usize = 11;

/// Number of remappable GameCube buttons.
pub const GBUTTON_COUNT: usize = 6;

/// Largest accepted deadzone percentage.
pub const MAX_DEADZONE: u8 = 100;

/// A set of Xbox 360 button flags.
#[derive(Clone, Copy, Debug, PartialEq, Eq, Structural)]
pub struct XButton {
    pub bits: u16,
}

impl XButton {
    pub fn empty() -> (r: XButton)
        ensures
            r.bits == 0,
    {
        XButton { bits: 0 }
    }

    pub fn insert(&mut self, flags: u16)
        ensures
            final(self).bits == old(self).bits | flags,
    {
        self.bits = self.bits | flags;
    }

    pub fn bits(&self) -> (r: u16)
        ensures
            r == self.bits,
    {
        self.bits
    }
}

/// Flag of the target button with ordinal `i`.
pub open spec fn xbutton_flag(i: int) -> u16 {
    if i == 0 {
        XB_A
    } else if i == 1 {
        XB_B
    } else if i == 2 {
        XB_X
    } else if i == 3 {
        XB_Y
    } else if i == 4 {
        XB_LEFT_SHOULDER
    } else if i == 5 {
        XB_RIGHT_SHOULDER
    } else if i == 6 {
        XB_BACK
    } else if i == 7 {
        XB_START
    } else if i == 8 {
        XB_LEFT_THUMB
    } else if i == 9 {
        XB_RIGHT_THUMB
    } else {
        XB_GUIDE
    }
}

/// Display name of the target button with ordinal `i`.
pub open spec fn xbutton_name(i: int) -> Seq<char> {
    if i == 0 {
        "A"@
    } else if i == 1 {
        "B"@
    } else if i == 2 {
        "X"@
    } else if i == 3 {
        "Y"@
    } else if i == 4 {
        "LB"@
    } else if i == 5 {
        "RB"@
    } else if i == 6 {
        "Back"@
    } else if i == 7 {
        "Start"@
    } else if i == 8 {
        "LS"@
    } else if i == 9 {
        "RS"@
    } else {
        "Guide"@
    }
}

/// Display name of the remappable GameCube button with ordinal `i`.
pub open spec fn gbutton_name(i: int) -> Seq<char> {
    if i == 0 {
        "A"@
    } else if i == 1 {
        "B"@
    } else if i == 2 {
        "X"@
    } else if i == 3 {
        "Y"@
    } else if i == 4 {
        "Z"@
    } else {
        "Start"@
    }
}

pub fn xbutton_flag_at(i: usize) -> (r: u16)
    requires
        i < XBUTTON_COUNT,
    ensures
        r == xbutton_flag(i as int),
{
    match i {
        0 => XB_A,
        1 => XB_B,
        2 => XB_X,
        3 => XB_Y,
        4 => XB_LEFT_SHOULDER,
        5 => XB_RIGHT_SHOULDER,
        6 => XB_BACK,
        7 => XB_START,
        8 => XB_LEFT_THUMB,
        9 => XB_RIGHT_THUMB,
        _ => XB_GUIDE,
    }
}

pub fn xbutton_name_at(i: usize) -> (r: &'static str)
    requires
        i < XBUTTON_COUNT,
    ensures
        r@ == xbutton_name(i as int),
{
    match i {
        0 => "A",
        1 => "B",
        2 => "X",
        3 => "Y",
        4 => "LB",
        5 => "RB",
        6 => "Back",
        7 => "Start",
        8 => "LS",
        9 => "RS",
        _ => "Guide",
    }
}

pub fn gbutton_name_at(i: usize) -> (r: &'static str)
    requires
        i < GBUTTON_COUNT,
    ensures
        r@ == gbutton_name(i as int),
{
    match i {
        0 => "A",
        1 => "B",
        2 => "X",
        3 => "Y",
        4 => "Z",
        _ => "Start",
    }
}

/// The names of all target buttons, by ordinal.
pub fn xbutton_names() -> (r: Vec<&'static str>)
    ensures
        r@.len() == XBUTTON_COUNT,
        forall|i: int| 0 <= i < XBUTTON_COUNT ==> (#[trigger] r@[i])@ == xbutton_name(i),
{
    let mut r: Vec<&'static str> = Vec::new();
    let mut i: usize = 0;
    while i < XBUTTON_COUNT
        invariant
            i <= XBUTTON_COUNT,
            r@.len() == i,
            forall|j: int| 0 <= j < i ==> (#[trigger] r@[j])@ == xbutton_name(j),
        decreases XBUTTON_COUNT - i,
    {
        r.push(xbutton_name_at(i));
        i = i + 1;
    }
    r
}

/// Whether target-button flag `flags` is fully set in `bits`.
pub open spec fn has_flags(bits: u16, flags: u16) -> bool {
    bits & flags == flags
}

/// The (GameCube flag, target flag) pairs a pad's buttons are translated
/// through: the four D-pad directions one to one, then the six logical
/// buttons through the mapping table.
pub open spec fn button_pairs(mapping: Seq<usize>) -> Seq<(u16, u16)> {
    seq![
        (GC_DPAD_LEFT, XB_DPAD_LEFT),
        (GC_DPAD_RIGHT, XB_DPAD_RIGHT),
        (GC_DPAD_UP, XB_DPAD_UP),
        (GC_DPAD_DOWN, XB_DPAD_DOWN),
        (GC_A, xbutton_flag(mapping[0] as int)),
        (GC_B, xbutton_flag(mapping[1] as int)),
        (GC_X, xbutton_flag(mapping[2] as int)),
        (GC_Y, xbutton_flag(mapping[3] as int)),
        (GC_Z, xbutton_flag(mapping[4] as int)),
        (GC_START, xbutton_flag(mapping[5] as int)),
    ]
}

/// The union of the target flags of those pairs, among the first `n`, whose
/// GameCube flag is held in `gc`.
pub open spec fn pressed_targets(gc: u16, pairs: Seq<(u16, u16)>, n: nat) -> u16
    decreases n,
{
    if n == 0 {
        0
    } else {
        let prev = pressed_targets(gc, pairs, (n - 1) as nat);
        if has_flags(gc, pairs[n - 1].0) {
            prev | pairs[n - 1].1
        } else {
            prev
        }
    }
}

/// The target buttons held when the GameCube buttons `gc` are held, under
/// the mapping table `mapping`.
pub open spec fn remap_spec(gc: u16, mapping: Seq<usize>) -> u16 {
    pressed_targets(gc, button_pairs(mapping), 10)
}

/// Default mapping: A to A, B to X, X to B, Y to Y, Z to RB, Start to Start.
pub open spec fn default_mapping() -> Seq<usize> {
    seq![0usize, 2, 1, 3, 5, 7]
}

/// User configuration read by the input pipeline.
#[derive(Clone, Copy, Debug)]
pub struct Config {
    /// Target-button ordinal for each remappable GameCube button.
    pub buttons: [usize; 6],
    pub auto_recenter: bool,
    /// Stick deadzone, in percent of the axis' half range.
    pub deadzone: u8,
    pub close_to_tray: bool,
}

impl Config {
    pub open spec fn wf(&self) -> bool {
        &&& forall|i: int| 0 <= i < GBUTTON_COUNT ==> (#[trigger] self.buttons@[i]) < XBUTTON_COUNT
        &&& self.deadzone <= MAX_DEADZONE
    }

    pub open spec fn is_default(&self) -> bool {
        &&& self.buttons@ == default_mapping()
        &&& !self.auto_recenter
        &&& self.deadzone == 5
        &&& self.close_to_tray
    }

    /// Whether every mapping names a target button and the deadzone is in range.
    pub fn is_valid(&self) -> (r: bool)
        ensures
            r == self.wf(),
    {
        let mut i: usize = 0;
        while i < GBUTTON_COUNT
            invariant
                i <= GBUTTON_COUNT,
                forall|j: int| 0 <= j < i ==> (#[trigger] self.buttons@[j]) < XBUTTON_COUNT,
            decreases GBUTTON_COUNT - i,
        {
            if self.buttons[i] >= XBUTTON_COUNT {
                return false;
            }
            i = i + 1;
        }
        self.deadzone <= MAX_DEADZONE
    }

    /// The target buttons held for the GameCube buttons `gc`.
    pub fn remap(&self, gc: GButton) -> (r: XButton)
        requires
            self.wf(),
        ensures
            r.bits == remap_spec(gc.bits, self.buttons@),
    {
        let pairs: [(u16, u16); 10] = [
            (GC_DPAD_LEFT, XB_DPAD_LEFT),
            (GC_DPAD_RIGHT, XB_DPAD_RIGHT),
            (GC_DPAD_UP, XB_DPAD_UP),
            (GC_DPAD_DOWN, XB_DPAD_DOWN),
            (GC_A, xbutton_flag_at(self.buttons[0])),
            (GC_B, xbutton_flag_at(self.buttons[1])),
            (GC_X, xbutton_flag_at(self.buttons[2])),
            (GC_Y, xbutton_flag_at(self.buttons[3])),
            (GC_Z, xbutton_flag_at(self.buttons[4])),
            (GC_START, xbutton_flag_at(self.buttons[5])),
        ];
        assert(pairs@ =~= button_pairs(self.buttons@));
        let mut out = XButton::empty();
        let mut i: usize = 0;
        while i < 10
            invariant
                i <= 10,
                pairs@ == button_pairs(self.buttons@),
                out.bits == pressed_targets(gc.bits, pairs@, i as nat),
            decreases 10 - i,
        {
            let (g, x) = pairs[i];
            if gc.contains(g) {
                out.insert(x);
            }
            i = i + 1;
        }
        out
    }

    /// The GameCube and target button names of each mapping entry.
    pub fn button_entries(&self) -> (r: Vec<(&'static str, &'static str)>)
        requires
            self.wf(),
        ensures
            r@.len() == GBUTTON_COUNT,
            forall|i: int|
                0 <= i < GBUTTON_COUNT ==> (#[trigger] r@[i]).0@ == gbutton_name(i) && r@[i].1@
                    == xbutton_name(self.buttons@[i] as int),
    {
        let mut r: Vec<(&'static str, &'static str)> = Vec::new();
        let mut i: usize = 0;
        while i < GBUTTON_COUNT
            invariant
                self.wf(),
                i <= GBUTTON_COUNT,
                r@.len() == i,
                forall|j: int|
                    0 <= j < i ==> (#[trigger] r@[j]).0@ == gbutton_name(j) && r@[j].1@
                        == xbutton_name(self.buttons@[j] as int),
            decreases GBUTTON_COUNT - i,
        {
            r.push((gbutton_name_at(i), xbutton_name_at(self.buttons[i])));
            i = i + 1;
        }
        r
    }
}

impl Default for Config {
    fn default() -> (r: Config)
        ensures
            r.is_default(),
            r.wf(),
    {
        let r = Config { buttons: [0, 2, 1, 3, 5, 7], auto_recenter: false, deadzone: 5, close_to_tray: true };
        assert(r.buttons@ =~= default_mapping());
        r
    }
}

/// Whether two strings hold the same characters.
pub fn str_eq(a: &str, b: &str) -> (r: bool)
    ensures
        r == (a@ == b@),
{
    let n = a.unicode_len();
    if n != b.unicode_len() {
        return false;
    }
    let mut i: usize = 0;
    while i < n
        invariant
            n == a@.len() == b@.len(),
            i <= n,
            a@.subrange(0, i as int) == b@.subrange(0, i as int),
        decreases n - i,
    {
        if a.get_char(i) != b.get_char(i) {
            assert(a@[i as int] != b@[i as int]);
            return false;
        }
        assert(a@.subrange(0, i + 1) =~= a@.subrange(0, i as int).push(a@[i as int]));
        assert(b@.subrange(0, i + 1) =~= b@.subrange(0, i as int).push(b@[i as int]));
        i = i + 1;
    }
    assert(a@ =~= a@.subrange(0, n as int));
    assert(b@ =~= b@.subrange(0, n as int));
    true
}

/// The ordinal of the first target button called `name`, if any.
pub open spec fn xbutton_index_spec(name: Seq<char>) -> Option<usize> {
    if exists|i: int| 0 <= i < XBUTTON_COUNT && xbutton_name(i) == name {
        let i = choose|i: int|
            0 <= i < XBUTTON_COUNT && xbutton_name(i) == name && forall|j: int|
                0 <= j < i ==> xbutton_name(j) != name;
        Some(i as usize)
    } else {
        None
    }
}

/// Looks up a target button by name.
pub fn xbutton_index(name: &str) -> (r: Option<usize>)
    ensures
        r matches Some(i) ==> i < XBUTTON_COUNT && xbutton_name(i as int) == name@ && forall|j: int|
            0 <= j < i ==> xbutton_name(j) != name@,
        r is None <==> forall|j: int| 0 <= j < XBUTTON_COUNT ==> xbutton_name(j) != name@,
{
    let mut i: usize = 0;
    while i < XBUTTON_COUNT
        invariant
            i <= XBUTTON_COUNT,
            forall|j: int| 0 <= j < i ==> xbutton_name(j) != name@,
        decreases XBUTTON_COUNT - i,
    {
        if str_eq(xbutton_name_at(i), name) {
            return Some(i);
        }
        i = i + 1;
    }
    None
}

/// The value of a boolean setting: exactly `true` or `false`.
pub open spec fn bool_setting(text: Seq<char>) -> Option<bool> {
    if text == "true"@ {
        Some(true)
    } else if text == "false"@ {
        Some(false)
    } else {
        None
    }
}

pub fn parse_bool(text: &str) -> (r: Option<bool>)
    ensures
        r == bool_setting(text@),
{
    if str_eq(text, "true") {
        Some(true)
    } else if str_eq(text, "false") {
        Some(false)
    } else {
        None
    }
}

pub open spec fn is_digit(c: char) -> bool {
    '0' <= c <= '9'
}

pub open spec fn all_digits(s: Seq<char>) -> bool {
    forall|i: int| 0 <= i < s.len() ==> is_digit(#[trigger] s[i])
}

/// The number written in decimal by the digits `s`.
pub open spec fn decimal_value(s: Seq<char>) -> nat
    decreases s.len(),
{
    if s.len() == 0 {
        0
    } else {
        decimal_value(s.drop_last()) * 10 + ((s.last() as nat) - ('0' as nat)) as nat
    }
}

/// The digits of an unsigned number's text, after an optional leading `+`.
pub open spec fn unsigned_digits(text: Seq<char>) -> Seq<char> {
    if text.len() > 0 && text[0] == '+' {
        text.drop_first()
    } else {
        text
    }
}

/// A byte written in decimal: an optional `+`, then at least one digit,
/// with a value that fits in a byte.
pub open spec fn u8_setting(text: Seq<char>) -> Option<u8> {
    let d = unsigned_digits(text);
    if d.len() > 0 && all_digits(d) && decimal_value(d) <= 255 {
        Some(decimal_value(d) as u8)
    } else {
        None
    }
}

/// A deadzone setting: a byte of at most the largest deadzone.
pub open spec fn deadzone_setting(text: Seq<char>) -> Option<u8> {
    match u8_setting(text) {
        Some(v) => if v <= MAX_DEADZONE {
            Some(v)
        } else {
            None
        },
        None => None,
    }
}

proof fn lemma_decimal_prefix_grows(s: Seq<char>, k: int)
    requires
        all_digits(s),
        0 <= k <= s.len(),
    ensures
        decimal_value(s.subrange(0, k)) <= decimal_value(s),
    decreases s.len() - k,
{
    if k < s.len() {
        lemma_decimal_prefix_grows(s, k + 1);
        let t = s.subrange(0, k + 1);
        assert(t.drop_last() =~= s.subrange(0, k));
    } else {
        assert(s.subrange(0, k) =~= s);
    }
}

/// Reads a byte written in decimal, as a deadzone percentage.
pub fn parse_deadzone(text: &str) -> (r: Option<u8>)
    ensures
        r == deadzone_setting(text@),
{
    let n = text.unicode_len();
    let mut start: usize = 0;
    if n > 0 && text.get_char(0) == '+' {
        start = 1;
    }
    let ghost d = unsigned_digits(text@);
    assert(d =~= text@.subrange(start as int, n as int));
    if start == n {
        return None;
    }
    let mut value: u32 = 0;
    let mut i: usize = start;
    while i < n
        invariant
            d == unsigned_digits(text@),
            d == text@.subrange(start as int, n as int),
            n == text@.len(),
            start < n,
            start <= i <= n,
            all_digits(d.subrange(0, i - start)),
            value as nat == decimal_value(d.subrange(0, i - start)),
            value <= 255,
        decreases n - i,
    {
        let c = text.get_char(i);
        let ghost k = i - start;
        assert(d[k] == c);
        if c < '0' || c > '9' {
            assert(!is_digit(d[k]));
            assert(!all_digits(d));
            return None;
        }
        let digit = (c as u32) - ('0' as u32);
        let ghost prefix = d.subrange(0, k + 1);
        assert(prefix.drop_last() =~= d.subrange(0, k));
        assert(prefix.last() == c);
        assert(all_digits(prefix)) by {
            assert forall|j: int| 0 <= j < prefix.len() implies is_digit(#[trigger] prefix[j]) by {
                if j < k {
                    assert(prefix[j] == d.subrange(0, k)[j]);
                }
            }
        }
        value = value * 10 + digit;
        assert(value as nat == decimal_value(prefix));
        if value > 255 {
            proof {
                if all_digits(d) {
                    lemma_decimal_prefix_grows(d, k + 1);
                }
            }
            return None;
        }
        i = i + 1;
    }
    assert(d.subrange(0, n - start) =~= d);
    if value > 100 {
        return None;
    }
    Some(value as u8)
}

impl Config {
    /// Maps the GameCube button `gc` to the target button called `name`.
    /// An unknown name leaves the configuration unchanged and returns false.
    pub fn set_button_by_name(&mut self, gc: usize, name: &str) -> (ok: bool)
        requires
            old(self).wf(),
            gc < GBUTTON_COUNT,
        ensures
            final(self).wf(),
            ok == (xbutton_index_spec(name@) is Some),
            ok ==> final(self).buttons@ == old(self).buttons@.update(gc as int, xbutton_index_spec(name@)->0),
            !ok ==> *final(self) == *old(self),
            final(self).deadzone == old(self).deadzone,
            final(self).auto_recenter == old(self).auto_recenter,
            final(self).close_to_tray == old(self).close_to_tray,
    {
        match xbutton_index(name) {
            Some(id) => {
                proof {
                    let i = id as int;
                    assert(0 <= i < XBUTTON_COUNT && xbutton_name(i) == name@ && forall|j: int|
                        0 <= j < i ==> xbutton_name(j) != name@);
                    let c = choose|c: int|
                        0 <= c < XBUTTON_COUNT && xbutton_name(c) == name@ && forall|j: int|
                            0 <= j < c ==> xbutton_name(j) != name@;
                    assert(c == i) by {
                        if c < i {
                            assert(xbutton_name(c) != name@);
                        } else if i < c {
                            assert(xbutton_name(i) != name@);
                        }
                    }
                }
                self.buttons[gc] = id;
                true
            },
            None => false,
        }
    }

    /// Sets the deadzone from its text. Invalid text leaves the
    /// configuration unchanged and returns false.
    pub fn set_deadzone_text(&mut self, text: &str) -> (ok: bool)
        requires
            old(self).wf(),
        ensures
            final(self).wf(),
            ok == (deadzone_setting(text@) is Some),
            ok ==> *final(self) == (Config { deadzone: deadzone_setting(text@)->0, ..*old(self) }),
            !ok ==> *final(self) == *old(self),
    {
        match parse_deadzone(text) {
            Some(v) => {
                self.deadzone = v;
                true
            },
            None => false,
        }
    }
}

} // verus!
