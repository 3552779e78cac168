//! The settings document: reading a configuration from it and writing one
//! to it, through the `ini` crate.

use vstd::prelude::*;
use crate::config::{
    Config, bool_setting, deadzone_setting, default_mapping, gbutton_name, gbutton_name_at, parse_bool,
    xbutton_index_spec, xbutton_name, xbutton_name_at, GBUTTON_COUNT, XBUTTON_COUNT,
};

verus! {

/// The settings file's contents: for each named section (the first of that
/// name), the value of each key (the first of that key).
pub uninterp spec fn ini_sections(ini: ini::Ini) -> Map<Seq<char>, Map<Seq<char>, Seq<char>>>;

/// The decimal text of a byte, as integers are displayed.
pub open spec fn decimal_text(v: u8) -> Seq<char> {
    let d0 = ((v % 10) + 48) as char;
    let d1 = (((v / 10) % 10) + 48) as char;
    let d2 = ((v / 100) + 48) as char;
    if v >= 100 {
        seq![d2, d1, d0]
    } else if v >= 10 {
        seq![d1, d0]
    } else {
        seq![d0]
    }
}

/// The value of `key` in section `section`, if both exist.
pub open spec fn ini_value(
    sections: Map<Seq<char>, Map<Seq<char>, Seq<char>>>,
    section: Seq<char>,
    key: Seq<char>,
) -> Option<Seq<char>> {
    if sections.contains_key(section) && sections[section].contains_key(key) {
        Some(sections[section][key])
    } else {
        None
    }
}

/// `sections` after `key` is set to `value` in section `section`, which is
/// created if missing.
pub open spec fn ini_set_spec(
    sections: Map<Seq<char>, Map<Seq<char>, Seq<char>>>,
    section: Seq<char>,
    key: Seq<char>,
    value: Seq<char>,
) -> Map<Seq<char>, Map<Seq<char>, Seq<char>>> {
    let props = if sections.contains_key(section) {
        sections[section]
    } else {
        Map::empty()
    };
    sections.insert(section, props.insert(key, value))
}

#[verifier::external_type_specification]
#[verifier::external_body]
pub struct ExIni(ini::Ini);

/// Relies on `ini::Ini::get_from`: the first value of `key` in the first
/// section named `section`.
#[verifier::external_body]
fn ini_get_from(ini: &ini::Ini, section: &str, key: &str) -> (r: Option<String>)
    ensures
        r.deep_view() == ini_value(ini_sections(*ini), section@, key@),
{
    ini.get_from(Some(section), key).map(String::from)
}

/// Relies on `ini::Ini::section`: whether a section of that name exists.
#[verifier::external_body]
fn ini_has_section(ini: &ini::Ini, section: &str) -> (r: bool)
    ensures
        r == ini_sections(*ini).contains_key(section@),
{
    ini.section(Some(section)).is_some()
}

/// Relies on `ini::Ini::new`: an empty document.
#[verifier::external_body]
fn ini_new() -> (r: ini::Ini)
    ensures
        ini_sections(r) == IniView::empty(),
{
    ini::Ini::new()
}

/// Relies on `ini::Ini::set_to`: in the first section named `section`
/// (appended if missing), `key` then has the single value `value`.
#[verifier::external_body]
fn ini_set_to(ini: &mut ini::Ini, section: &str, key: &str, value: &str)
    ensures
        ini_sections(*final(ini)) == ini_set_spec(ini_sections(*old(ini)), section@, key@, value@),
{
    ini.set_to(Some(section), String::from(key), String::from(value))
}

/// Relies on the `Display` of integers, through `ToString`: decimal digits
/// without leading zeros.
#[verifier::external_body]
fn byte_text(v: u8) -> (r: String)
    ensures
        r@ == decimal_text(v),
{
    v.to_string()
}

pub open spec fn buttons_section() -> Seq<char> {
    "Buttons"@
}

pub open spec fn controller_section() -> Seq<char> {
    "Controller"@
}

pub open spec fn application_section() -> Seq<char> {
    "Application"@
}

pub open spec fn auto_recenter_key() -> Seq<char> {
    "AutoRecenter"@
}

pub open spec fn deadzone_key() -> Seq<char> {
    "Deadzone"@
}

pub open spec fn close_to_tray_key() -> Seq<char> {
    "CloseToTray"@
}

pub open spec fn bool_text(b: bool) -> Seq<char> {
    if b {
        "true"@
    } else {
        "false"@
    }
}

/// Something in the settings that was missing or invalid, so that a
/// default was used.
#[derive(Clone, Copy, Debug, PartialEq, Eq, Structural)]
pub enum LoadNote {
    ButtonsSectionMissing,
    /// No mapping for the GameCube button with this ordinal.
    ButtonMissing(usize),
    /// The mapping for the GameCube button with this ordinal names no target button.
    ButtonInvalid(usize),
    ControllerSectionMissing,
    AutoRecenterMissing,
    AutoRecenterInvalid,
    DeadzoneMissing,
    DeadzoneInvalid,
    ApplicationSectionMissing,
    CloseToTrayMissing,
    CloseToTrayInvalid,
}

pub type IniView = Map<Seq<char>, Map<Seq<char>, Seq<char>>>;

/// The mapping loaded for GameCube button `i`.
pub open spec fn loaded_button(view: IniView, i: int) -> usize {
    match ini_value(view, buttons_section(), gbutton_name(i)) {
        Some(name) => match xbutton_index_spec(name) {
            Some(x) => x,
            None => default_mapping()[i],
        },
        None => default_mapping()[i],
    }
}

pub open spec fn loaded_bool(view: IniView, section: Seq<char>, key: Seq<char>, default: bool) -> bool {
    match ini_value(view, section, key) {
        Some(text) => match bool_setting(text) {
            Some(b) => b,
            None => default,
        },
        None => default,
    }
}

pub open spec fn loaded_deadzone(view: IniView) -> u8 {
    match ini_value(view, controller_section(), deadzone_key()) {
        Some(text) => match deadzone_setting(text) {
            Some(v) => v,
            None => 5,
        },
        None => 5,
    }
}

/// The configuration read from settings: each setting that is present and
/// valid, and the default for each other one.
pub open spec fn loaded_config_matches(c: Config, view: IniView) -> bool {
    &&& c.buttons@ == Seq::new(6, |i: int| loaded_button(view, i))
    &&& c.auto_recenter == loaded_bool(view, controller_section(), auto_recenter_key(), false)
    &&& c.deadzone == loaded_deadzone(view)
    &&& c.close_to_tray == loaded_bool(view, application_section(), close_to_tray_key(), true)
}

pub open spec fn button_note(view: IniView, i: int) -> Seq<LoadNote> {
    match ini_value(view, buttons_section(), gbutton_name(i)) {
        Some(name) => if xbutton_index_spec(name) is None {
            seq![LoadNote::ButtonInvalid(i as usize)]
        } else {
            seq![]
        },
        None => seq![LoadNote::ButtonMissing(i as usize)],
    }
}

pub open spec fn button_notes(view: IniView, n: nat) -> Seq<LoadNote>
    decreases n,
{
    if n == 0 {
        seq![]
    } else {
        button_notes(view, (n - 1) as nat) + button_note(view, n - 1)
    }
}

pub open spec fn bool_note(
    view: IniView,
    section: Seq<char>,
    key: Seq<char>,
    missing: LoadNote,
    invalid: LoadNote,
) -> Seq<LoadNote> {
    match ini_value(view, section, key) {
        Some(text) => if bool_setting(text) is None {
            seq![invalid]
        } else {
            seq![]
        },
        None => seq![missing],
    }
}

pub open spec fn deadzone_note(view: IniView) -> Seq<LoadNote> {
    match ini_value(view, controller_section(), deadzone_key()) {
        Some(text) => if deadzone_setting(text) is None {
            seq![LoadNote::DeadzoneInvalid]
        } else {
            seq![]
        },
        None => seq![LoadNote::DeadzoneMissing],
    }
}

/// The notes of a load, section by section in file order.
pub open spec fn load_notes(view: IniView) -> Seq<LoadNote> {
    let buttons = if view.contains_key(buttons_section()) {
        button_notes(view, 6)
    } else {
        seq![LoadNote::ButtonsSectionMissing]
    };
    let controller = if view.contains_key(controller_section()) {
        bool_note(
            view,
            controller_section(),
            auto_recenter_key(),
            LoadNote::AutoRecenterMissing,
            LoadNote::AutoRecenterInvalid,
        ) + deadzone_note(view)
    } else {
        seq![LoadNote::ControllerSectionMissing]
    };
    let application = if view.contains_key(application_section()) {
        bool_note(
            view,
            application_section(),
            close_to_tray_key(),
            LoadNote::CloseToTrayMissing,
            LoadNote::CloseToTrayInvalid,
        )
    } else {
        seq![LoadNote::ApplicationSectionMissing]
    };
    buttons + controller + application
}

/// Reads a boolean setting into `out`, noting why it was left alone.
fn load_bool(
    ini: &ini::Ini,
    section: &str,
    key: &str,
    out: &mut bool,
    notes: &mut Vec<LoadNote>,
    missing: LoadNote,
    invalid: LoadNote,
)
    ensures
        *final(out) == loaded_bool(ini_sections(*ini), section@, key@, *old(out)),
        final(notes)@ == old(notes)@ + bool_note(ini_sections(*ini), section@, key@, missing, invalid),
{
    match ini_get_from(ini, section, key) {
        Some(text) => match parse_bool(text.as_str()) {
            Some(b) => {
                *out = b;
            },
            None => {
                notes.push(invalid);
            },
        },
        None => {
            notes.push(missing);
        },
    }
}

impl Config {
    /// The configuration held by a settings document, with a note for
    /// each setting that was missing or invalid and left at its default.
    pub fn from_ini(ini: &ini::Ini) -> (r: (Config, Vec<LoadNote>))
        ensures
            r.0.wf(),
            loaded_config_matches(r.0, ini_sections(*ini)),
            r.1@ == load_notes(ini_sections(*ini)),
    {
        let ghost view = ini_sections(*ini);
        let mut config = Config::default();
        let mut notes: Vec<LoadNote> = Vec::new();
        if ini_has_section(ini, "Buttons") {
            let mut i: usize = 0;
            while i < GBUTTON_COUNT
                invariant
                    view == ini_sections(*ini),
                    i <= GBUTTON_COUNT,
                    config.wf(),
                    config.is_default() || i > 0,
                    !config.auto_recenter && config.deadzone == 5 && config.close_to_tray,
                    forall|j: int| 0 <= j < i ==> #[trigger] config.buttons@[j] == loaded_button(view, j),
                    forall|j: int| i <= j < 6 ==> #[trigger] config.buttons@[j] == default_mapping()[j],
                    notes@ == button_notes(view, i as nat),
                decreases GBUTTON_COUNT - i,
            {
                let ghost before = config;
                match ini_get_from(ini, "Buttons", gbutton_name_at(i)) {
                    Some(name) => {
                        let ok = config.set_button_by_name(i, name.as_str());
                        if !ok {
                            notes.push(LoadNote::ButtonInvalid(i));
                        }
                    },
                    None => {
                        notes.push(LoadNote::ButtonMissing(i));
                    },
                }
                assert(notes@ =~= button_notes(view, (i + 1) as nat));
                i = i + 1;
            }
        } else {
            notes.push(LoadNote::ButtonsSectionMissing);
            assert forall|j: int| 0 <= j < 6 implies #[trigger] config.buttons@[j] == loaded_button(view, j) by {
                assert(!view.contains_key(buttons_section()));
            }
        }
        assert(config.buttons@ =~= Seq::new(6, |i: int| loaded_button(view, i)));
        let ghost after_buttons = notes@;
        if ini_has_section(ini, "Controller") {
            let mut auto_recenter = config.auto_recenter;
            load_bool(
                ini,
                "Controller",
                "AutoRecenter",
                &mut auto_recenter,
                &mut notes,
                LoadNote::AutoRecenterMissing,
                LoadNote::AutoRecenterInvalid,
            );
            config.auto_recenter = auto_recenter;
            match ini_get_from(ini, "Controller", "Deadzone") {
                Some(text) => {
                    if !config.set_deadzone_text(text.as_str()) {
                        notes.push(LoadNote::DeadzoneInvalid);
                    }
                },
                None => {
                    notes.push(LoadNote::DeadzoneMissing);
                },
            }
        } else {
            notes.push(LoadNote::ControllerSectionMissing);
        }
        let ghost after_controller = notes@;
        if ini_has_section(ini, "Application") {
            let mut close_to_tray = config.close_to_tray;
            load_bool(
                ini,
                "Application",
                "CloseToTray",
                &mut close_to_tray,
                &mut notes,
                LoadNote::CloseToTrayMissing,
                LoadNote::CloseToTrayInvalid,
            );
            config.close_to_tray = close_to_tray;
        } else {
            notes.push(LoadNote::ApplicationSectionMissing);
        }
        assert(notes@ =~= load_notes(view));
        (config, notes)
    }
}

/// The document holding the first `n` button mappings of `c`.
pub open spec fn saved_buttons(c: Config, n: nat) -> IniView
    decreases n,
{
    if n == 0 {
        IniView::empty()
    } else {
        ini_set_spec(
            saved_buttons(c, (n - 1) as nat),
            buttons_section(),
            gbutton_name(n - 1),
            xbutton_name(c.buttons@[n - 1] as int),
        )
    }
}

/// The document a configuration is saved as: the button mappings by name,
/// then the controller settings, then the application settings.
pub open spec fn saved_sections(c: Config) -> IniView {
    let with_recenter = ini_set_spec(
        saved_buttons(c, 6),
        controller_section(),
        auto_recenter_key(),
        bool_text(c.auto_recenter),
    );
    let with_deadzone = ini_set_spec(with_recenter, controller_section(), deadzone_key(), decimal_text(c.deadzone));
    ini_set_spec(with_deadzone, application_section(), close_to_tray_key(), bool_text(c.close_to_tray))
}

fn bool_str(b: bool) -> (r: &'static str)
    ensures
        r@ == bool_text(b),
{
    if b {
        "true"
    } else {
        "false"
    }
}

impl Config {
    /// The settings document this configuration is saved as.
    pub fn to_ini(&self) -> (r: ini::Ini)
        requires
            self.wf(),
        ensures
            ini_sections(r) == saved_sections(*self),
    {
        let mut ini = ini_new();
        let mut i: usize = 0;
        while i < GBUTTON_COUNT
            invariant
                self.wf(),
                i <= GBUTTON_COUNT,
                ini_sections(ini) == saved_buttons(*self, i as nat),
            decreases GBUTTON_COUNT - i,
        {
            ini_set_to(&mut ini, "Buttons", gbutton_name_at(i), xbutton_name_at(self.buttons[i]));
            i = i + 1;
        }
        ini_set_to(&mut ini, "Controller", "AutoRecenter", bool_str(self.auto_recenter));
        let deadzone = byte_text(self.deadzone);
        ini_set_to(&mut ini, "Controller", "Deadzone", deadzone.as_str());
        ini_set_to(&mut ini, "Application", "CloseToTray", bool_str(self.close_to_tray));
        ini
    }
}

proof fn lemma_xbutton_names_distinct(i: int, j: int)
    requires
        0 <= i < XBUTTON_COUNT,
        0 <= j < XBUTTON_COUNT,
        i != j,
    ensures
        xbutton_name(i) != xbutton_name(j),
{
    reveal_strlit("A");
    reveal_strlit("B");
    reveal_strlit("X");
    reveal_strlit("Y");
    reveal_strlit("LB");
    reveal_strlit("RB");
    reveal_strlit("Back");
    reveal_strlit("Start");
    reveal_strlit("LS");
    reveal_strlit("RS");
    reveal_strlit("Guide");
    let a = xbutton_name(i);
    let b = xbutton_name(j);
    if a == b {
        assert(a.len() == b.len() && a[0] == b[0] && a[a.len() - 1] == b[b.len() - 1]);
    }
}

proof fn lemma_xbutton_lookup(k: int)
    requires
        0 <= k < XBUTTON_COUNT,
    ensures
        xbutton_index_spec(xbutton_name(k)) == Some(k as usize),
{
    let name = xbutton_name(k);
    assert(0 <= k < XBUTTON_COUNT && xbutton_name(k) == name);
    let c = choose|c: int|
        0 <= c < XBUTTON_COUNT && xbutton_name(c) == name && forall|j: int|
            0 <= j < c ==> xbutton_name(j) != name;
    if c != k {
        lemma_xbutton_names_distinct(c, k);
    }
    if exists|j: int| 0 <= j < k && xbutton_name(j) == name {
        let j = choose|j: int| 0 <= j < k && xbutton_name(j) == name;
        lemma_xbutton_names_distinct(j, k);
    }
}

proof fn lemma_gbutton_names_distinct(i: int, j: int)
    requires
        0 <= i < GBUTTON_COUNT,
        0 <= j < GBUTTON_COUNT,
        i != j,
    ensures
        gbutton_name(i) != gbutton_name(j),
{
    reveal_strlit("A");
    reveal_strlit("B");
    reveal_strlit("X");
    reveal_strlit("Y");
    reveal_strlit("Z");
    reveal_strlit("Start");
    let a = gbutton_name(i);
    let b = gbutton_name(j);
    if a == b {
        assert(a.len() == b.len() && a[0] == b[0]);
    }
}

proof fn lemma_saved_buttons(c: Config, n: nat)
    requires
        n <= 6,
    ensures
        n > 0 ==> saved_buttons(c, n).contains_key(buttons_section()),
        forall|s: Seq<char>| s != buttons_section() ==> !#[trigger] saved_buttons(c, n).contains_key(s),
        forall|i: int|
            0 <= i < n ==> #[trigger] ini_value(saved_buttons(c, n), buttons_section(), gbutton_name(i))
                == Some(xbutton_name(c.buttons@[i] as int)),
    decreases n,
{
    if n > 0 {
        let m = (n - 1) as nat;
        lemma_saved_buttons(c, m);
        let prev = saved_buttons(c, m);
        let cur = saved_buttons(c, n);
        assert(cur == ini_set_spec(prev, buttons_section(), gbutton_name(m as int), xbutton_name(c.buttons@[m as int] as int)));
        assert forall|i: int| 0 <= i < n implies #[trigger] ini_value(cur, buttons_section(), gbutton_name(i))
            == Some(xbutton_name(c.buttons@[i] as int)) by {
            if i < m {
                lemma_gbutton_names_distinct(i, m as int);
                assert(ini_value(prev, buttons_section(), gbutton_name(i)) == Some(xbutton_name(c.buttons@[i] as int)));
            }
        }
    }
}

proof fn lemma_decimal_round_trip(v: u8)
    requires
        v <= 100,
    ensures
        deadzone_setting(decimal_text(v)) == Some(v),
{
    let t = decimal_text(v);
    let d0 = ((v % 10) + 48) as char;
    let d1 = (((v / 10) % 10) + 48) as char;
    let d2 = ((v / 100) + 48) as char;
    assert(d0 as nat == (v % 10) + 48);
    assert(d1 as nat == ((v / 10) % 10) + 48);
    assert(d2 as nat == (v / 100) + 48);
    assert(crate::config::unsigned_digits(t) == t);
    reveal_with_fuel(crate::config::decimal_value, 4);
    if v >= 100 {
        assert(t =~= seq![d2, d1, d0]);
        assert(t.drop_last() =~= seq![d2, d1]);
        assert(t.drop_last().drop_last() =~= seq![d2]);
        assert(t.drop_last().drop_last().drop_last() =~= Seq::<char>::empty());
        assert(crate::config::decimal_value(t) == v);
    } else if v >= 10 {
        assert(t.drop_last() =~= seq![d1]);
        assert(t.drop_last().drop_last() =~= Seq::<char>::empty());
        assert(crate::config::decimal_value(t) == v);
    } else {
        assert(t.drop_last() =~= Seq::<char>::empty());
        assert(crate::config::decimal_value(t) == v);
    }
}

/// Saving a configuration and loading the document back gives the same
/// configuration, with nothing missing or invalid.
pub proof fn save_then_load(c: Config, loaded: Config)
    requires
        c.wf(),
        loaded_config_matches(loaded, saved_sections(c)),
    ensures
        loaded.buttons@ == c.buttons@,
        loaded.auto_recenter == c.auto_recenter,
        loaded.deadzone == c.deadzone,
        loaded.close_to_tray == c.close_to_tray,
        load_notes(saved_sections(c)) == Seq::<LoadNote>::empty(),
{
    let view = saved_sections(c);
    lemma_saved_buttons(c, 6);
    reveal_strlit("Buttons");
    reveal_strlit("Controller");
    reveal_strlit("Application");
    reveal_strlit("AutoRecenter");
    reveal_strlit("Deadzone");
    reveal_strlit("CloseToTray");
    reveal_strlit("true");
    reveal_strlit("false");
    assert("Buttons"@[0] == 'B' && "Controller"@[0] == 'C' && "Application"@[0] == 'A');
    assert("AutoRecenter"@[0] == 'A' && "Deadzone"@[0] == 'D');
    assert("true"@[0] == 't' && "false"@[0] == 'f');
    assert(buttons_section() != controller_section());
    assert(buttons_section() != application_section());
    assert(controller_section() != application_section());
    assert(auto_recenter_key() != deadzone_key());
    assert forall|i: int| 0 <= i < 6 implies #[trigger] ini_value(view, buttons_section(), gbutton_name(i))
        == Some(xbutton_name(c.buttons@[i] as int)) && xbutton_index_spec(xbutton_name(c.buttons@[i] as int))
        == Some(c.buttons@[i]) by {
        assert(ini_value(saved_buttons(c, 6), buttons_section(), gbutton_name(i)) == Some(
            xbutton_name(c.buttons@[i] as int),
        ));
        lemma_xbutton_lookup(c.buttons@[i] as int);
    }
    assert forall|i: int| 0 <= i < 6 implies #[trigger] loaded_button(view, i) == c.buttons@[i] by {
        assert(ini_value(view, buttons_section(), gbutton_name(i)) == Some(xbutton_name(c.buttons@[i] as int)));
    }
    assert(loaded.buttons@ =~= c.buttons@);
    lemma_decimal_round_trip(c.deadzone);
    assert(ini_value(view, controller_section(), deadzone_key()) == Some(decimal_text(c.deadzone)));
    assert(ini_value(view, controller_section(), auto_recenter_key()) == Some(bool_text(c.auto_recenter)));
    assert(ini_value(view, application_section(), close_to_tray_key()) == Some(bool_text(c.close_to_tray)));
    assert(button_notes(view, 6) =~= Seq::<LoadNote>::empty()) by {
        reveal_with_fuel(button_notes, 7);
        assert(ini_value(view, buttons_section(), gbutton_name(0)) == Some(xbutton_name(c.buttons@[0] as int)));
        assert(button_note(view, 0) =~= Seq::<LoadNote>::empty());
        assert(ini_value(view, buttons_section(), gbutton_name(1)) == Some(xbutton_name(c.buttons@[1] as int)));
        assert(button_note(view, 1) =~= Seq::<LoadNote>::empty());
        assert(ini_value(view, buttons_section(), gbutton_name(2)) == Some(xbutton_name(c.buttons@[2] as int)));
        assert(button_note(view, 2) =~= Seq::<LoadNote>::empty());
        assert(ini_value(view, buttons_section(), gbutton_name(3)) == Some(xbutton_name(c.buttons@[3] as int)));
        assert(button_note(view, 3) =~= Seq::<LoadNote>::empty());
        assert(ini_value(view, buttons_section(), gbutton_name(4)) == Some(xbutton_name(c.buttons@[4] as int)));
        assert(button_note(view, 4) =~= Seq::<LoadNote>::empty());
        assert(ini_value(view, buttons_section(), gbutton_name(5)) == Some(xbutton_name(c.buttons@[5] as int)));
        assert(button_note(view, 5) =~= Seq::<LoadNote>::empty());
    }
    assert(load_notes(view) =~= Seq::<LoadNote>::empty());
}

} // verus!
