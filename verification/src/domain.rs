//! The typed vocabulary of the control tool: brightness levels, power
//! profiles, lighting modes, LED-bar modes, and the aggregates built from
//! them, with their bidirectional string conversions.

use vstd::prelude::*;
use crate::error::AsusctlError;
use crate::error::is_parse_error;
use crate::error::parse_error;
use crate::text::eq_lower;
use crate::text::str_eq;
use crate::text::to_lower;

verus! {

// ---------------------------------------------------------------------------
// Keyboard brightness
// ---------------------------------------------------------------------------

/// Keyboard backlight level; the ordinal 0-3 matches the property-bus
/// numeric encoding.
#[derive(Debug, Clone, Copy, PartialEq, Eq, Structural)]
pub enum KeyboardBrightness {
    Off,
    Low,
    Med,
    High,
}

/// Case-insensitive reading of a brightness name; the canonical lowercase
/// form is what `KeyboardBrightness::as_str` prints.
pub open spec fn brightness_of_str(s: Seq<char>) -> Option<KeyboardBrightness> {
    if to_lower(s) == "off"@ {
        Some(KeyboardBrightness::Off)
    } else if to_lower(s) == "low"@ {
        Some(KeyboardBrightness::Low)
    } else if to_lower(s) == "med"@ {
        Some(KeyboardBrightness::Med)
    } else if to_lower(s) == "high"@ {
        Some(KeyboardBrightness::High)
    } else {
        None
    }
}

impl KeyboardBrightness {
    /// Canonical lowercase name, as the command line expects it.
    pub open spec fn spec_name(self) -> Seq<char> {
        match self {
            KeyboardBrightness::Off => "off"@,
            KeyboardBrightness::Low => "low"@,
            KeyboardBrightness::Med => "med"@,
            KeyboardBrightness::High => "high"@,
        }
    }

    /// Canonical lowercase name, as the command line expects it.
    pub fn as_str(&self) -> (r: &'static str)
        ensures
            r@ == self.spec_name(),
    {
        match self {
            KeyboardBrightness::Off => "off",
            KeyboardBrightness::Low => "low",
            KeyboardBrightness::Med => "med",
            KeyboardBrightness::High => "high",
        }
    }

    /// Parse a brightness name, ignoring ASCII letter case.
    pub fn from_str(s: &str) -> (r: Result<KeyboardBrightness, AsusctlError>)
        ensures
            brightness_of_str(s@) is Some ==> r == Ok::<KeyboardBrightness, AsusctlError>(
                brightness_of_str(s@)->Some_0,
            ),
            brightness_of_str(s@) is None ==> r is Err && is_parse_error(
                r->Err_0,
                "Unknown brightness level: "@ + s@,
            ),
    {
        if eq_lower(s, "off") {
            Ok(KeyboardBrightness::Off)
        } else if eq_lower(s, "low") {
            Ok(KeyboardBrightness::Low)
        } else if eq_lower(s, "med") {
            Ok(KeyboardBrightness::Med)
        } else if eq_lower(s, "high") {
            Ok(KeyboardBrightness::High)
        } else {
            Err(parse_error("Unknown brightness level: ", s))
        }
    }

    /// The level a property-bus numeric value denotes, if any.
    pub open spec fn spec_from_code(v: u32) -> Option<KeyboardBrightness> {
        if v == 0 {
            Some(KeyboardBrightness::Off)
        } else if v == 1 {
            Some(KeyboardBrightness::Low)
        } else if v == 2 {
            Some(KeyboardBrightness::Med)
        } else if v == 3 {
            Some(KeyboardBrightness::High)
        } else {
            None
        }
    }
}

impl Default for KeyboardBrightness {
    /// The level assumed whenever no better answer exists.
    fn default() -> (r: Self)
        ensures
            r == KeyboardBrightness::High,
    {
        KeyboardBrightness::High
    }
}

/// Brightness names round-trip: a string parses to a level exactly when its
/// ASCII-lowered form is the level's canonical name, and the canonical name
/// is already lowercase, so parsing any letter-casing of a printed name
/// gives the level back.
pub proof fn lemma_brightness_round_trip(s: Seq<char>, level: KeyboardBrightness)
    ensures
        brightness_of_str(s) == Some(level) <==> to_lower(s) == level.spec_name(),
        to_lower(level.spec_name()) == level.spec_name(),
        brightness_of_str(level.spec_name()) == Some(level),
{
    reveal_strlit("off");
    reveal_strlit("low");
    reveal_strlit("med");
    reveal_strlit("high");
    assert(to_lower("off"@) =~= "off"@);
    assert(to_lower("low"@) =~= "low"@);
    assert(to_lower("med"@) =~= "med"@);
    assert(to_lower("high"@) =~= "high"@);
    assert("off"@[0] != "low"@[0] && "off"@[0] != "med"@[0] && "low"@[0] != "med"@[0]);
    assert("high"@.len() != "off"@.len());
}

// ---------------------------------------------------------------------------
// Power profiles
// ---------------------------------------------------------------------------

/// Platform power profile; the ordinal 0-2 matches the property-bus numeric
/// encoding.
#[derive(Debug, Clone, Copy, PartialEq, Eq, Structural)]
pub enum PowerProfile {
    Quiet,
    Balanced,
    Performance,
}

/// Case-insensitive reading of a profile name; the canonical capitalized
/// form is what `PowerProfile::as_str` prints.
pub open spec fn profile_of_str(s: Seq<char>) -> Option<PowerProfile> {
    if to_lower(s) == "quiet"@ {
        Some(PowerProfile::Quiet)
    } else if to_lower(s) == "balanced"@ {
        Some(PowerProfile::Balanced)
    } else if to_lower(s) == "performance"@ {
        Some(PowerProfile::Performance)
    } else {
        None
    }
}

impl PowerProfile {
    /// Canonical capitalized name, as the control tool prints and accepts it.
    pub open spec fn spec_name(self) -> Seq<char> {
        match self {
            PowerProfile::Quiet => "Quiet"@,
            PowerProfile::Balanced => "Balanced"@,
            PowerProfile::Performance => "Performance"@,
        }
    }

    /// Canonical capitalized name, as the control tool prints and accepts it.
    pub fn as_str(&self) -> (r: &'static str)
        ensures
            r@ == self.spec_name(),
    {
        match self {
            PowerProfile::Quiet => "Quiet",
            PowerProfile::Balanced => "Balanced",
            PowerProfile::Performance => "Performance",
        }
    }

    /// The distinct vocabulary of the secondary power-management tool.
    pub open spec fn spec_ppd_name(self) -> Seq<char> {
        match self {
            PowerProfile::Quiet => "power-saver"@,
            PowerProfile::Balanced => "balanced"@,
            PowerProfile::Performance => "performance"@,
        }
    }

    /// The name the secondary power-management tool uses for this profile.
    pub fn ppd_name(&self) -> (r: &'static str)
        ensures
            r@ == self.spec_ppd_name(),
    {
        match self {
            PowerProfile::Quiet => "power-saver",
            PowerProfile::Balanced => "balanced",
            PowerProfile::Performance => "performance",
        }
    }

    /// Parse a profile name, ignoring ASCII letter case.
    pub fn from_str(s: &str) -> (r: Result<PowerProfile, AsusctlError>)
        ensures
            profile_of_str(s@) is Some ==> r == Ok::<PowerProfile, AsusctlError>(
                profile_of_str(s@)->Some_0,
            ),
            profile_of_str(s@) is None ==> r is Err && is_parse_error(
                r->Err_0,
                "Unknown power profile: "@ + s@,
            ),
    {
        if eq_lower(s, "quiet") {
            Ok(PowerProfile::Quiet)
        } else if eq_lower(s, "balanced") {
            Ok(PowerProfile::Balanced)
        } else if eq_lower(s, "performance") {
            Ok(PowerProfile::Performance)
        } else {
            Err(parse_error("Unknown power profile: ", s))
        }
    }

    /// The profile a property-bus numeric value denotes, if any.
    pub open spec fn spec_from_code(v: u32) -> Option<PowerProfile> {
        if v == 0 {
            Some(PowerProfile::Quiet)
        } else if v == 1 {
            Some(PowerProfile::Balanced)
        } else if v == 2 {
            Some(PowerProfile::Performance)
        } else {
            None
        }
    }
}

impl Default for PowerProfile {
    /// The profile assumed whenever no better answer exists.
    fn default() -> (r: Self)
        ensures
            r == PowerProfile::Balanced,
    {
        PowerProfile::Balanced
    }
}

/// The three profile slots reported by `profile --profile-get`.
#[derive(Debug, Clone, Copy, PartialEq, Eq, Structural)]
pub struct ProfileState {
    pub active: PowerProfile,
    pub on_ac: PowerProfile,
    pub on_battery: PowerProfile,
}

impl Default for ProfileState {
    /// All three slots at the default profile.
    fn default() -> (r: Self)
        ensures
            r.active == PowerProfile::Balanced,
            r.on_ac == PowerProfile::Balanced,
            r.on_battery == PowerProfile::Balanced,
    {
        ProfileState {
            active: PowerProfile::Balanced,
            on_ac: PowerProfile::Balanced,
            on_battery: PowerProfile::Balanced,
        }
    }
}

/// Profile names round-trip: a string parses to a profile exactly when its
/// ASCII-lowered form matches the lowered canonical name, and the canonical
/// capitalized name itself parses back to the profile.
pub proof fn lemma_profile_round_trip(s: Seq<char>, p: PowerProfile)
    ensures
        profile_of_str(s) == Some(p) <==> to_lower(s) == to_lower(p.spec_name()),
        profile_of_str(p.spec_name()) == Some(p),
{
    reveal_strlit("Quiet");
    reveal_strlit("Balanced");
    reveal_strlit("Performance");
    reveal_strlit("quiet");
    reveal_strlit("balanced");
    reveal_strlit("performance");
    assert(to_lower("Quiet"@) =~= "quiet"@);
    assert(to_lower("Balanced"@) =~= "balanced"@);
    assert(to_lower("Performance"@) =~= "performance"@);
    assert("quiet"@[0] != "balanced"@[0] && "quiet"@[0] != "performance"@[0] && "balanced"@[0]
        != "performance"@[0]);
}

// ---------------------------------------------------------------------------
// Aura modes
// ---------------------------------------------------------------------------

/// Keyboard lighting animation mode.
#[derive(Debug, Clone, Copy, PartialEq, Eq, Structural)]
pub enum AuraMode {
    Static,
    Breathe,
    Pulse,
}

/// Case-insensitive reading of an aura mode name.
pub open spec fn aura_mode_of_str(s: Seq<char>) -> Option<AuraMode> {
    if to_lower(s) == "static"@ {
        Some(AuraMode::Static)
    } else if to_lower(s) == "breathe"@ {
        Some(AuraMode::Breathe)
    } else if to_lower(s) == "pulse"@ {
        Some(AuraMode::Pulse)
    } else {
        None
    }
}

impl AuraMode {
    /// Canonical capitalized name.
    pub open spec fn spec_name(self) -> Seq<char> {
        match self {
            AuraMode::Static => "Static"@,
            AuraMode::Breathe => "Breathe"@,
            AuraMode::Pulse => "Pulse"@,
        }
    }

    /// Canonical capitalized name.
    pub fn as_str(&self) -> (r: &'static str)
        ensures
            r@ == self.spec_name(),
    {
        match self {
            AuraMode::Static => "Static",
            AuraMode::Breathe => "Breathe",
            AuraMode::Pulse => "Pulse",
        }
    }

    /// Parse an aura mode name, ignoring ASCII letter case.
    pub fn from_str(s: &str) -> (r: Result<AuraMode, AsusctlError>)
        ensures
            aura_mode_of_str(s@) is Some ==> r == Ok::<AuraMode, AsusctlError>(
                aura_mode_of_str(s@)->Some_0,
            ),
            aura_mode_of_str(s@) is None ==> r is Err && is_parse_error(
                r->Err_0,
                "Unknown aura mode: "@ + s@,
            ),
    {
        if eq_lower(s, "static") {
            Ok(AuraMode::Static)
        } else if eq_lower(s, "breathe") {
            Ok(AuraMode::Breathe)
        } else if eq_lower(s, "pulse") {
            Ok(AuraMode::Pulse)
        } else {
            Err(parse_error("Unknown aura mode: ", s))
        }
    }
}

impl Default for AuraMode {
    /// The mode assumed whenever no better answer exists.
    fn default() -> (r: Self)
        ensures
            r == AuraMode::Static,
    {
        AuraMode::Static
    }
}

// ---------------------------------------------------------------------------
// Slash LED-bar modes
// ---------------------------------------------------------------------------

/// LED-bar animation style. Unlike the other enumerations, names are matched
/// with exact letter case.
#[derive(Debug, Clone, Copy, PartialEq, Eq, Structural)]
pub enum SlashMode {
    Bounce,
    Slash,
    Loading,
    BitStream,
    Transmission,
    Flow,
    Flux,
    Phantom,
    Spectrum,
    Hazard,
    Interfacing,
    Ramp,
    GameOver,
    Start,
    Buzzer,
}

/// Exact-case reading of a LED-bar mode name.
pub open spec fn slash_mode_of_str(s: Seq<char>) -> Option<SlashMode> {
    if s == "Bounce"@ {
        Some(SlashMode::Bounce)
    } else if s == "Slash"@ {
        Some(SlashMode::Slash)
    } else if s == "Loading"@ {
        Some(SlashMode::Loading)
    } else if s == "BitStream"@ {
        Some(SlashMode::BitStream)
    } else if s == "Transmission"@ {
        Some(SlashMode::Transmission)
    } else if s == "Flow"@ {
        Some(SlashMode::Flow)
    } else if s == "Flux"@ {
        Some(SlashMode::Flux)
    } else if s == "Phantom"@ {
        Some(SlashMode::Phantom)
    } else if s == "Spectrum"@ {
        Some(SlashMode::Spectrum)
    } else if s == "Hazard"@ {
        Some(SlashMode::Hazard)
    } else if s == "Interfacing"@ {
        Some(SlashMode::Interfacing)
    } else if s == "Ramp"@ {
        Some(SlashMode::Ramp)
    } else if s == "GameOver"@ {
        Some(SlashMode::GameOver)
    } else if s == "Start"@ {
        Some(SlashMode::Start)
    } else if s == "Buzzer"@ {
        Some(SlashMode::Buzzer)
    } else {
        None
    }
}

impl SlashMode {
    /// Canonical name, exactly as the control tool spells it.
    pub open spec fn spec_name(self) -> Seq<char> {
        match self {
            SlashMode::Bounce => "Bounce"@,
            SlashMode::Slash => "Slash"@,
            SlashMode::Loading => "Loading"@,
            SlashMode::BitStream => "BitStream"@,
            SlashMode::Transmission => "Transmission"@,
            SlashMode::Flow => "Flow"@,
            SlashMode::Flux => "Flux"@,
            SlashMode::Phantom => "Phantom"@,
            SlashMode::Spectrum => "Spectrum"@,
            SlashMode::Hazard => "Hazard"@,
            SlashMode::Interfacing => "Interfacing"@,
            SlashMode::Ramp => "Ramp"@,
            SlashMode::GameOver => "GameOver"@,
            SlashMode::Start => "Start"@,
            SlashMode::Buzzer => "Buzzer"@,
        }
    }

    /// Canonical name, exactly as the control tool spells it.
    pub fn as_str(&self) -> (r: &'static str)
        ensures
            r@ == self.spec_name(),
    {
        match self {
            SlashMode::Bounce => "Bounce",
            SlashMode::Slash => "Slash",
            SlashMode::Loading => "Loading",
            SlashMode::BitStream => "BitStream",
            SlashMode::Transmission => "Transmission",
            SlashMode::Flow => "Flow",
            SlashMode::Flux => "Flux",
            SlashMode::Phantom => "Phantom",
            SlashMode::Spectrum => "Spectrum",
            SlashMode::Hazard => "Hazard",
            SlashMode::Interfacing => "Interfacing",
            SlashMode::Ramp => "Ramp",
            SlashMode::GameOver => "GameOver",
            SlashMode::Start => "Start",
            SlashMode::Buzzer => "Buzzer",
        }
    }

    /// Parse a LED-bar mode name with exact letter case.
    pub fn from_str(s: &str) -> (r: Result<SlashMode, AsusctlError>)
        ensures
            slash_mode_of_str(s@) is Some ==> r == Ok::<SlashMode, AsusctlError>(
                slash_mode_of_str(s@)->Some_0,
            ),
            slash_mode_of_str(s@) is None ==> r is Err && is_parse_error(
                r->Err_0,
                "Unknown slash mode: "@ + s@,
            ),
    {
        if str_eq(s, "Bounce") {
            Ok(SlashMode::Bounce)
        } else if str_eq(s, "Slash") {
            Ok(SlashMode::Slash)
        } else if str_eq(s, "Loading") {
            Ok(SlashMode::Loading)
        } else if str_eq(s, "BitStream") {
            Ok(SlashMode::BitStream)
        } else if str_eq(s, "Transmission") {
            Ok(SlashMode::Transmission)
        } else if str_eq(s, "Flow") {
            Ok(SlashMode::Flow)
        } else if str_eq(s, "Flux") {
            Ok(SlashMode::Flux)
        } else if str_eq(s, "Phantom") {
            Ok(SlashMode::Phantom)
        } else if str_eq(s, "Spectrum") {
            Ok(SlashMode::Spectrum)
        } else if str_eq(s, "Hazard") {
            Ok(SlashMode::Hazard)
        } else if str_eq(s, "Interfacing") {
            Ok(SlashMode::Interfacing)
        } else if str_eq(s, "Ramp") {
            Ok(SlashMode::Ramp)
        } else if str_eq(s, "GameOver") {
            Ok(SlashMode::GameOver)
        } else if str_eq(s, "Start") {
            Ok(SlashMode::Start)
        } else if str_eq(s, "Buzzer") {
            Ok(SlashMode::Buzzer)
        } else {
            Err(parse_error("Unknown slash mode: ", s))
        }
    }
}

impl Default for SlashMode {
    /// The mode assumed whenever no better answer exists.
    fn default() -> (r: Self)
        ensures
            r == SlashMode::Flow,
    {
        SlashMode::Flow
    }
}

/// Two LED-bar mode names that agree after ASCII lowering are the same
/// name: the pair (length, lowered final letter) already tells the fifteen
/// names apart.
proof fn lemma_slash_names_distinct_lower(a: SlashMode, b: SlashMode)
    requires
        to_lower(a.spec_name()) == to_lower(b.spec_name()),
    ensures
        a == b,
{
    reveal_strlit("Bounce");
    reveal_strlit("Slash");
    reveal_strlit("Loading");
    reveal_strlit("BitStream");
    reveal_strlit("Transmission");
    reveal_strlit("Flow");
    reveal_strlit("Flux");
    reveal_strlit("Phantom");
    reveal_strlit("Spectrum");
    reveal_strlit("Hazard");
    reveal_strlit("Interfacing");
    reveal_strlit("Ramp");
    reveal_strlit("GameOver");
    reveal_strlit("Start");
    reveal_strlit("Buzzer");
    let la = to_lower(a.spec_name());
    let lb = to_lower(b.spec_name());
    match a {
        SlashMode::Bounce => assert(la.len() == 6 && la.last() == 'e'),
        SlashMode::Slash => assert(la.len() == 5 && la.last() == 'h'),
        SlashMode::Loading => assert(la.len() == 7 && la.last() == 'g'),
        SlashMode::BitStream => assert(la.len() == 9 && la.last() == 'm'),
        SlashMode::Transmission => assert(la.len() == 12 && la.last() == 'n'),
        SlashMode::Flow => assert(la.len() == 4 && la.last() == 'w'),
        SlashMode::Flux => assert(la.len() == 4 && la.last() == 'x'),
        SlashMode::Phantom => assert(la.len() == 7 && la.last() == 'm'),
        SlashMode::Spectrum => assert(la.len() == 8 && la.last() == 'm'),
        SlashMode::Hazard => assert(la.len() == 6 && la.last() == 'd'),
        SlashMode::Interfacing => assert(la.len() == 11 && la.last() == 'g'),
        SlashMode::Ramp => assert(la.len() == 4 && la.last() == 'p'),
        SlashMode::GameOver => assert(la.len() == 8 && la.last() == 'r'),
        SlashMode::Start => assert(la.len() == 5 && la.last() == 't'),
        SlashMode::Buzzer => assert(la.len() == 6 && la.last() == 'r'),
    }
    match b {
        SlashMode::Bounce => assert(lb.len() == 6 && lb.last() == 'e'),
        SlashMode::Slash => assert(lb.len() == 5 && lb.last() == 'h'),
        SlashMode::Loading => assert(lb.len() == 7 && lb.last() == 'g'),
        SlashMode::BitStream => assert(lb.len() == 9 && lb.last() == 'm'),
        SlashMode::Transmission => assert(lb.len() == 12 && lb.last() == 'n'),
        SlashMode::Flow => assert(lb.len() == 4 && lb.last() == 'w'),
        SlashMode::Flux => assert(lb.len() == 4 && lb.last() == 'x'),
        SlashMode::Phantom => assert(lb.len() == 7 && lb.last() == 'm'),
        SlashMode::Spectrum => assert(lb.len() == 8 && lb.last() == 'm'),
        SlashMode::Hazard => assert(lb.len() == 6 && lb.last() == 'd'),
        SlashMode::Interfacing => assert(lb.len() == 11 && lb.last() == 'g'),
        SlashMode::Ramp => assert(lb.len() == 4 && lb.last() == 'p'),
        SlashMode::GameOver => assert(lb.len() == 8 && lb.last() == 'r'),
        SlashMode::Start => assert(lb.len() == 5 && lb.last() == 't'),
        SlashMode::Buzzer => assert(lb.len() == 6 && lb.last() == 'r'),
    }
    assert(la.len() == lb.len());
    assert(la.last() == lb.last());
}

/// Mode parsing is case-sensitive: a string parses to a mode exactly when
/// it is that mode's name letter for letter, and any other casing of a
/// name — same letters once lowered, but not the exact spelling — parses
/// to nothing.
pub proof fn lemma_slash_mode_exact_case(s: Seq<char>, m: SlashMode)
    ensures
        slash_mode_of_str(s) == Some(m) <==> s == m.spec_name(),
        to_lower(s) == to_lower(m.spec_name()) && s != m.spec_name() ==> slash_mode_of_str(s)
            is None,
{
    reveal_strlit("Bounce");
    reveal_strlit("Slash");
    reveal_strlit("Loading");
    reveal_strlit("BitStream");
    reveal_strlit("Transmission");
    reveal_strlit("Flow");
    reveal_strlit("Flux");
    reveal_strlit("Phantom");
    reveal_strlit("Spectrum");
    reveal_strlit("Hazard");
    reveal_strlit("Interfacing");
    reveal_strlit("Ramp");
    reveal_strlit("GameOver");
    reveal_strlit("Start");
    reveal_strlit("Buzzer");
    assert("Bounce"@.len() == 6 && "Bounce"@[0] == 'B' && "Bounce"@[1] == 'o');
    assert("Slash"@.len() == 5 && "Slash"@[1] == 'l');
    assert("Loading"@.len() == 7 && "Loading"@[0] == 'L');
    assert("BitStream"@.len() == 9);
    assert("Transmission"@.len() == 12);
    assert("Flow"@.len() == 4 && "Flow"@[0] == 'F' && "Flow"@[2] == 'o');
    assert("Flux"@.len() == 4 && "Flux"@[0] == 'F' && "Flux"@[2] == 'u');
    assert("Phantom"@.len() == 7 && "Phantom"@[0] == 'P');
    assert("Spectrum"@.len() == 8 && "Spectrum"@[0] == 'S');
    assert("Hazard"@.len() == 6 && "Hazard"@[0] == 'H');
    assert("Interfacing"@.len() == 11);
    assert("Ramp"@.len() == 4 && "Ramp"@[0] == 'R');
    assert("GameOver"@.len() == 8 && "GameOver"@[0] == 'G');
    assert("Start"@.len() == 5 && "Start"@[1] == 't');
    assert("Buzzer"@.len() == 6 && "Buzzer"@[0] == 'B' && "Buzzer"@[1] == 'u');
    match m {
        SlashMode::Bounce => assert(slash_mode_of_str("Bounce"@) == Some(SlashMode::Bounce)),
        SlashMode::Slash => assert(slash_mode_of_str("Slash"@) == Some(SlashMode::Slash)),
        SlashMode::Loading => assert(slash_mode_of_str("Loading"@) == Some(SlashMode::Loading)),
        SlashMode::BitStream => assert(slash_mode_of_str("BitStream"@) == Some(
            SlashMode::BitStream,
        )),
        SlashMode::Transmission => assert(slash_mode_of_str("Transmission"@) == Some(
            SlashMode::Transmission,
        )),
        SlashMode::Flow => assert(slash_mode_of_str("Flow"@) == Some(SlashMode::Flow)),
        SlashMode::Flux => assert(slash_mode_of_str("Flux"@) == Some(SlashMode::Flux)),
        SlashMode::Phantom => assert(slash_mode_of_str("Phantom"@) == Some(SlashMode::Phantom)),
        SlashMode::Spectrum => assert(slash_mode_of_str("Spectrum"@) == Some(
            SlashMode::Spectrum,
        )),
        SlashMode::Hazard => assert(slash_mode_of_str("Hazard"@) == Some(SlashMode::Hazard)),
        SlashMode::Interfacing => assert(slash_mode_of_str("Interfacing"@) == Some(
            SlashMode::Interfacing,
        )),
        SlashMode::Ramp => assert(slash_mode_of_str("Ramp"@) == Some(SlashMode::Ramp)),
        SlashMode::GameOver => assert(slash_mode_of_str("GameOver"@) == Some(
            SlashMode::GameOver,
        )),
        SlashMode::Start => assert(slash_mode_of_str("Start"@) == Some(SlashMode::Start)),
        SlashMode::Buzzer => assert(slash_mode_of_str("Buzzer"@) == Some(SlashMode::Buzzer)),
    }
    assert(slash_mode_of_str(m.spec_name()) == Some(m));
    if to_lower(s) == to_lower(m.spec_name()) && s != m.spec_name() {
        if slash_mode_of_str(s) is Some {
            let m2 = slash_mode_of_str(s)->Some_0;
            assert(s == m2.spec_name());
            lemma_slash_names_distinct_lower(m2, m);
        }
    }
}

/// The LED-bar state the facade reports: on/off, brightness, animation
/// interval and animation style.
#[derive(Debug, Clone, Copy, PartialEq, Eq, Structural)]
pub struct SlashState {
    pub enabled: bool,
    pub brightness: u8,
    pub interval: u8,
    pub mode: SlashMode,
}

impl Default for SlashState {
    /// Disabled, dark, interval zero, default mode.
    fn default() -> (r: Self)
        ensures
            r.enabled == false,
            r.brightness == 0,
            r.interval == 0,
            r.mode == SlashMode::Flow,
    {
        SlashState { enabled: false, brightness: 0, interval: 0, mode: SlashMode::Flow }
    }
}

// ---------------------------------------------------------------------------
// System info and supported features
// ---------------------------------------------------------------------------

/// What the version banner reports about this machine.
#[derive(Debug, Clone, PartialEq)]
pub struct SystemInfo {
    pub asusctl_version: String,
    pub product_family: String,
    pub board_name: String,
}

/// The mathematical content of a `SystemInfo`.
pub struct SystemInfoV {
    pub asusctl_version: Seq<char>,
    pub product_family: Seq<char>,
    pub board_name: Seq<char>,
}

impl View for SystemInfo {
    type V = SystemInfoV;

    open spec fn view(&self) -> SystemInfoV {
        SystemInfoV {
            asusctl_version: self.asusctl_version@,
            product_family: self.product_family@,
            board_name: self.board_name@,
        }
    }
}

impl Default for SystemInfo {
    /// All fields empty.
    fn default() -> (r: Self)
        ensures
            r@.asusctl_version == Seq::<char>::empty(),
            r@.product_family == Seq::<char>::empty(),
            r@.board_name == Seq::<char>::empty(),
    {
        SystemInfo {
            asusctl_version: String::new(),
            product_family: String::new(),
            board_name: String::new(),
        }
    }
}

/// Capability flags discovered from the feature-support dump.
#[derive(Debug, Clone, PartialEq)]
pub struct SupportedFeatures {
    pub has_aura: bool,
    pub has_platform: bool,
    pub has_fan_curves: bool,
    pub has_slash: bool,
    pub keyboard_brightness_levels: Vec<KeyboardBrightness>,
    pub aura_modes: Vec<AuraMode>,
    pub has_charge_control: bool,
    pub has_throttle_policy: bool,
}

/// The mathematical content of a `SupportedFeatures`.
pub struct SupportedFeaturesV {
    pub has_aura: bool,
    pub has_platform: bool,
    pub has_fan_curves: bool,
    pub has_slash: bool,
    pub keyboard_brightness_levels: Seq<KeyboardBrightness>,
    pub aura_modes: Seq<AuraMode>,
    pub has_charge_control: bool,
    pub has_throttle_policy: bool,
}

impl View for SupportedFeatures {
    type V = SupportedFeaturesV;

    open spec fn view(&self) -> SupportedFeaturesV {
        SupportedFeaturesV {
            has_aura: self.has_aura,
            has_platform: self.has_platform,
            has_fan_curves: self.has_fan_curves,
            has_slash: self.has_slash,
            keyboard_brightness_levels: self.keyboard_brightness_levels@,
            aura_modes: self.aura_modes@,
            has_charge_control: self.has_charge_control,
            has_throttle_policy: self.has_throttle_policy,
        }
    }
}

impl Default for SupportedFeatures {
    /// Nothing supported, no levels or modes discovered.
    fn default() -> (r: Self)
        ensures
            r@.has_aura == false,
            r@.has_platform == false,
            r@.has_fan_curves == false,
            r@.has_slash == false,
            r@.keyboard_brightness_levels == Seq::<KeyboardBrightness>::empty(),
            r@.aura_modes == Seq::<AuraMode>::empty(),
            r@.has_charge_control == false,
            r@.has_throttle_policy == false,
    {
        SupportedFeatures {
            has_aura: false,
            has_platform: false,
            has_fan_curves: false,
            has_slash: false,
            keyboard_brightness_levels: Vec::new(),
            aura_modes: Vec::new(),
            has_charge_control: false,
            has_throttle_policy: false,
        }
    }
}

} // verus!
