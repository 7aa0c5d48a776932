//! Pure parsers for the control tool's text output: version banners,
//! profile-state reports, brightness reports, and the feature-support dump
//! with its bracket-aware section extractor.

use vstd::prelude::*;
use vstd::string::StrSliceExecFns;
use crate::domain::AuraMode;
use crate::domain::KeyboardBrightness;
use crate::domain::PowerProfile;
use crate::domain::SupportedFeatures;
use crate::domain::SupportedFeaturesV;
use crate::domain::SystemInfoV;
use crate::domain::ProfileState;
use crate::domain::SystemInfo;
use crate::domain::brightness_of_str;
use crate::domain::profile_of_str;
use crate::error::AsusctlError;
use crate::error::parse_result_matches;
use crate::text::after_colon;
use crate::text::contains;
use crate::text::contains_char;
use crate::text::contains_seq;
use crate::text::count_char_exec;
use crate::text::find_char;
use crate::text::spec_after_colon;
use crate::text::spec_lines;
use crate::text::spec_trim;
use crate::text::split_lines;
use crate::text::starts_with;
use crate::text::trim;
use crate::text::views_of;

verus! {

// ---------------------------------------------------------------------------
// Labeled-line scanning
// ---------------------------------------------------------------------------

/// The value on the first line whose trimmed form starts with `label`: the
/// trimmed remainder after the label. Empty when no line matches.
pub open spec fn field_after_label(lines: Seq<Seq<char>>, label: Seq<char>) -> Seq<char>
    decreases lines.len(),
{
    if lines.len() == 0 {
        Seq::empty()
    } else if label.is_prefix_of(spec_trim(lines.first())) {
        spec_trim(spec_trim(lines.first()).skip(label.len() as int))
    } else {
        field_after_label(lines.drop_first(), label)
    }
}

/// Scan `lines` for the first one whose trimmed form starts with `label` and
/// return the trimmed remainder, or an empty string.
fn scan_label(lines: &Vec<String>, label: &str) -> (r: String)
    ensures
        r@ == field_after_label(views_of(lines@), label@),
{
    let n = lines.len();
    let mut i: usize = 0;
    proof {
        assert(views_of(lines@).skip(0) =~= views_of(lines@));
    }
    while i < n
        invariant
            i <= n,
            n == lines@.len(),
            field_after_label(views_of(lines@), label@) == field_after_label(
                views_of(lines@).skip(i as int),
                label@,
            ),
        decreases n - i,
    {
        proof {
            assert(views_of(lines@).skip(i as int).first() == lines@[i as int]@);
            assert(views_of(lines@).skip(i as int).drop_first() =~= views_of(lines@).skip(
                i as int + 1,
            ));
        }
        let line = trim(lines[i].as_str());
        if starts_with(line, label) {
            let rest = line.substring_char(label.unicode_len(), line.unicode_len());
            return trim(rest).to_owned();
        }
        i += 1;
    }
    String::new()
}

// ---------------------------------------------------------------------------
// System info
// ---------------------------------------------------------------------------

/// What the version banner denotes: one field per label, each the trimmed
/// remainder of the first line carrying that label.
pub open spec fn spec_system_info(s: Seq<char>) -> SystemInfoV {
    SystemInfoV {
        asusctl_version: field_after_label(spec_lines(s), "asusctl version:"@),
        product_family: field_after_label(spec_lines(s), "Product family:"@),
        board_name: field_after_label(spec_lines(s), "Board name:"@),
    }
}

/// Parse the version banner: three labeled lines, each optional, the first
/// occurrence of a label winning. Never fails.
pub fn parse_system_info(output: &str) -> (r: Result<SystemInfo, AsusctlError>)
    ensures
        r is Ok,
        r->Ok_0@ == spec_system_info(output@),
{
    let lines = split_lines(output);
    Ok(
        SystemInfo {
            asusctl_version: scan_label(&lines, "asusctl version:"),
            product_family: scan_label(&lines, "Product family:"),
            board_name: scan_label(&lines, "Board name:"),
        },
    )
}

// ---------------------------------------------------------------------------
// Profile state
// ---------------------------------------------------------------------------

/// Fold of the profile report over its lines. A labeled line overwrites its
/// slot; a labeled line whose profile name is unrecognized stops the fold
/// with that name as the error; unlabeled lines are ignored.
pub open spec fn spec_profile_lines(lines: Seq<Seq<char>>, st: ProfileState) -> Result<
    ProfileState,
    Seq<char>,
>
    decreases lines.len(),
{
    if lines.len() == 0 {
        Ok(st)
    } else {
        let line = spec_trim(lines.first());
        if "Active profile is"@.is_prefix_of(line) {
            let name = spec_trim(line.skip("Active profile is"@.len() as int));
            match profile_of_str(name) {
                Some(p) => spec_profile_lines(
                    lines.drop_first(),
                    ProfileState { active: p, ..st },
                ),
                None => Err(name),
            }
        } else if "Profile on AC is"@.is_prefix_of(line) {
            let name = spec_trim(line.skip("Profile on AC is"@.len() as int));
            match profile_of_str(name) {
                Some(p) => spec_profile_lines(lines.drop_first(), ProfileState { on_ac: p, ..st }),
                None => Err(name),
            }
        } else if "Profile on Battery is"@.is_prefix_of(line) {
            let name = spec_trim(line.skip("Profile on Battery is"@.len() as int));
            match profile_of_str(name) {
                Some(p) => spec_profile_lines(
                    lines.drop_first(),
                    ProfileState { on_battery: p, ..st },
                ),
                None => Err(name),
            }
        } else {
            spec_profile_lines(lines.drop_first(), st)
        }
    }
}

/// What the profile report denotes: the three slots, or the message of the
/// first unrecognized profile name.
pub open spec fn spec_profile_state(s: Seq<char>) -> Result<ProfileState, Seq<char>> {
    match spec_profile_lines(
        spec_lines(s),
        ProfileState {
            active: PowerProfile::Balanced,
            on_ac: PowerProfile::Balanced,
            on_battery: PowerProfile::Balanced,
        },
    ) {
        Ok(st) => Ok(st),
        Err(name) => Err("Unknown power profile: "@ + name),
    }
}

/// Parse the three labeled profile lines. A missing label leaves its slot at
/// the default profile; an unrecognized profile name fails.
pub fn parse_profile_state(output: &str) -> (r: Result<ProfileState, AsusctlError>)
    ensures
        parse_result_matches(r, spec_profile_state(output@)),
{
    let lines = split_lines(output);
    let ghost all = views_of(lines@);
    let ghost init = ProfileState {
        active: PowerProfile::Balanced,
        on_ac: PowerProfile::Balanced,
        on_battery: PowerProfile::Balanced,
    };
    let mut st = ProfileState::default();
    let n = lines.len();
    let mut i: usize = 0;
    proof {
        assert(all.skip(0) =~= all);
    }
    while i < n
        invariant
            i <= n,
            n == lines@.len(),
            all == views_of(lines@),
            all == spec_lines(output@),
            init == (ProfileState {
                active: PowerProfile::Balanced,
                on_ac: PowerProfile::Balanced,
                on_battery: PowerProfile::Balanced,
            }),
            spec_profile_lines(all, init) == spec_profile_lines(all.skip(i as int), st),
        decreases n - i,
    {
        proof {
            assert(all.skip(i as int).first() == lines@[i as int]@);
            assert(all.skip(i as int).drop_first() =~= all.skip(i as int + 1));
        }
        let line = trim(lines[i].as_str());
        if starts_with(line, "Active profile is") {
            let lab = "Active profile is";
            let name = trim(line.substring_char(lab.unicode_len(), line.unicode_len()));
            match PowerProfile::from_str(name) {
                Ok(p) => {
                    st = ProfileState { active: p, ..st };
                },
                Err(e) => {
                    return Err(e);
                },
            }
        } else if starts_with(line, "Profile on AC is") {
            let lab = "Profile on AC is";
            let name = trim(line.substring_char(lab.unicode_len(), line.unicode_len()));
            match PowerProfile::from_str(name) {
                Ok(p) => {
                    st = ProfileState { on_ac: p, ..st };
                },
                Err(e) => {
                    return Err(e);
                },
            }
        } else if starts_with(line, "Profile on Battery is") {
            let lab = "Profile on Battery is";
            let name = trim(line.substring_char(lab.unicode_len(), line.unicode_len()));
            match PowerProfile::from_str(name) {
                Ok(p) => {
                    st = ProfileState { on_battery: p, ..st };
                },
                Err(e) => {
                    return Err(e);
                },
            }
        }
        i += 1;
    }
    Ok(st)
}

// ---------------------------------------------------------------------------
// Keyboard brightness report
// ---------------------------------------------------------------------------

/// The first line containing `needle`, if any.
pub open spec fn first_line_containing(lines: Seq<Seq<char>>, needle: Seq<char>) -> Option<
    Seq<char>,
>
    decreases lines.len(),
{
    if lines.len() == 0 {
        None
    } else if contains_seq(lines.first(), needle) {
        Some(lines.first())
    } else {
        first_line_containing(lines.drop_first(), needle)
    }
}

/// The trimmed text between the first colon of `line` and the next colon or
/// the end of the line; `None` when the line has no colon.
pub open spec fn colon_value(line: Seq<char>) -> Option<Seq<char>> {
    match spec_after_colon(line) {
        Some(seg) => Some(spec_trim(seg)),
        None => None,
    }
}

/// What the brightness report denotes: the level named after the colon on
/// the first line mentioning the current keyboard led brightness, or the
/// message of the failure.
pub open spec fn spec_kbd_brightness(s: Seq<char>) -> Result<KeyboardBrightness, Seq<char>> {
    match first_line_containing(spec_lines(s), "Current keyboard led brightness:"@) {
        None => Err("Could not find brightness level in output"@),
        Some(line) => match colon_value(line) {
            None => Err("Missing brightness value"@),
            Some(v) => match brightness_of_str(v) {
                Some(b) => Ok(b),
                None => Err("Unknown brightness level: "@ + v),
            },
        },
    }
}

/// Parse the brightness report: the value after the colon on the first line
/// mentioning the current keyboard led brightness.
pub fn parse_keyboard_brightness(output: &str) -> (r: Result<KeyboardBrightness, AsusctlError>)
    ensures
        parse_result_matches(r, spec_kbd_brightness(output@)),
{
    let lines = split_lines(output);
    let ghost all = views_of(lines@);
    let ghost needle = "Current keyboard led brightness:"@;
    let n = lines.len();
    let mut i: usize = 0;
    proof {
        assert(all.skip(0) =~= all);
    }
    while i < n
        invariant
            i <= n,
            n == lines@.len(),
            all == views_of(lines@),
            all == spec_lines(output@),
            needle == "Current keyboard led brightness:"@,
            first_line_containing(all, needle) == first_line_containing(
                all.skip(i as int),
                needle,
            ),
        decreases n - i,
    {
        proof {
            assert(all.skip(i as int).first() == lines@[i as int]@);
            assert(all.skip(i as int).drop_first() =~= all.skip(i as int + 1));
        }
        let line = lines[i].as_str();
        if contains(line, "Current keyboard led brightness:") {
            match after_colon(line) {
                None => {
                    return Err(AsusctlError::ParseError("Missing brightness value".to_owned()));
                },
                Some(seg) => {
                    return KeyboardBrightness::from_str(trim(seg));
                },
            }
        }
        i += 1;
    }
    Err(AsusctlError::ParseError("Could not find brightness level in output".to_owned()))
}

// ---------------------------------------------------------------------------
// Section extraction
// ---------------------------------------------------------------------------

/// Total character count of a sequence of lines.
pub open spec fn lines_len(ls: Seq<Seq<char>>) -> nat
    decreases ls.len(),
{
    if ls.len() == 0 {
        0
    } else {
        ls.first().len() + lines_len(ls.drop_first())
    }
}

proof fn lemma_lines_len_singleton(x: Seq<char>)
    ensures
        lines_len(seq![x]) == x.len(),
{
    reveal_with_fuel(lines_len, 2);
    assert(seq![x].drop_first() =~= Seq::<Seq<char>>::empty());
}

proof fn lemma_lines_len_concat(a: Seq<Seq<char>>, b: Seq<Seq<char>>)
    ensures
        lines_len(a + b) == lines_len(a) + lines_len(b),
    decreases a.len(),
{
    if a.len() == 0 {
        assert(a + b =~= b);
    } else {
        assert((a + b).first() == a.first());
        assert((a + b).drop_first() =~= a.drop_first() + b);
        lemma_lines_len_concat(a.drop_first(), b);
    }
}

/// Splitting never yields more characters than the input held.
proof fn lemma_lines_len_le(s: Seq<char>)
    ensures
        lines_len(spec_lines(s)) <= s.len(),
    decreases s.len(),
{
    let i = find_char(s, '\n');
    if i < s.len() {
        let first = seq![s.take(i as int)];
        let rest = spec_lines(s.skip(i as int + 1));
        lemma_lines_len_concat(first, rest);
        lemma_lines_len_singleton(s.take(i as int));
        lemma_lines_len_le(s.skip(i as int + 1));
    } else {
        lemma_lines_len_singleton(s);
    }
}

/// A count of one character never exceeds the string's length.
proof fn lemma_count_char_le(s: Seq<char>, c: char)
    ensures
        crate::text::count_char(s, c) <= s.len(),
    decreases s.len(),
{
    if s.len() > 0 {
        lemma_count_char_le(s.drop_last(), c);
    }
}

/// The lines of a section body, each followed by a newline, up to and
/// including the first line that brings the running bracket depth to zero or
/// below while containing a closing bracket; everything when brackets never
/// balance.
pub open spec fn section_lines(lines: Seq<Seq<char>>, depth: int) -> Seq<char>
    decreases lines.len(),
{
    if lines.len() == 0 {
        Seq::empty()
    } else {
        let line = lines.first();
        let d = depth + crate::text::count_char(line, '[') - crate::text::count_char(line, ']');
        if d <= 0 && line.contains(']') {
            line + seq!['\n']
        } else {
            line + seq!['\n'] + section_lines(lines.drop_first(), d)
        }
    }
}

/// The section after the first line containing `header`: empty when the
/// header never appears.
pub open spec fn spec_extract_section(lines: Seq<Seq<char>>, header: Seq<char>) -> Seq<char>
    decreases lines.len(),
{
    if lines.len() == 0 {
        Seq::empty()
    } else if contains_seq(lines.first(), header) {
        section_lines(lines.drop_first(), 0)
    } else {
        spec_extract_section(lines.drop_first(), header)
    }
}

/// A header that appears on no line yields an empty section, whatever the
/// lines hold.
pub proof fn lemma_extract_section_missing_header(lines: Seq<Seq<char>>, header: Seq<char>)
    requires
        forall|i: int| 0 <= i < lines.len() ==> !contains_seq(lines[i], header),
    ensures
        spec_extract_section(lines, header) == Seq::<char>::empty(),
    decreases lines.len(),
{
    if lines.len() > 0 {
        assert(!contains_seq(lines[0], header));
        assert forall|i: int| 0 <= i < lines.drop_first().len() implies !contains_seq(
            lines.drop_first()[i],
            header,
        ) by {
            assert(lines.drop_first()[i] == lines[i + 1]);
        }
        lemma_extract_section_missing_header(lines.drop_first(), header);
    }
}

/// Extract the text after the first line containing `header`, through the
/// line that closes the bracketed block opened there.
pub fn extract_section(output: &str, header: &str) -> (r: String)
    ensures
        r@ == spec_extract_section(spec_lines(output@), header@),
{
    let nc = output.unicode_len();
    let lines = split_lines(output);
    let ghost all = views_of(lines@);
    let n = lines.len();
    let mut h: usize = 0;
    proof {
        assert(all.skip(0) =~= all);
    }
    while h < n
        invariant_except_break
            h <= n,
            n == lines@.len(),
            all == views_of(lines@),
            spec_extract_section(all, header@) == spec_extract_section(
                all.skip(h as int),
                header@,
            ),
        ensures
            h <= n,
            n == lines@.len(),
            all == views_of(lines@),
            h < n ==> spec_extract_section(all, header@) == section_lines(
                all.skip(h as int + 1),
                0,
            ),
            h == n ==> spec_extract_section(all, header@) == Seq::<char>::empty(),
        decreases n - h,
    {
        proof {
            assert(all.skip(h as int).first() == lines@[h as int]@);
            assert(all.skip(h as int).drop_first() =~= all.skip(h as int + 1));
        }
        if contains(lines[h].as_str(), header) {
            break;
        }
        h += 1;
    }
    if h == n {
        return String::new();
    }
    let mut acc = String::new();
    let mut opens: usize = 0;
    let mut closes: usize = 0;
    let mut i: usize = h + 1;
    proof {
        lemma_lines_len_le(output@);
        assert(all.subrange(h as int + 1, i as int) =~= Seq::<Seq<char>>::empty());
    }
    loop
        invariant_except_break
            h < i <= n,
            n == lines@.len(),
            all == views_of(lines@),
            output@.len() <= usize::MAX,
            opens <= lines_len(all.subrange(h as int + 1, i as int)),
            closes <= lines_len(all.subrange(h as int + 1, i as int)),
            lines_len(all) <= output@.len(),
            section_lines(all.skip(h as int + 1), 0) == acc@ + section_lines(
                all.skip(i as int),
                opens - closes,
            ),
        ensures
            acc@ == section_lines(all.skip(h as int + 1), 0),
        decreases n - i,
    {
        if i == n {
            proof {
                assert(all.skip(i as int).len() == 0);
                assert(acc@ + Seq::<char>::empty() =~= acc@);
            }
            break;
        }
        let line = lines[i].as_str();
        let ghost lv = lines@[i as int]@;
        let o = count_char_exec(line, '[');
        let c = count_char_exec(line, ']');
        proof {
            lemma_count_char_le(lv, '[');
            lemma_count_char_le(lv, ']');
            assert(all.subrange(h as int + 1, i as int + 1) =~= all.subrange(
                h as int + 1,
                i as int,
            ).push(lv));
            lemma_lines_len_concat(all.subrange(h as int + 1, i as int), seq![lv]);
            assert(all.subrange(h as int + 1, i as int).push(lv) =~= all.subrange(
                h as int + 1,
                i as int,
            ) + seq![lv]);
            lemma_lines_len_singleton(lv);
            assert(all.subrange(h as int + 1, i as int + 1) + all.subrange(i as int + 1, n as int)
                =~= all.subrange(h as int + 1, n as int));
            lemma_lines_len_concat(
                all.subrange(h as int + 1, i as int + 1),
                all.subrange(i as int + 1, n as int),
            );
            assert(all.subrange(0, h as int + 1) + all.subrange(h as int + 1, n as int) =~= all);
            lemma_lines_len_concat(
                all.subrange(0, h as int + 1),
                all.subrange(h as int + 1, n as int),
            );
        }
        opens = opens + o;
        closes = closes + c;
        let ghost old_acc = acc@;
        acc.append(line);
        acc.append("\n");
        proof {
            reveal_strlit("\n");
            assert("\n"@ =~= seq!['\n']);
            assert(all.skip(i as int).first() == lv);
            assert(all.skip(i as int).drop_first() =~= all.skip(i as int + 1));
            assert(acc@ =~= old_acc + (lv + seq!['\n']));
        }
        i += 1;
        if opens <= closes && contains_char(line, ']') {
            proof {
                assert(acc@ =~= old_acc + (lv + seq!['\n']));
            }
            break;
        }
        proof {
            assert(acc@ + section_lines(all.skip(i as int), opens - closes) =~= old_acc + (lv
                + seq!['\n'] + section_lines(all.skip(i as int), opens - closes)));
        }
    }
    acc
}

// ---------------------------------------------------------------------------
// Supported features
// ---------------------------------------------------------------------------

/// The brightness levels a feature dump advertises, in fixed probe order.
pub open spec fn spec_levels(section: Seq<char>) -> Seq<KeyboardBrightness> {
    (if contains_seq(section, "Off"@) {
        seq![KeyboardBrightness::Off]
    } else {
        Seq::empty()
    }) + (if contains_seq(section, "Low"@) {
        seq![KeyboardBrightness::Low]
    } else {
        Seq::empty()
    }) + (if contains_seq(section, "Med"@) {
        seq![KeyboardBrightness::Med]
    } else {
        Seq::empty()
    }) + (if contains_seq(section, "High"@) {
        seq![KeyboardBrightness::High]
    } else {
        Seq::empty()
    })
}

/// The aura modes a feature dump advertises, in fixed probe order.
pub open spec fn spec_modes(section: Seq<char>) -> Seq<AuraMode> {
    (if contains_seq(section, "Static"@) {
        seq![AuraMode::Static]
    } else {
        Seq::empty()
    }) + (if contains_seq(section, "Breathe"@) {
        seq![AuraMode::Breathe]
    } else {
        Seq::empty()
    }) + (if contains_seq(section, "Pulse"@) {
        seq![AuraMode::Pulse]
    } else {
        Seq::empty()
    })
}

/// What the feature dump denotes: capability flags by substring presence,
/// and the advertised brightness levels and aura modes from their sections.
pub open spec fn spec_supported_features(s: Seq<char>) -> SupportedFeaturesV {
    SupportedFeaturesV {
        has_aura: contains_seq(s, "xyz.ljones.Aura"@),
        has_platform: contains_seq(s, "xyz.ljones.Platform"@),
        has_fan_curves: contains_seq(s, "xyz.ljones.FanCurves"@),
        has_slash: contains_seq(s, "xyz.ljones.Slash"@),
        keyboard_brightness_levels: spec_levels(
            spec_extract_section(spec_lines(s), "Supported Keyboard Brightness:"@),
        ),
        aura_modes: spec_modes(spec_extract_section(spec_lines(s), "Supported Aura Modes:"@)),
        has_charge_control: contains_seq(s, "ChargeControlEndThreshold"@),
        has_throttle_policy: contains_seq(s, "ThrottlePolicy"@),
    }
}

/// Parse the feature-support dump: capability flags by substring presence,
/// and brightness levels / aura modes probed inside their bracketed
/// sections. Never fails.
#[verifier::rlimit(60)]
pub fn parse_supported_features(output: &str) -> (r: Result<SupportedFeatures, AsusctlError>)
    ensures
        r is Ok,
        r->Ok_0@ == spec_supported_features(output@),
{
    let has_aura = contains(output, "xyz.ljones.Aura");
    let has_platform = contains(output, "xyz.ljones.Platform");
    let has_fan_curves = contains(output, "xyz.ljones.FanCurves");
    let has_slash = contains(output, "xyz.ljones.Slash");
    let has_charge_control = contains(output, "ChargeControlEndThreshold");
    let has_throttle_policy = contains(output, "ThrottlePolicy");

    let brightness_section = extract_section(output, "Supported Keyboard Brightness:");
    let mut levels: Vec<KeyboardBrightness> = Vec::new();
    if contains(brightness_section.as_str(), "Off") {
        levels.push(KeyboardBrightness::Off);
    }
    if contains(brightness_section.as_str(), "Low") {
        levels.push(KeyboardBrightness::Low);
    }
    if contains(brightness_section.as_str(), "Med") {
        levels.push(KeyboardBrightness::Med);
    }
    if contains(brightness_section.as_str(), "High") {
        levels.push(KeyboardBrightness::High);
    }
    proof {
        assert(levels@ =~= spec_levels(brightness_section@));
    }

    let aura_section = extract_section(output, "Supported Aura Modes:");
    let mut modes: Vec<AuraMode> = Vec::new();
    if contains(aura_section.as_str(), "Static") {
        modes.push(AuraMode::Static);
    }
    if contains(aura_section.as_str(), "Breathe") {
        modes.push(AuraMode::Breathe);
    }
    if contains(aura_section.as_str(), "Pulse") {
        modes.push(AuraMode::Pulse);
    }
    proof {
        assert(modes@ =~= spec_modes(aura_section@));
    }

    Ok(
        SupportedFeatures {
            has_aura,
            has_platform,
            has_fan_curves,
            has_slash,
            keyboard_brightness_levels: levels,
            aura_modes: modes,
            has_charge_control,
            has_throttle_policy,
        },
    )
}

} // verus!
