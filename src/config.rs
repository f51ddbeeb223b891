use vstd::prelude::*;
use vstd::string::StringSliceAdditionalSpecFns;
use vstd::utf8::is_char_boundary;

verus! {

/// Colours (as `#rrggbb` text), font and transparency of the widget.
#[derive(Clone, Debug)]
pub struct Theme {
    pub background_color: String,
    pub input_bg_color: String,
    pub text_color: String,
    pub text_dim_color: String,
    pub icon_color: String,
    pub accent_color: String,
    pub accent_rest_color: String,
    pub font_family: String,
    pub transparent: bool,
}

/// The settings kept between runs.
#[derive(Debug)]
pub struct Config {
    pub timer_duration_minutes: u32,
    pub rest_duration_minutes: u32,
    pub alarm_hour: u32,
    pub alarm_min: u32,
    pub theme: Theme,
}

impl Theme {
    /// Whether this is the built-in theme.
    pub open spec fn is_default(&self) -> bool {
        &&& self.background_color@ == "#000000"@
        &&& self.input_bg_color@ == "#111111"@
        &&& self.text_color@ == "#cccccc"@
        &&& self.text_dim_color@ == "#777777"@
        &&& self.icon_color@ == "#888888"@
        &&& self.accent_color@ == "#4CAF50"@
        &&& self.accent_rest_color@ == "#2196F3"@
        &&& self.font_family@ == "TX02 Nerd Font"@
        &&& !self.transparent
    }
}

impl Default for Theme {
    /// The built-in theme: black background, green and blue accents.
    fn default() -> (r: Self)
        ensures
            r.is_default(),
    {
        Theme {
            background_color: "#000000".to_owned(),
            input_bg_color: "#111111".to_owned(),
            text_color: "#cccccc".to_owned(),
            text_dim_color: "#777777".to_owned(),
            icon_color: "#888888".to_owned(),
            accent_color: "#4CAF50".to_owned(),
            accent_rest_color: "#2196F3".to_owned(),
            font_family: "TX02 Nerd Font".to_owned(),
            transparent: false,
        }
    }
}

impl Config {
    /// Whether these are the built-in settings.
    pub open spec fn is_default(&self) -> bool {
        &&& self.timer_duration_minutes == 25
        &&& self.rest_duration_minutes == 5
        &&& self.alarm_hour == 10
        &&& self.alarm_min == 20
        &&& self.theme.is_default()
    }
}

impl Default for Config {
    /// The built-in settings: 25 minutes of work, 5 of rest, alarm at
    /// 10:20, the built-in theme. They stand in for a settings file that is
    /// missing or cannot be read.
    fn default() -> (r: Self)
        ensures
            r.is_default(),
    {
        Config {
            timer_duration_minutes: 25,
            rest_duration_minutes: 5,
            alarm_hour: 10,
            alarm_min: 20,
            theme: Theme::default(),
        }
    }
}

impl Config {
    /// The settings to run with, given what was read from the settings
    /// file: the record itself, or the built-in settings where the file is
    /// missing or could not be parsed (`None`).
    pub fn from_loaded(loaded: Option<Config>) -> (r: Config)
        ensures
            loaded matches Some(c) ==> r == c,
            loaded is None ==> r.is_default(),
    {
        match loaded {
            Some(c) => c,
            None => Config::default(),
        }
    }
}

impl Config {
    /// These settings with the work and rest durations replaced, as saved
    /// when a duration changes.
    pub fn with_durations(self, timer_duration_minutes: u32, rest_duration_minutes: u32) -> (r:
        Config)
        ensures
            r.timer_duration_minutes == timer_duration_minutes,
            r.rest_duration_minutes == rest_duration_minutes,
            r.alarm_hour == self.alarm_hour,
            r.alarm_min == self.alarm_min,
            r.theme == self.theme,
    {
        Config { timer_duration_minutes, rest_duration_minutes, ..self }
    }

    /// These settings with the alarm time replaced, as saved when the alarm
    /// time changes.
    pub fn with_alarm_time(self, alarm_hour: u32, alarm_min: u32) -> (r: Config)
        ensures
            r.timer_duration_minutes == self.timer_duration_minutes,
            r.rest_duration_minutes == self.rest_duration_minutes,
            r.alarm_hour == alarm_hour,
            r.alarm_min == alarm_min,
            r.theme == self.theme,
    {
        Config { alarm_hour, alarm_min, ..self }
    }
}

/// Index just past the run of `#` bytes that starts at `i`.
pub open spec fn end_of_hashes(b: Seq<u8>, i: int) -> int
    decreases b.len() - i,
{
    if 0 <= i < b.len() && b[i] == 35 {
        end_of_hashes(b, i + 1)
    } else {
        i
    }
}

/// Value of a hexadecimal digit byte (either case), or -1.
pub open spec fn hex_value(c: u8) -> int {
    if 48 <= c <= 57 {
        c - 48
    } else if 97 <= c <= 102 {
        c - 87
    } else if 65 <= c <= 70 {
        c - 55
    } else {
        -1
    }
}

/// The byte that two text bytes give read as a base-16 number: two hex
/// digits, or a `+` sign and one digit; zero for anything else.
pub open spec fn hex_pair_value(a: u8, b: u8) -> u8 {
    if a == 43 {
        if hex_value(b) >= 0 { hex_value(b) as u8 } else { 0 }
    } else if hex_value(a) >= 0 && hex_value(b) >= 0 {
        (16 * hex_value(a) + hex_value(b)) as u8
    } else {
        0
    }
}

/// A colour text that `parse_color` accepts: after the leading `#`s, at
/// least six bytes, with character boundaries after the second, fourth and
/// sixth.
pub open spec fn color_text_ok(b: Seq<u8>) -> bool {
    let p = end_of_hashes(b, 0);
    p + 6 <= b.len() && is_char_boundary(b, p + 2) && is_char_boundary(b, p + 4)
        && is_char_boundary(b, p + 6)
}

fn hex_digit(c: u8) -> (r: Option<u32>)
    ensures
        r matches Some(v) ==> v == hex_value(c),
        r is None <==> hex_value(c) < 0,
{
    if 48 <= c && c <= 57 {
        Some((c - 48) as u32)
    } else if 97 <= c && c <= 102 {
        Some((c - 87) as u32)
    } else if 65 <= c && c <= 70 {
        Some((c - 55) as u32)
    } else {
        None
    }
}

fn hex_pair(a: u8, b: u8) -> (r: u8)
    ensures
        r == hex_pair_value(a, b),
{
    if a == 43 {
        match hex_digit(b) {
            Some(v) => v as u8,
            None => 0,
        }
    } else {
        match (hex_digit(a), hex_digit(b)) {
            (Some(x), Some(y)) => (16 * x + y) as u8,
            _ => 0,
        }
    }
}

/// Reads a `#rrggbb` colour (any number of leading `#`, or none) as red,
/// green and blue; a channel that is not valid base-16 text reads as 0.
pub fn parse_color(hex: &str) -> (r: (u8, u8, u8))
    requires
        color_text_ok(hex.spec_bytes()),
    ensures
        ({
            let b = hex.spec_bytes();
            let p = end_of_hashes(b, 0);
            r == (
                hex_pair_value(b[p], b[p + 1]),
                hex_pair_value(b[p + 2], b[p + 3]),
                hex_pair_value(b[p + 4], b[p + 5]),
            )
        }),
{
    let b = hex.as_bytes();
    let mut i: usize = 0;
    while i < b.len() && b[i] == 35
        invariant
            b@ == hex.spec_bytes(),
            0 <= i <= b@.len(),
            end_of_hashes(b@, i as int) == end_of_hashes(b@, 0),
        decreases b@.len() - i,
    {
        i = i + 1;
    }
    (hex_pair(b[i], b[i + 1]), hex_pair(b[i + 2], b[i + 3]), hex_pair(b[i + 4], b[i + 5]))
}

} // verus!
