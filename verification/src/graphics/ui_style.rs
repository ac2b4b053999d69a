//! Style values: the kinds of values a style key holds, and the colour syntax of the
//! style file (`#RGB`, `#RRGGBB`, or one of a few colour names), and the reading and
//! validation of the style file.

use crate::graphics::style_keys::{key_at, key_kind, key_name, lemma_every_key_listed, StyleKey, STYLE_KEY_COUNT};
use crate::graphics::text_box::lines_view;
use crate::text::{concat2, concat3, decimal, push_decimal};
use serde_json::Value;
use vstd::prelude::*;
use vstd::string::StringSliceAdditionalSpecFns;
use vstd::utf8::{encode_utf8, is_continuation_byte};

verus! {

/// The kind of value a style key holds.
#[derive(Debug, Clone, Copy, PartialEq, Eq, Hash, Structural)]
pub enum ValueKind {
    Color,
    Float,
    Integer,
    Boolean,
    String,
}

/// Number of levels per colour channel: a channel of level `v` has intensity `v / 510`.
/// Hex digits give even levels (`#RRGGBB` channel `c` is level `2c`, i.e. `c / 255`); the
/// half-intensity named colours (grey, orange) use level 255.
pub const COLOR_LEVELS: u16 = 510;

/// An RGB colour, each channel a level between 0 and `COLOR_LEVELS`.
#[derive(Debug, Clone, Copy, PartialEq, Eq, Structural)]
pub struct ColorLevels {
    pub r: u16,
    pub g: u16,
    pub b: u16,
}

/// The value of an ASCII hex digit (either case).
pub open spec fn hex_digit(c: u8) -> Option<u8> {
    if 0x30 <= c <= 0x39 {
        Some((c - 0x30) as u8)
    } else if 0x41 <= c <= 0x46 {
        Some((c - 0x41 + 10) as u8)
    } else if 0x61 <= c <= 0x66 {
        Some((c - 0x61 + 10) as u8)
    } else {
        None
    }
}

/// What `u8::from_str_radix(_, 16)` gives for the two-byte string `a b`: an optional
/// leading `+` followed by hex digits.
pub open spec fn hex_pair(a: u8, b: u8) -> Option<u8> {
    if a == 0x2b {
        hex_digit(b)
    } else {
        match (hex_digit(a), hex_digit(b)) {
            (Some(x), Some(y)) => Some((x * 16 + y) as u8),
            _ => None,
        }
    }
}

/// Level of a channel given by an 8-bit value.
pub open spec fn level_of(v: u8) -> u16 {
    (2 * v) as u16
}

/// The colour a `#RGB` or `#RRGGBB` text denotes, from its UTF-8 bytes (`#` included);
/// `None` when a channel is not a valid hex number.
pub open spec fn hex_color(b: Seq<u8>) -> Option<ColorLevels> {
    let (r, g, bl) = if b.len() == 4 {
        (hex_pair(b[1], b[1]), hex_pair(b[2], b[2]), hex_pair(b[3], b[3]))
    } else {
        (hex_pair(b[1], b[2]), hex_pair(b[3], b[4]), hex_pair(b[5], b[6]))
    };
    match (r, g, bl) {
        (Some(r), Some(g), Some(bl)) => Some(ColorLevels { r: level_of(r), g: level_of(g), b: level_of(bl) }),
        _ => None,
    }
}

/// The hex channels of a `#`-prefixed text of 3 or 6 bytes after the `#` are cut at byte
/// offsets, channel by channel, until one fails to parse; whether every such cut falls
/// on a character boundary (a byte that is not a UTF-8 continuation byte). A cut inside
/// a character means a channel that is no hex number.
pub open spec fn hex_cuts_on_boundaries(b: Seq<u8>) -> bool {
    if b.len() == 4 {
        &&& !is_continuation_byte(b[2])
        &&& hex_pair(b[1], b[1]) is Some ==> !is_continuation_byte(b[3])
    } else if b.len() == 7 {
        &&& !is_continuation_byte(b[3])
        &&& hex_pair(b[1], b[2]) is Some ==> !is_continuation_byte(b[5])
    } else {
        true
    }
}

/// Whether the colour text starts with `#`, from its UTF-8 bytes.
pub open spec fn is_hex_form(b: Seq<u8>) -> bool {
    b.len() >= 1 && b[0] == 0x23
}

/// The colour a lower-case colour name denotes.
pub open spec fn named_levels(name: Seq<char>) -> Option<ColorLevels> {
    if name == "black"@ {
        Some(ColorLevels { r: 0, g: 0, b: 0 })
    } else if name == "white"@ {
        Some(ColorLevels { r: 510, g: 510, b: 510 })
    } else if name == "red"@ {
        Some(ColorLevels { r: 510, g: 0, b: 0 })
    } else if name == "green"@ {
        Some(ColorLevels { r: 0, g: 510, b: 0 })
    } else if name == "blue"@ {
        Some(ColorLevels { r: 0, g: 0, b: 510 })
    } else if name == "yellow"@ {
        Some(ColorLevels { r: 510, g: 510, b: 0 })
    } else if name == "cyan"@ {
        Some(ColorLevels { r: 0, g: 510, b: 510 })
    } else if name == "magenta"@ {
        Some(ColorLevels { r: 510, g: 0, b: 510 })
    } else if name == "gray"@ || name == "grey"@ {
        Some(ColorLevels { r: 255, g: 255, b: 255 })
    } else if name == "orange"@ {
        Some(ColorLevels { r: 510, g: 255, b: 0 })
    } else {
        None
    }
}

/// Lower-case form of a text, as `str::to_lowercase` gives it (Unicode lower-casing).
pub uninterp spec fn lowercase(s: Seq<char>) -> Seq<char>;

/// `str::to_lowercase`: the lower-case equivalent of the text, per the Unicode
/// `Lowercase` property.
#[verifier::external_body]
fn str_to_lowercase(s: &str) -> (r: String)
    ensures
        r@ == lowercase(s@),
{
    s.to_lowercase()
}

/// The result `parse_color` gives for a colour text with UTF-8 bytes `b` and characters
/// `s`, and the error message it gives otherwise.
pub open spec fn color_result(b: Seq<u8>, s: Seq<char>) -> Result<ColorLevels, Seq<char>> {
    if is_hex_form(b) {
        if b.len() == 4 || b.len() == 7 {
            match (if hex_cuts_on_boundaries(b) { hex_color(b) } else { None }) {
                Some(c) => Ok(c),
                None => Err("Invalid hex color: "@ + s),
            }
        } else {
            Err("Invalid hex color format: "@ + s)
        }
    } else {
        match named_levels(lowercase(s)) {
            Some(c) => Ok(c),
            None => Err("Unknown color name: "@ + s),
        }
    }
}

/// The value of one ASCII hex digit.
fn hex_digit_value(c: u8) -> (r: Option<u8>)
    ensures
        r == hex_digit(c),
{
    if 0x30 <= c && c <= 0x39 {
        Some(c - 0x30)
    } else if 0x41 <= c && c <= 0x46 {
        Some(c - 0x41 + 10)
    } else if 0x61 <= c && c <= 0x66 {
        Some(c - 0x61 + 10)
    } else {
        None
    }
}

/// Parses the two-byte hex channel `a b` (an optional `+` then hex digits).
pub fn parse_hex_pair(a: u8, b: u8) -> (r: Option<u8>)
    ensures
        r == hex_pair(a, b),
{
    if a == 0x2b {
        hex_digit_value(b)
    } else {
        match (hex_digit_value(a), hex_digit_value(b)) {
            (Some(x), Some(y)) => Some(x * 16 + y),
            _ => None,
        }
    }
}

/// The colour a lower-case colour name denotes, if it is one of the known names.
pub fn named_color(name: &String) -> (r: Option<ColorLevels>)
    ensures
        r == named_levels(name@),
{
    let full: u16 = COLOR_LEVELS;
    let half: u16 = 255;
    if *name == String::from_str("black") {
        Some(ColorLevels { r: 0, g: 0, b: 0 })
    } else if *name == String::from_str("white") {
        Some(ColorLevels { r: full, g: full, b: full })
    } else if *name == String::from_str("red") {
        Some(ColorLevels { r: full, g: 0, b: 0 })
    } else if *name == String::from_str("green") {
        Some(ColorLevels { r: 0, g: full, b: 0 })
    } else if *name == String::from_str("blue") {
        Some(ColorLevels { r: 0, g: 0, b: full })
    } else if *name == String::from_str("yellow") {
        Some(ColorLevels { r: full, g: full, b: 0 })
    } else if *name == String::from_str("cyan") {
        Some(ColorLevels { r: 0, g: full, b: full })
    } else if *name == String::from_str("magenta") {
        Some(ColorLevels { r: full, g: 0, b: full })
    } else if *name == String::from_str("gray") || *name == String::from_str("grey") {
        Some(ColorLevels { r: half, g: half, b: half })
    } else if *name == String::from_str("orange") {
        Some(ColorLevels { r: full, g: half, b: 0 })
    } else {
        None
    }
}

/// Parses a style colour: `#RGB` (each digit doubled), `#RRGGBB`, or a colour name
/// (black, white, red, green, blue, yellow, cyan, magenta, gray/grey, orange), case
/// insensitive. A hex text whose channels would be cut inside a character is an invalid
/// hex colour.
pub fn parse_color(color_str: &str) -> (r: Result<ColorLevels, String>)
    ensures
        match (r, color_result(color_str.spec_bytes(), color_str@)) {
            (Ok(c), Ok(d)) => c == d,
            (Err(e), Err(m)) => e@ == m,
            _ => false,
        },
{
    let b = color_str.as_bytes();
    let n = b.len();
    if n >= 1 && b[0] == 0x23 {
        if n == 4 || n == 7 {
            if !hex_cuts_ok(b) {
                return Err(concat2("Invalid hex color: ", color_str));
            }
            let (r, g, bl) = if n == 4 {
                let r = parse_hex_pair(b[1], b[1]);
                let g = parse_hex_pair(b[2], b[2]);
                let bl = parse_hex_pair(b[3], b[3]);
                (r, g, bl)
            } else {
                let r = parse_hex_pair(b[1], b[2]);
                let g = parse_hex_pair(b[3], b[4]);
                let bl = parse_hex_pair(b[5], b[6]);
                (r, g, bl)
            };
            match (r, g, bl) {
                (Some(r), Some(g), Some(bl)) => Ok(ColorLevels { r: 2 * (r as u16), g: 2 * (g as u16), b: 2 * (bl as u16) }),
                _ => Err(concat2("Invalid hex color: ", color_str)),
            }
        } else {
            Err(concat2("Invalid hex color format: ", color_str))
        }
    } else {
        let lower = str_to_lowercase(color_str);
        match named_color(&lower) {
            Some(c) => Ok(c),
            None => Err(concat2("Unknown color name: ", color_str)),
        }
    }
}

// ---------------------------------------------------------------- style file validation

/// A value of the style file, as far as validation looks at it: the expected kind comes
/// from the key, not from the shape of the value.
#[derive(Debug, Clone, PartialEq, Eq)]
pub enum StyleValue {
    /// A JSON string.
    Text(String),
    /// A JSON boolean.
    Flag(bool),
    /// A JSON number. Every JSON number converts to a float, so it passes as a float and
    /// as an integer alike.
    Number,
    /// `null`, an array or an object.
    Other,
}

/// One entry of the style file: the key as written, its value, and the value as JSON
/// text (quoted in problem reports).
#[derive(Debug, Clone, PartialEq, Eq)]
pub struct StyleEntry {
    pub name: String,
    pub value: StyleValue,
    pub json: String,
}

/// The first entry named `name`, if any.
pub open spec fn entry_for(raw: Seq<StyleEntry>, name: Seq<char>) -> Option<StyleEntry>
    decreases raw.len(),
{
    if raw.len() == 0 {
        None
    } else if raw[0].name@ == name {
        Some(raw[0])
    } else {
        entry_for(raw.drop_first(), name)
    }
}

/// What `parse_color` gives for a colour text.
pub open spec fn color_text_result(s: Seq<char>) -> Result<ColorLevels, Seq<char>> {
    color_result(encode_utf8(s), s)
}

/// Why `value` (JSON text `json`) is not a value of `kind`; `None` when it is.
pub open spec fn kind_problem(value: StyleValue, json: Seq<char>, kind: ValueKind) -> Option<Seq<char>> {
    match kind {
        ValueKind::Color => match value {
            StyleValue::Text(s) => match color_text_result(s@) {
                Ok(_) => None,
                Err(m) => Some(m),
            },
            _ => Some("expected a color string, got "@ + json),
        },
        ValueKind::Float => match value {
            StyleValue::Number => None,
            _ => Some("expected a number, got "@ + json),
        },
        ValueKind::Integer => match value {
            StyleValue::Number => None,
            _ => Some("expected an integer, got "@ + json),
        },
        ValueKind::Boolean => match value {
            StyleValue::Flag(_) => None,
            _ => Some("expected a boolean, got "@ + json),
        },
        ValueKind::String => match value {
            StyleValue::Text(_) => None,
            _ => Some("expected a string, got "@ + json),
        },
    }
}

/// The problem reported for key `k`: missing, or present with a value not of its kind.
pub open spec fn key_problem(raw: Seq<StyleEntry>, k: StyleKey) -> Option<Seq<char>> {
    match entry_for(raw, key_name(k)) {
        None => Some("'"@ + key_name(k) + "': missing"@),
        Some(e) => match kind_problem(e.value, e.json@, key_kind(k)) {
            None => None,
            Some(reason) => Some("'"@ + key_name(k) + "': "@ + reason),
        },
    }
}

/// The problems of the first `n` keys, in key order.
pub open spec fn problems_of(raw: Seq<StyleEntry>, n: nat) -> Seq<Seq<char>>
    decreases n,
{
    if n == 0 {
        Seq::empty()
    } else {
        let prev = problems_of(raw, (n - 1) as nat);
        match key_problem(raw, key_at(n - 1)) {
            Some(p) => prev.push(p),
            None => prev,
        }
    }
}

/// Every problem of a style file, in key order.
pub open spec fn style_problems(raw: Seq<StyleEntry>) -> Seq<Seq<char>> {
    problems_of(raw, STYLE_KEY_COUNT as nat)
}

/// The texts of `ps` joined with `sep` between consecutive ones.
pub open spec fn joined(ps: Seq<Seq<char>>, sep: Seq<char>) -> Seq<char>
    decreases ps.len(),
{
    if ps.len() == 0 {
        Seq::empty()
    } else if ps.len() == 1 {
        ps[0]
    } else {
        joined(ps.drop_last(), sep) + sep + ps.last()
    }
}

/// The report of a failed validation: the number of problems, then each on a line of
/// its own.
pub open spec fn validation_report(ps: Seq<Seq<char>>) -> Seq<char> {
    "ui style validation failed ("@ + decimal(ps.len()) + " problem(s)):\n  "@ + joined(ps, "\n  "@)
}

/// The position of the first entry named `name`, if any.
pub fn find_entry(raw: &Vec<StyleEntry>, name: &str) -> (r: Option<usize>)
    ensures
        match r {
            Some(i) => i < raw@.len() && entry_for(raw@, name@) == Some(raw@[i as int]),
            None => entry_for(raw@, name@) is None,
        },
{
    let target = String::from_str(name);
    let mut i: usize = 0;
    assert(raw@.skip(0) =~= raw@);
    while i < raw.len()
        invariant
            i <= raw.len(),
            target@ == name@,
            entry_for(raw@, name@) == entry_for(raw@.skip(i as int), name@),
        decreases raw.len() - i,
    {
        let ghost rest = raw@.skip(i as int);
        assert(rest.drop_first() =~= raw@.skip(i + 1));
        assert(rest[0] == raw@[i as int]);
        if raw[i].name == target {
            return Some(i);
        }
        i = i + 1;
    }
    None
}

/// Why `value` (JSON text `json`) is not a value of `kind`; `None` when it is.
pub fn check_kind(value: &StyleValue, json: &String, kind: ValueKind) -> (r: Option<String>)
    ensures
        match (r, kind_problem(*value, json@, kind)) {
            (Some(m), Some(p)) => m@ == p,
            (None, None) => true,
            _ => false,
        },
{
    match kind {
        ValueKind::Color => match value {
            StyleValue::Text(s) => {
                match parse_color(s.as_str()) {
                    Ok(_) => None,
                    Err(m) => Some(m),
                }
            },
            _ => Some(concat2("expected a color string, got ", json.as_str())),
        },
        ValueKind::Float => match value {
            StyleValue::Number => None,
            _ => Some(concat2("expected a number, got ", json.as_str())),
        },
        ValueKind::Integer => match value {
            StyleValue::Number => None,
            _ => Some(concat2("expected an integer, got ", json.as_str())),
        },
        ValueKind::Boolean => match value {
            StyleValue::Flag(_) => None,
            _ => Some(concat2("expected a boolean, got ", json.as_str())),
        },
        ValueKind::String => match value {
            StyleValue::Text(_) => None,
            _ => Some(concat2("expected a string, got ", json.as_str())),
        },
    }
}

proof fn lemma_joined_step(ps: Seq<Seq<char>>, sep: Seq<char>, i: int)
    requires
        0 <= i < ps.len(),
    ensures
        joined(ps.take(i + 1), sep) == if i == 0 { ps[0] } else { joined(ps.take(i), sep) + sep + ps[i] },
{
    let t = ps.take(i + 1);
    assert(t.drop_last() =~= ps.take(i));
    if i == 0 {
        assert(t.len() == 1);
    }
}

/// The report of a failed validation listing `problems`.
fn report(problems: &Vec<String>) -> (m: String)
    ensures
        m@ == validation_report(lines_view(problems@)),
{
    let ghost ps = lines_view(problems@);
    let mut m = String::from_str("ui style validation failed (");
    push_decimal(&mut m, problems.len());
    m.append(" problem(s)):\n  ");
    let ghost head = m@;
    let mut i: usize = 0;
    assert(ps.take(0) =~= Seq::<Seq<char>>::empty());
    while i < problems.len()
        invariant
            i <= problems.len(),
            ps == lines_view(problems@),
            m@ == head + joined(ps.take(i as int), "\n  "@),
        decreases problems.len() - i,
    {
        proof {
            lemma_joined_step(ps, "\n  "@, i as int);
        }
        if i > 0 {
            m.append("\n  ");
        }
        m.append(problems[i].as_str());
        assert(ps[i as int] == problems@[i as int]@);
        i = i + 1;
        assert(m@ =~= head + joined(ps.take(i as int), "\n  "@));
    }
    assert(ps.take(problems.len() as int) =~= ps);
    m
}

/// Checks a style file given as its entries: every key must be present with a value
/// of its kind. On failure the error lists every problem found, in key order, so that
/// a bad file can be fixed in one pass.
pub fn validate_style(raw: &Vec<StyleEntry>) -> (r: Result<(), String>)
    ensures
        r is Ok <==> style_problems(raw@).len() == 0,
        r matches Err(m) ==> m@ == validation_report(style_problems(raw@)),
{
    let mut problems: Vec<String> = Vec::new();
    let mut i: usize = 0;
    while i < STYLE_KEY_COUNT
        invariant
            i <= STYLE_KEY_COUNT,
            lines_view(problems@) == problems_of(raw@, i as nat),
        decreases STYLE_KEY_COUNT - i,
    {
        let key = StyleKey::at(i);
        let name = key.json_name();
        match find_entry(raw, name) {
            None => {
                problems.push(concat3("'", name, "': missing"));
            },
            Some(j) => {
                match check_kind(&raw[j].value, &raw[j].json, key.kind()) {
                    None => {},
                    Some(reason) => {
                        problems.push(concat3("'", name, "': ").concat(reason.as_str()));
                    },
                }
            },
        }
        i = i + 1;
        assert(lines_view(problems@) =~= problems_of(raw@, i as nat));
    }
    if problems.len() == 0 {
        Ok(())
    } else {
        Err(report(&problems))
    }
}

fn continuation_byte(b: u8) -> (r: bool)
    ensures
        r == is_continuation_byte(b),
{
    0x80 <= b && b <= 0xbf
}

/// Whether the hex channels of a `#` text of 3 or 6 digits are cut on character
/// boundaries.
fn hex_cuts_ok(b: &[u8]) -> (r: bool)
    requires
        b@.len() == 4 || b@.len() == 7,
    ensures
        r == hex_cuts_on_boundaries(b@),
{
    if b.len() == 4 {
        !continuation_byte(b[2]) && (parse_hex_pair(b[1], b[1]).is_none() || !continuation_byte(b[3]))
    } else {
        !continuation_byte(b[3]) && (parse_hex_pair(b[1], b[2]).is_none() || !continuation_byte(b[5]))
    }
}

/// The entries of a style file given as JSON text, ordered by key name, or the parse
/// error message: what `serde_json` reads from the text as an object.
pub uninterp spec fn json_style_entries(text: Seq<char>) -> Result<Seq<StyleEntry>, Seq<char>>;

/// `serde_json::from_str` into a `serde_json::Map` (ordered by key): each member becomes
/// an entry holding its name, its value told apart by JSON type (string, boolean,
/// number, anything else) and its compact JSON text (`Value`'s `Display`); a parse
/// failure gives the error's message.
#[verifier::external_body]
fn parse_style_json(s: &str) -> (r: Result<Vec<StyleEntry>, String>)
    ensures
        match (r, json_style_entries(s@)) {
            (Ok(v), Ok(w)) => v@ == w,
            (Err(m), Err(n)) => m@ == n,
            _ => false,
        },
{
    match serde_json::from_str::<serde_json::Map<String, Value>>(s) {
        Ok(map) => Ok(map.iter().map(|(name, value)| StyleEntry {
            name: name.clone(),
            value: match value {
                Value::String(t) => StyleValue::Text(t.clone()),
                Value::Bool(b) => StyleValue::Flag(*b),
                Value::Number(_) => StyleValue::Number,
                Value::Null => StyleValue::Other,
                Value::Array(_) => StyleValue::Other,
                Value::Object(_) => StyleValue::Other,
            },
            json: value.to_string(),
        }).collect()),
        Err(e) => Err(e.to_string()),
    }
}

/// Reads and checks a style file given as JSON text: a parse failure is reported as
/// such; otherwise the entries are returned when every key is present with a value of
/// its kind, and the report of every problem when not.
pub fn validate_style_json(s: &str) -> (r: Result<Vec<StyleEntry>, String>)
    ensures
        match json_style_entries(s@) {
            Err(m) => r matches Err(e) && e@ == "ui style: failed to parse JSON: "@ + m,
            Ok(raw) => if style_problems(raw).len() == 0 {
                r matches Ok(v) && v@ == raw
            } else {
                r matches Err(e) && e@ == validation_report(style_problems(raw))
            },
        },
{
    match parse_style_json(s) {
        Err(m) => Err(concat2("ui style: failed to parse JSON: ", m.as_str())),
        Ok(raw) => match validate_style(&raw) {
            Ok(()) => Ok(raw),
            Err(e) => Err(e),
        },
    }
}

/// The problems of the first `n` keys list, for each of them in key order, the problem
/// it has, if any: a key's problem is reported, and only keys' problems are.
proof fn lemma_problems_of_lists(raw: Seq<StyleEntry>, n: nat, i: int)
    requires
        0 <= i < n,
        key_problem(raw, key_at(i)) is Some,
    ensures
        problems_of(raw, n).contains(key_problem(raw, key_at(i))->0),
    decreases n,
{
    if i < n - 1 {
        lemma_problems_of_lists(raw, (n - 1) as nat, i);
        let prev = problems_of(raw, (n - 1) as nat);
        let p = key_problem(raw, key_at(i))->0;
        let j = choose|j: int| 0 <= j < prev.len() && prev[j] == p;
        assert(problems_of(raw, n)[j] == p);
    } else {
        let cur = problems_of(raw, n);
        assert(cur[cur.len() - 1] == key_problem(raw, key_at(i))->0);
    }
}

proof fn lemma_problems_of_empty(raw: Seq<StyleEntry>, n: nat)
    ensures
        problems_of(raw, n).len() == 0 <==> forall|i: int| 0 <= i < n ==> #[trigger] key_problem(raw, key_at(i)) is None,
    decreases n,
{
    if n > 0 {
        lemma_problems_of_empty(raw, (n - 1) as nat);
        if problems_of(raw, n).len() == 0 {
            assert forall|i: int| 0 <= i < n implies #[trigger] key_problem(raw, key_at(i)) is None by {
                if i == n - 1 {
                } else {
                    assert(key_problem(raw, key_at(i)) is None);
                }
            }
        }
    }
}

/// A style file passes validation exactly when every key is present with a value of
/// its kind.
pub proof fn lemma_valid_iff_every_key_ok(raw: Seq<StyleEntry>)
    ensures
        style_problems(raw).len() == 0 <==> forall|k: StyleKey| #[trigger] key_problem(raw, k) is None,
{
    lemma_problems_of_empty(raw, STYLE_KEY_COUNT as nat);
    if style_problems(raw).len() == 0 {
        assert forall|k: StyleKey| #[trigger] key_problem(raw, k) is None by {
            lemma_every_key_listed(k);
            let i = choose|i: int| 0 <= i < STYLE_KEY_COUNT && key_at(i) == k;
            assert(key_problem(raw, key_at(i)) is None);
        }
    }
}

/// Every problem of a style file is reported: a missing key is reported as missing, a
/// key whose value is not of its kind with the reason.
pub proof fn lemma_every_problem_reported(raw: Seq<StyleEntry>, k: StyleKey)
    requires
        key_problem(raw, k) is Some,
    ensures
        style_problems(raw).contains(key_problem(raw, k)->0),
{
    lemma_every_key_listed(k);
    let i = choose|i: int| 0 <= i < STYLE_KEY_COUNT && key_at(i) == k;
    lemma_problems_of_lists(raw, STYLE_KEY_COUNT as nat, i);
}

/// Every channel of a parsed colour is a level between 0 and `COLOR_LEVELS`.
pub proof fn lemma_color_levels_in_range(b: Seq<u8>, s: Seq<char>)
    ensures
        color_result(b, s) matches Ok(c) ==> c.r <= 510 && c.g <= 510 && c.b <= 510,
{
}

/// `#RGB` is shorthand for `#RRGGBB` with each digit doubled.
pub proof fn lemma_short_form_doubles_digits(b4: Seq<u8>, b7: Seq<u8>)
    requires
        b4.len() == 4,
        b7.len() == 7,
        b4[0] == 0x23,
        b7[0] == 0x23,
        b7[1] == b4[1] && b7[2] == b4[1],
        b7[3] == b4[2] && b7[4] == b4[2],
        b7[5] == b4[3] && b7[6] == b4[3],
    ensures
        hex_color(b4) == hex_color(b7),
{
}

/// The colour names and what each one is: black has every channel off and white every
/// channel at full level; red, green and blue have full level in their own channel only;
/// yellow, cyan and magenta in the two channels they mix; gray (or grey) has every channel
/// at half level, and orange full red with half green. No other name is a colour.
pub proof fn lemma_named_colors(name: Seq<char>)
    ensures
        named_levels(name) is Some <==> (name == "black"@ || name == "white"@ || name == "red"@ || name == "green"@ || name == "blue"@ || name == "yellow"@ || name == "cyan"@ || name == "magenta"@ || name == "gray"@ || name == "grey"@ || name == "orange"@),
        name == "black"@ ==> named_levels(name) == Some(ColorLevels { r: 0, g: 0, b: 0 }),
        name == "white"@ ==> named_levels(name) == Some(ColorLevels { r: 510, g: 510, b: 510 }),
        name == "red"@ ==> named_levels(name) == Some(ColorLevels { r: 510, g: 0, b: 0 }),
        name == "green"@ ==> named_levels(name) == Some(ColorLevels { r: 0, g: 510, b: 0 }),
        name == "blue"@ ==> named_levels(name) == Some(ColorLevels { r: 0, g: 0, b: 510 }),
        name == "yellow"@ ==> named_levels(name) == Some(ColorLevels { r: 510, g: 510, b: 0 }),
        name == "cyan"@ ==> named_levels(name) == Some(ColorLevels { r: 0, g: 510, b: 510 }),
        name == "magenta"@ ==> named_levels(name) == Some(ColorLevels { r: 510, g: 0, b: 510 }),
        name == "gray"@ ==> named_levels(name) == Some(ColorLevels { r: 255, g: 255, b: 255 }),
        name == "grey"@ ==> named_levels(name) == Some(ColorLevels { r: 255, g: 255, b: 255 }),
        name == "orange"@ ==> named_levels(name) == Some(ColorLevels { r: 510, g: 255, b: 0 }),
{
    reveal_strlit("black");
    reveal_strlit("white");
    reveal_strlit("red");
    reveal_strlit("green");
    reveal_strlit("blue");
    reveal_strlit("yellow");
    reveal_strlit("cyan");
    reveal_strlit("magenta");
    reveal_strlit("gray");
    reveal_strlit("grey");
    reveal_strlit("orange");
    assert("black"@ != "white"@) by { assert("black"@[0] != "white"@[0]); }
    assert("black"@ != "red"@) by { assert("black"@.len() != "red"@.len()); }
    assert("white"@ != "red"@) by { assert("white"@.len() != "red"@.len()); }
    assert("black"@ != "green"@) by { assert("black"@[0] != "green"@[0]); }
    assert("white"@ != "green"@) by { assert("white"@[0] != "green"@[0]); }
    assert("red"@ != "green"@) by { assert("red"@.len() != "green"@.len()); }
    assert("black"@ != "blue"@) by { assert("black"@.len() != "blue"@.len()); }
    assert("white"@ != "blue"@) by { assert("white"@.len() != "blue"@.len()); }
    assert("red"@ != "blue"@) by { assert("red"@.len() != "blue"@.len()); }
    assert("green"@ != "blue"@) by { assert("green"@.len() != "blue"@.len()); }
    assert("black"@ != "yellow"@) by { assert("black"@.len() != "yellow"@.len()); }
    assert("white"@ != "yellow"@) by { assert("white"@.len() != "yellow"@.len()); }
    assert("red"@ != "yellow"@) by { assert("red"@.len() != "yellow"@.len()); }
    assert("green"@ != "yellow"@) by { assert("green"@.len() != "yellow"@.len()); }
    assert("blue"@ != "yellow"@) by { assert("blue"@.len() != "yellow"@.len()); }
    assert("black"@ != "cyan"@) by { assert("black"@.len() != "cyan"@.len()); }
    assert("white"@ != "cyan"@) by { assert("white"@.len() != "cyan"@.len()); }
    assert("red"@ != "cyan"@) by { assert("red"@.len() != "cyan"@.len()); }
    assert("green"@ != "cyan"@) by { assert("green"@.len() != "cyan"@.len()); }
    assert("blue"@ != "cyan"@) by { assert("blue"@[0] != "cyan"@[0]); }
    assert("yellow"@ != "cyan"@) by { assert("yellow"@.len() != "cyan"@.len()); }
    assert("black"@ != "magenta"@) by { assert("black"@.len() != "magenta"@.len()); }
    assert("white"@ != "magenta"@) by { assert("white"@.len() != "magenta"@.len()); }
    assert("red"@ != "magenta"@) by { assert("red"@.len() != "magenta"@.len()); }
    assert("green"@ != "magenta"@) by { assert("green"@.len() != "magenta"@.len()); }
    assert("blue"@ != "magenta"@) by { assert("blue"@.len() != "magenta"@.len()); }
    assert("yellow"@ != "magenta"@) by { assert("yellow"@.len() != "magenta"@.len()); }
    assert("cyan"@ != "magenta"@) by { assert("cyan"@.len() != "magenta"@.len()); }
    assert("black"@ != "gray"@) by { assert("black"@.len() != "gray"@.len()); }
    assert("white"@ != "gray"@) by { assert("white"@.len() != "gray"@.len()); }
    assert("red"@ != "gray"@) by { assert("red"@.len() != "gray"@.len()); }
    assert("green"@ != "gray"@) by { assert("green"@.len() != "gray"@.len()); }
    assert("blue"@ != "gray"@) by { assert("blue"@[0] != "gray"@[0]); }
    assert("yellow"@ != "gray"@) by { assert("yellow"@.len() != "gray"@.len()); }
    assert("cyan"@ != "gray"@) by { assert("cyan"@[0] != "gray"@[0]); }
    assert("magenta"@ != "gray"@) by { assert("magenta"@.len() != "gray"@.len()); }
    assert("black"@ != "grey"@) by { assert("black"@.len() != "grey"@.len()); }
    assert("white"@ != "grey"@) by { assert("white"@.len() != "grey"@.len()); }
    assert("red"@ != "grey"@) by { assert("red"@.len() != "grey"@.len()); }
    assert("green"@ != "grey"@) by { assert("green"@.len() != "grey"@.len()); }
    assert("blue"@ != "grey"@) by { assert("blue"@[0] != "grey"@[0]); }
    assert("yellow"@ != "grey"@) by { assert("yellow"@.len() != "grey"@.len()); }
    assert("cyan"@ != "grey"@) by { assert("cyan"@[0] != "grey"@[0]); }
    assert("magenta"@ != "grey"@) by { assert("magenta"@.len() != "grey"@.len()); }
    assert("gray"@ != "grey"@) by { assert("gray"@[2] != "grey"@[2]); }
    assert("black"@ != "orange"@) by { assert("black"@.len() != "orange"@.len()); }
    assert("white"@ != "orange"@) by { assert("white"@.len() != "orange"@.len()); }
    assert("red"@ != "orange"@) by { assert("red"@.len() != "orange"@.len()); }
    assert("green"@ != "orange"@) by { assert("green"@.len() != "orange"@.len()); }
    assert("blue"@ != "orange"@) by { assert("blue"@.len() != "orange"@.len()); }
    assert("yellow"@ != "orange"@) by { assert("yellow"@[0] != "orange"@[0]); }
    assert("cyan"@ != "orange"@) by { assert("cyan"@.len() != "orange"@.len()); }
    assert("magenta"@ != "orange"@) by { assert("magenta"@.len() != "orange"@.len()); }
    assert("gray"@ != "orange"@) by { assert("gray"@.len() != "orange"@.len()); }
    assert("grey"@ != "orange"@) by { assert("grey"@.len() != "orange"@.len()); }
}

} // verus!
