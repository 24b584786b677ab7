//! Rendering of the gsettings schema: one `<key>` element per setting,
//! typed after the manifest value and carrying the manifest default. The
//! default text follows the manifest serialization: strings are quoted
//! and escaped, integers and booleans print plainly, and values the
//! schema stores as text keep their already-rendered form.

use vstd::prelude::*;
use vstd::string::StringExecFns;

use crate::descriptor::SettingValue;
use crate::text::{
    chars_str, i64_str, join_strings, replace, spec_i64_str, spec_join, spec_replace, str_chars,
};

verus! {

/// The uppercase hexadecimal digit character for `d`.
pub open spec fn spec_hex_digit(d: nat) -> char {
    if d < 10 {
        crate::text::spec_digit(d)
    } else if d == 10 {
        'A'
    } else if d == 11 {
        'B'
    } else if d == 12 {
        'C'
    } else if d == 13 {
        'D'
    } else if d == 14 {
        'E'
    } else {
        'F'
    }
}

/// The escape text of one character inside a quoted manifest string:
/// named escapes for the common control characters, quote and backslash,
/// a `\u00XX` escape for the other control characters, the character
/// itself otherwise.
pub open spec fn spec_escape_char(c: char) -> Seq<char> {
    if c == '\u{8}' {
        seq!['\\', 'b']
    } else if c == '\t' {
        seq!['\\', 't']
    } else if c == '\n' {
        seq!['\\', 'n']
    } else if c == '\u{c}' {
        seq!['\\', 'f']
    } else if c == '\r' {
        seq!['\\', 'r']
    } else if c == '"' {
        seq!['\\', '"']
    } else if c == '\\' {
        seq!['\\', '\\']
    } else if c as u32 <= 0x1f || c as u32 == 0x7f {
        seq![
            '\\',
            'u',
            '0',
            '0',
            spec_hex_digit((c as u32 / 16) as nat),
            spec_hex_digit((c as u32 % 16) as nat),
        ]
    } else {
        seq![c]
    }
}

/// The body of a quoted manifest string: each character escaped.
pub open spec fn spec_escaped(s: Seq<char>) -> Seq<char>
    decreases s.len(),
{
    if s.len() == 0 {
        Seq::empty()
    } else {
        spec_escape_char(s[0]) + spec_escaped(s.skip(1))
    }
}

/// A string as the manifest serializes it: quoted and escaped.
pub open spec fn spec_toml_quoted(s: Seq<char>) -> Seq<char> {
    seq!['"'] + spec_escaped(s) + seq!['"']
}

fn hex_digit_char(d: u32) -> (c: char)
    requires
        d < 16,
    ensures
        c == spec_hex_digit(d as nat),
{
    if d == 0 {
        '0'
    } else if d == 1 {
        '1'
    } else if d == 2 {
        '2'
    } else if d == 3 {
        '3'
    } else if d == 4 {
        '4'
    } else if d == 5 {
        '5'
    } else if d == 6 {
        '6'
    } else if d == 7 {
        '7'
    } else if d == 8 {
        '8'
    } else if d == 9 {
        '9'
    } else if d == 10 {
        'A'
    } else if d == 11 {
        'B'
    } else if d == 12 {
        'C'
    } else if d == 13 {
        'D'
    } else if d == 14 {
        'E'
    } else {
        'F'
    }
}

fn push_escaped(out: &mut Vec<char>, c: char)
    ensures
        final(out)@ == old(out)@ + spec_escape_char(c),
{
    let ghost base = out@;
    if c == '\u{8}' {
        out.push('\\');
        out.push('b');
    } else if c == '\t' {
        out.push('\\');
        out.push('t');
    } else if c == '\n' {
        out.push('\\');
        out.push('n');
    } else if c == '\u{c}' {
        out.push('\\');
        out.push('f');
    } else if c == '\r' {
        out.push('\\');
        out.push('r');
    } else if c == '"' {
        out.push('\\');
        out.push('"');
    } else if c == '\\' {
        out.push('\\');
        out.push('\\');
    } else if c as u32 <= 0x1f || c as u32 == 0x7f {
        out.push('\\');
        out.push('u');
        out.push('0');
        out.push('0');
        out.push(hex_digit_char(c as u32 / 16));
        out.push(hex_digit_char(c as u32 % 16));
    } else {
        out.push(c);
    }
    assert(out@ =~= base + spec_escape_char(c));
}

/// `s` as the manifest serializes a string: quoted and escaped.
pub fn toml_quoted(s: &str) -> (r: String)
    ensures
        r@ == spec_toml_quoted(s@),
{
    let sv = str_chars(s);
    let mut out: Vec<char> = Vec::new();
    out.push('"');
    let ghost head = out@;
    let mut i: usize = 0;
    assert(s@.skip(0) =~= s@);
    while i < sv.len()
        invariant
            sv@ == s@,
            i <= s@.len(),
            head == seq!['"'],
            out@ + spec_escaped(s@.skip(i as int)) == head + spec_escaped(s@),
        decreases sv.len() - i,
    {
        push_escaped(&mut out, sv[i]);
        proof {
            assert(s@.skip(i as int).skip(1) =~= s@.skip(i + 1));
            assert(spec_escaped(s@.skip(i as int)) == spec_escape_char(s@[i as int])
                + spec_escaped(s@.skip(i + 1)));
        }
        i += 1;
    }
    assert(s@.skip(s@.len() as int) =~= Seq::<char>::empty());
    out.push('"');
    assert(out@ =~= seq!['"'] + spec_escaped(s@) + seq!['"']);
    chars_str(&out)
}

/// The one-letter schema type of a setting value: `i` for integers,
/// `b` for booleans, `f` for floats, `s` otherwise.
pub open spec fn spec_setting_type(v: SettingValue) -> Seq<char> {
    match v {
        SettingValue::Str(_) => "s"@,
        SettingValue::Int(_) => "i"@,
        SettingValue::Bool(_) => "b"@,
        SettingValue::Float(_) => "f"@,
        SettingValue::Datetime(_) => "s"@,
        SettingValue::Array(_) => "s"@,
        SettingValue::Table(_) => "s"@,
    }
}

/// The one-letter schema type of a setting value.
pub fn setting_type(v: &SettingValue) -> (r: &'static str)
    ensures
        r@ == spec_setting_type(*v),
{
    match v {
        SettingValue::Str(_) => "s",
        SettingValue::Int(_) => "i",
        SettingValue::Bool(_) => "b",
        SettingValue::Float(_) => "f",
        SettingValue::Datetime(_) => "s",
        SettingValue::Array(_) => "s",
        SettingValue::Table(_) => "s",
    }
}

/// The default text of a setting value, as the manifest serializes it.
pub open spec fn spec_setting_default(v: SettingValue) -> Seq<char> {
    match v {
        SettingValue::Str(s) => spec_toml_quoted(s@),
        SettingValue::Int(n) => spec_i64_str(n as int),
        SettingValue::Bool(b) => if b {
            "true"@
        } else {
            "false"@
        },
        SettingValue::Float(t) => t@,
        SettingValue::Datetime(t) => t@,
        SettingValue::Array(t) => t@,
        SettingValue::Table(t) => t@,
    }
}

/// The default text of a setting value.
pub fn setting_default(v: &SettingValue) -> (r: String)
    ensures
        r@ == spec_setting_default(*v),
{
    match v {
        SettingValue::Str(s) => toml_quoted(s.as_str()),
        SettingValue::Int(n) => i64_str(*n),
        SettingValue::Bool(b) => {
            let mut out = String::new();
            if *b {
                out.append("true");
            } else {
                out.append("false");
            }
            out
        },
        SettingValue::Float(t) => t.clone(),
        SettingValue::Datetime(t) => t.clone(),
        SettingValue::Array(t) => t.clone(),
        SettingValue::Table(t) => t.clone(),
    }
}

/// One `<key>` element of the settings schema.
pub open spec fn spec_key_xml(name: Seq<char>, v: SettingValue) -> Seq<char> {
    "<key name=\""@ + name + "\" type=\""@ + spec_setting_type(v) + "\">\n  <default>"@
        + spec_setting_default(v) + "</default>\n</key>"@
}

/// One `<key>` element of the settings schema.
pub fn key_xml(name: &String, v: &SettingValue) -> (r: String)
    ensures
        r@ == spec_key_xml(name@, *v),
{
    let mut out = String::new();
    out.append("<key name=\"");
    out.append(name.as_str());
    out.append("\" type=\"");
    out.append(setting_type(v));
    out.append("\">\n  <default>");
    let d = setting_default(v);
    out.append(d.as_str());
    out.append("</default>\n</key>");
    assert(out@ =~= spec_key_xml(name@, *v));
    out
}

/// The settings schema: the template with the app id, the slash-form
/// schema path and the key elements substituted for their placeholders.
pub open spec fn spec_gschema_xml(
    id: Seq<char>,
    settings: Seq<(String, SettingValue)>,
    template: Seq<char>,
) -> Seq<char> {
    let keys = spec_join(
        settings.map_values(|e: (String, SettingValue)| spec_key_xml(e.0@, e.1)),
        "\n"@,
    );
    let path = "/"@ + spec_replace(id, "."@, "/"@) + "/"@;
    spec_replace(
        spec_replace(spec_replace(template, "{id}"@, id), "{path}"@, path),
        "{keys}"@,
        keys,
    )
}

/// Renders the settings schema from the template.
pub fn render_gschema_xml(
    id: &str,
    settings: &Vec<(String, SettingValue)>,
    template: &str,
) -> (r: String)
    ensures
        r@ == spec_gschema_xml(id@, settings@, template@),
{
    let mut keys: Vec<String> = Vec::new();
    let mut k: usize = 0;
    while k < settings.len()
        invariant
            k <= settings@.len(),
            keys@.len() == k,
            forall|i: int|
                0 <= i < k ==> keys@[i]@ == spec_key_xml(settings@[i].0@, settings@[i].1),
        decreases settings.len() - k,
    {
        let entry = &settings[k];
        let key = key_xml(&entry.0, &entry.1);
        keys.push(key);
        k += 1;
    }
    assert(keys.deep_view() =~= settings@.map_values(
        |e: (String, SettingValue)| spec_key_xml(e.0@, e.1),
    ));
    let keys_joined = join_strings(&keys, "\n");

    let t1 = replace(template, "{id}", id);
    let slashed = replace(id, ".", "/");
    let mut path = String::new();
    path.append("/");
    path.append(slashed.as_str());
    path.append("/");
    assert(path@ =~= "/"@ + spec_replace(id@, "."@, "/"@) + "/"@);
    let t2 = replace(t1.as_str(), "{path}", path.as_str());
    replace(t2.as_str(), "{keys}", keys_joined.as_str())
}

} // verus!
