//! The appearance settings the Settings portal serves, and the file they are
//! read from (`KEY=VALUE`, one per line).

use vstd::prelude::*;

use crate::portal::line_len;
use crate::text::{
    chars_eq, chars_of, is_ws, lemma_parse_decimal, lemma_trim_unpadded, parse_unsigned,
    spec_decimal, spec_parse_unsigned, spec_trim, string_from_chars, trim_window,
};

verus! {

broadcast use vstd::string::group_string_axioms;

/// Settings read from the appearance file. The accent colour is kept as the
/// raw text of each `accent-color` line; reading it as a colour (three
/// numbers in `[0, 1]`) is left to the caller.
#[derive(Debug, Clone)]
pub struct AppearanceSettings {
    pub color_scheme: u32,
    pub contrast: u32,
    pub reduced_motion: u32,
    /// Values of the `accent-color` lines, in file order.
    pub accent_color_values: Vec<String>,
    /// Keys the file sets that the portal does not know, in file order.
    pub unknown_keys: Vec<String>,
}

/// The mathematical content of `AppearanceSettings`.
pub struct SettingsModel {
    pub color_scheme: u32,
    pub contrast: u32,
    pub reduced_motion: u32,
    pub accent_color_values: Seq<Seq<char>>,
    pub unknown_keys: Seq<Seq<char>>,
}

impl View for AppearanceSettings {
    type V = SettingsModel;

    open spec fn view(&self) -> SettingsModel {
        SettingsModel {
            color_scheme: self.color_scheme,
            contrast: self.contrast,
            reduced_motion: self.reduced_motion,
            accent_color_values: self.accent_color_values@.map_values(|s: String| s@),
            unknown_keys: self.unknown_keys@.map_values(|s: String| s@),
        }
    }
}

/// Settings before any line is read: all zero, nothing recorded.
pub open spec fn default_settings() -> SettingsModel {
    SettingsModel {
        color_scheme: 0,
        contrast: 0,
        reduced_motion: 0,
        accent_color_values: Seq::empty(),
        unknown_keys: Seq::empty(),
    }
}

/// Position of the first `=` in `s` (its length when there is none).
pub open spec fn eq_pos(s: Seq<char>) -> nat
    decreases s.len(),
{
    if s.len() == 0 || s[0] == '=' {
        0
    } else {
        1 + eq_pos(s.drop_first())
    }
}

/// An integer setting's value: the number, or 0 when it is not one.
pub open spec fn setting_number(v: Seq<char>) -> u32 {
    match spec_parse_unsigned(v, u32::MAX as int) {
        Some(n) => n as u32,
        None => 0,
    }
}

/// The settings after one line: blank lines, `#` comments and lines without
/// `=` change nothing; otherwise the trimmed key before the first `=` picks
/// the setting and the trimmed text after it is its value.
pub open spec fn settings_line(line: Seq<char>, st: SettingsModel) -> SettingsModel {
    let t = spec_trim(line);
    if t.len() == 0 || t[0] == '#' || eq_pos(t) >= t.len() {
        st
    } else {
        let key = spec_trim(t.take(eq_pos(t) as int));
        let val = spec_trim(t.skip(eq_pos(t) + 1int));
        if key == "color-scheme"@ {
            SettingsModel { color_scheme: setting_number(val), ..st }
        } else if key == "accent-color"@ {
            SettingsModel { accent_color_values: st.accent_color_values.push(val), ..st }
        } else if key == "contrast"@ {
            SettingsModel { contrast: setting_number(val), ..st }
        } else if key == "reduced-motion"@ {
            SettingsModel { reduced_motion: setting_number(val), ..st }
        } else {
            SettingsModel { unknown_keys: st.unknown_keys.push(key), ..st }
        }
    }
}

/// The settings after reading every line of `s`, starting from `st`.
pub open spec fn settings_after(s: Seq<char>, st: SettingsModel) -> SettingsModel
    decreases s.len(),
{
    if s.len() == 0 {
        st
    } else {
        let n = line_len(s);
        let next = settings_line(s.take(n as int), st);
        if n >= s.len() {
            next
        } else {
            settings_after(s.skip(n + 1int), next)
        }
    }
}

/// The first `=` of `k + "=" + rest` is the one after `k` when `k` has none.
proof fn lemma_eq_pos_after(k: Seq<char>, rest: Seq<char>)
    requires
        forall|i: int| 0 <= i < k.len() ==> k[i] != '=',
    ensures
        eq_pos(k + seq!['='] + rest) == k.len(),
    decreases k.len(),
{
    let s = k + seq!['='] + rest;
    if k.len() > 0 {
        assert(s.drop_first() =~= k.drop_first() + seq!['='] + rest);
        lemma_eq_pos_after(k.drop_first(), rest);
    } else {
        assert(s[0] == '=');
    }
}

/// The first line of `l + "\n" + rest` is `l` when `l` holds no line break.
proof fn lemma_line_len_before(l: Seq<char>, rest: Seq<char>)
    requires
        forall|i: int| 0 <= i < l.len() ==> l[i] != '\n',
    ensures
        line_len(l + seq!['\n'] + rest) == l.len(),
    decreases l.len(),
{
    let s = l + seq!['\n'] + rest;
    if l.len() > 0 {
        assert(s.drop_first() =~= l.drop_first() + seq!['\n'] + rest);
        lemma_line_len_before(l.drop_first(), rest);
    } else {
        assert(s[0] == '\n');
    }
}

/// A file holding the single line `key=val` reads as that line: the key and
/// the value are the text on either side of the `=`.
proof fn lemma_single_setting_line(key: Seq<char>, val: Seq<char>, st: SettingsModel)
    requires
        key.len() > 0,
        val.len() > 0,
        !is_ws(key[0]),
        key[0] != '#',
        !is_ws(key.last()),
        !is_ws(val[0]),
        !is_ws(val.last()),
        forall|i: int| 0 <= i < key.len() ==> key[i] != '=' && key[i] != '\n',
        forall|i: int| 0 <= i < val.len() ==> val[i] != '\n',
    ensures
        ({
            let line = key + seq!['='] + val;
            &&& settings_after(line + seq!['\n'], st) == settings_line(line, st)
            &&& spec_trim(line) == line
            &&& eq_pos(line) == key.len()
            &&& eq_pos(line) < line.len()
            &&& line[0] != '#'
            &&& spec_trim(line.take(eq_pos(line) as int)) == key
            &&& spec_trim(line.skip(eq_pos(line) + 1int)) == val
        }),
{
    let line = key + seq!['='] + val;
    let s = line + seq!['\n'];
    assert forall|i: int| 0 <= i < line.len() implies line[i] != '\n' by {
        if i < key.len() {
            assert(line[i] == key[i]);
        } else if i > key.len() {
            assert(line[i] == val[i - key.len() - 1]);
        }
    }
    lemma_line_len_before(line, Seq::empty());
    assert(line + seq!['\n'] + Seq::<char>::empty() =~= s);
    assert(s.take(line.len() as int) =~= line);
    assert(s.skip(line.len() + 1int) =~= Seq::<char>::empty());
    assert(line[0] == key[0]);
    assert(line.last() == val.last());
    lemma_trim_unpadded(line);
    lemma_eq_pos_after(key, val);
    assert(line.take(key.len() as int) =~= key);
    assert(line.skip(key.len() + 1int) =~= val);
    lemma_trim_unpadded(key);
    lemma_trim_unpadded(val);
    assert(line_len(s) == line.len());
    assert(settings_after(s.skip(line.len() + 1int), settings_line(line, st)) == settings_line(line, st));
    assert(settings_after(s, st) == settings_line(line, st));
    assert(spec_trim(line) == line);
    assert(eq_pos(line) == key.len());
    assert(spec_trim(line.take(eq_pos(line) as int)) == key);
    assert(spec_trim(line.skip(eq_pos(line) + 1int)) == val);
}

/// A number written in decimal, as an integer setting's value, is read as
/// that number.
proof fn lemma_decimal_setting(n: nat)
    requires
        n <= u32::MAX,
    ensures
        setting_number(spec_decimal(n)) == n,
        spec_decimal(n).len() > 0,
        !is_ws(spec_decimal(n)[0]),
        !is_ws(spec_decimal(n).last()),
        forall|i: int| 0 <= i < spec_decimal(n).len() ==> spec_decimal(n)[i] != '\n',
{
    lemma_parse_decimal(n, u32::MAX as int);
    crate::text::lemma_decimal_value(n);
    let d = spec_decimal(n);
    assert(crate::text::is_digit(d[0]));
    assert(crate::text::is_digit(d[d.len() - 1]));
    assert forall|i: int| 0 <= i < d.len() implies d[i] != '\n' by {
        assert(crate::text::is_digit(d[i]));
    }
}

/// Each integer setting takes the number written after its `=`: a file whose
/// only line is `color-scheme=N`, `contrast=N` or `reduced-motion=N` (N in
/// decimal, fitting a `u32`) sets that setting to N and leaves the others as
/// they were.
pub proof fn lemma_integer_settings_read_their_value(n: nat, st: SettingsModel)
    requires
        n <= u32::MAX,
    ensures
        ({
            let r = settings_after("color-scheme="@ + spec_decimal(n) + "\n"@, st);
            r.color_scheme == n && r.contrast == st.contrast && r.reduced_motion == st.reduced_motion
        }),
        ({
            let r = settings_after("contrast="@ + spec_decimal(n) + "\n"@, st);
            r.contrast == n && r.color_scheme == st.color_scheme && r.reduced_motion == st.reduced_motion
        }),
        ({
            let r = settings_after("reduced-motion="@ + spec_decimal(n) + "\n"@, st);
            r.reduced_motion == n && r.color_scheme == st.color_scheme && r.contrast == st.contrast
        }),
{
    reveal_strlit("color-scheme=");
    reveal_strlit("contrast=");
    reveal_strlit("reduced-motion=");
    reveal_strlit("color-scheme");
    reveal_strlit("accent-color");
    reveal_strlit("contrast");
    reveal_strlit("reduced-motion");
    reveal_strlit("\n");
    lemma_decimal_setting(n);
    let d = spec_decimal(n);
    let k1 = "color-scheme"@;
    let k2 = "contrast"@;
    let k3 = "reduced-motion"@;
    assert("color-scheme="@ + d + "\n"@ =~= k1 + seq!['='] + d + seq!['\n']);
    assert("contrast="@ + d + "\n"@ =~= k2 + seq!['='] + d + seq!['\n']);
    assert("reduced-motion="@ + d + "\n"@ =~= k3 + seq!['='] + d + seq!['\n']);
    lemma_single_setting_line(k1, d, st);
    lemma_single_setting_line(k2, d, st);
    lemma_single_setting_line(k3, d, st);
    assert(k2 != k1 && k2 != "accent-color"@) by {
        assert(k2.len() != k1.len());
    }
    assert(k3 != k1 && k3 != "accent-color"@ && k3 != k2) by {
        assert(k3.len() != k1.len());
    }
}

/// The file is read line by line, in order: a first line without a line
/// break is applied, then the rest of the file is read from the settings it
/// left. So a later line overrides what an earlier one set.
pub proof fn lemma_lines_apply_in_order(first: Seq<char>, rest: Seq<char>, st: SettingsModel)
    requires
        forall|i: int| 0 <= i < first.len() ==> first[i] != '\n',
    ensures
        settings_after(first + seq!['\n'] + rest, st) == settings_after(
            rest,
            settings_line(first, st),
        ),
{
    let s = first + seq!['\n'] + rest;
    lemma_line_len_before(first, rest);
    assert(s.take(first.len() as int) =~= first);
    assert(s.skip(first.len() + 1int) =~= rest);
    if rest.len() == 0 {
        assert(settings_after(rest, settings_line(first, st)) == settings_line(first, st));
    }
}

/// An `accent-color` line records its value text, after those already
/// recorded, and leaves the integer settings alone.
pub proof fn lemma_accent_line_records_value(v: Seq<char>, st: SettingsModel)
    requires
        v.len() > 0,
        !is_ws(v[0]),
        !is_ws(v.last()),
        forall|i: int| 0 <= i < v.len() ==> v[i] != '\n',
    ensures
        ({
            let r = settings_after("accent-color="@ + v + "\n"@, st);
            &&& r.accent_color_values == st.accent_color_values.push(v)
            &&& r.color_scheme == st.color_scheme
            &&& r.contrast == st.contrast
            &&& r.reduced_motion == st.reduced_motion
            &&& r.unknown_keys == st.unknown_keys
        }),
{
    reveal_strlit("accent-color=");
    reveal_strlit("accent-color");
    reveal_strlit("color-scheme");
    reveal_strlit("\n");
    let k = "accent-color"@;
    assert("accent-color="@ + v + "\n"@ =~= k + seq!['='] + v + seq!['\n']);
    lemma_single_setting_line(k, v, st);
    assert(k != "color-scheme"@) by {
        assert(k[0] != "color-scheme"@[0]);
    }
}

/// Position of the first `=` in the window `c[lo..hi]`.
fn find_eq(c: &Vec<char>, lo: usize, hi: usize) -> (e: usize)
    requires
        lo <= hi <= c@.len(),
    ensures
        lo <= e <= hi,
        e - lo == eq_pos(c@.subrange(lo as int, hi as int)),
{
    let mut e = lo;
    while e < hi && c[e] != '='
        invariant
            lo <= e <= hi <= c@.len(),
            eq_pos(c@.subrange(lo as int, hi as int)) == (e - lo) + eq_pos(
                c@.subrange(e as int, hi as int),
            ),
        decreases hi - e,
    {
        assert(c@.subrange(e as int, hi as int).drop_first() =~= c@.subrange(e + 1, hi as int));
        e = e + 1;
    }
    e
}

/// The characters of the window `c[lo..hi]`.
fn window_chars(c: &Vec<char>, lo: usize, hi: usize) -> (w: Vec<char>)
    requires
        lo <= hi <= c@.len(),
    ensures
        w@ == c@.subrange(lo as int, hi as int),
{
    let mut w: Vec<char> = Vec::new();
    let mut k = lo;
    while k < hi
        invariant
            lo <= k <= hi <= c@.len(),
            w@ == c@.subrange(lo as int, k as int),
        decreases hi - k,
    {
        w.push(c[k]);
        assert(w@ =~= c@.subrange(lo as int, k + 1));
        k = k + 1;
    }
    w
}

/// Reads an integer setting's value: the number, or 0 when it is not one.
fn read_number(c: &Vec<char>, lo: usize, hi: usize) -> (n: u32)
    requires
        lo <= hi <= c@.len(),
    ensures
        n == setting_number(c@.subrange(lo as int, hi as int)),
{
    match parse_unsigned(c, lo, hi, u32::MAX as u64) {
        Some(v) => v as u32,
        None => 0,
    }
}

impl AppearanceSettings {
    /// All settings zero, nothing recorded.
    pub fn new() -> (s: AppearanceSettings)
        ensures
            s@ == default_settings(),
    {
        let s = AppearanceSettings {
            color_scheme: 0,
            contrast: 0,
            reduced_motion: 0,
            accent_color_values: Vec::new(),
            unknown_keys: Vec::new(),
        };
        assert(s@.accent_color_values =~= Seq::<Seq<char>>::empty());
        assert(s@.unknown_keys =~= Seq::<Seq<char>>::empty());
        s
    }
}

/// Reads an appearance settings file body (`color-scheme=1`, `contrast=0`,
/// `reduced-motion=0`, `accent-color=0.2,0.5,0.9`, one per line; `#` starts a
/// comment). An integer setting that is not a number reads as 0; a later line
/// overrides an earlier one.
pub fn parse_config(contents: &str) -> (s: AppearanceSettings)
    ensures
        s@ == settings_after(contents@, default_settings()),
{
    let c = chars_of(contents);
    let k_scheme = chars_of("color-scheme");
    let k_accent = chars_of("accent-color");
    let k_contrast = chars_of("contrast");
    let k_motion = chars_of("reduced-motion");
    let mut st = AppearanceSettings::new();
    let mut pos: usize = 0;
    assert(c@.skip(0) =~= c@);
    while pos < c.len()
        invariant
            pos <= c@.len(),
            c@ == contents@,
            k_scheme@ == "color-scheme"@,
            k_accent@ == "accent-color"@,
            k_contrast@ == "contrast"@,
            k_motion@ == "reduced-motion"@,
            settings_after(contents@, default_settings()) == settings_after(
                c@.skip(pos as int),
                st@,
            ),
        decreases c@.len() - pos,
    {
        let ghost s = c@.skip(pos as int);
        let ghost before = st@;
        let e = crate::portal::line_end_of(&c, pos);
        assert(s.take(line_len(s) as int) =~= c@.subrange(pos as int, e as int));
        let ghost line = c@.subrange(pos as int, e as int);
        let (a, b) = trim_window(&c, pos, e);
        let ghost t = spec_trim(line);
        assert(c@.subrange(a as int, b as int) == t);
        if a < b && c[a] != '#' {
            let q = find_eq(&c, a, b);
            if q < b {
                assert(c@.subrange(a as int, q as int) =~= t.take(eq_pos(t) as int));
                assert(c@.subrange(q + 1, b as int) =~= t.skip(eq_pos(t) + 1int));
                let (ka, kb) = trim_window(&c, a, q);
                let (va, vb) = trim_window(&c, q + 1, b);
                let key = window_chars(&c, ka, kb);
                if chars_eq(&key, &k_scheme) {
                    st.color_scheme = read_number(&c, va, vb);
                } else if chars_eq(&key, &k_accent) {
                    let val = window_chars(&c, va, vb);
                    st.accent_color_values.push(string_from_chars(val.as_slice()));
                    assert(st@.accent_color_values =~= before.accent_color_values.push(val@));
                } else if chars_eq(&key, &k_contrast) {
                    st.contrast = read_number(&c, va, vb);
                } else if chars_eq(&key, &k_motion) {
                    st.reduced_motion = read_number(&c, va, vb);
                } else {
                    st.unknown_keys.push(string_from_chars(key.as_slice()));
                    assert(st@.unknown_keys =~= before.unknown_keys.push(key@));
                }
            }
        }
        assert(st@ == settings_line(line, before));
        proof {
            if e < c@.len() {
                assert(c@.skip(pos as int).skip(line_len(s) + 1int) =~= c@.skip(e + 1));
            }
        }
        if e >= c.len() {
            return st;
        }
        pos = e + 1;
    }
    assert(c@.skip(pos as int) =~= Seq::<char>::empty());
    st
}

/// The appearance namespace the Settings portal serves.
pub open spec fn appearance_namespace() -> Seq<char> {
    "org.freedesktop.appearance"@
}

/// A key of the appearance namespace.
#[derive(Debug, Clone, Copy, PartialEq, Eq, Structural)]
pub enum AppearanceKey {
    ColorScheme,
    AccentColor,
    Contrast,
    ReducedMotion,
}

/// Resolves a `Read(namespace, key)` request: the appearance key it names, or
/// the error message it is refused with.
pub fn appearance_key(namespace: &str, key: &str) -> (r: Result<AppearanceKey, String>)
    ensures
        namespace@ != appearance_namespace() ==> (r matches Err(m) && m@ == "unknown namespace "@
            + namespace@),
        namespace@ == appearance_namespace() ==> match r {
            Ok(k) => match k {
                AppearanceKey::ColorScheme => key@ == "color-scheme"@,
                AppearanceKey::AccentColor => key@ == "accent-color"@,
                AppearanceKey::Contrast => key@ == "contrast"@,
                AppearanceKey::ReducedMotion => key@ == "reduced-motion"@,
            },
            Err(m) => m@ == "unknown key "@ + namespace@ + "/"@ + key@ && key@ != "color-scheme"@
                && key@ != "accent-color"@ && key@ != "contrast"@ && key@ != "reduced-motion"@,
        },
{
    let ns = chars_of(namespace);
    let k = chars_of(key);
    if !chars_eq(&ns, &chars_of("org.freedesktop.appearance")) {
        let mut m = chars_of("unknown namespace ");
        let ghost m0 = m@;
        let mut i: usize = 0;
        while i < ns.len()
            invariant
                0 <= i <= ns@.len(),
                m@ == m0 + ns@.take(i as int),
            decreases ns@.len() - i,
        {
            m.push(ns[i]);
            assert(m@ =~= m0 + ns@.take(i + 1));
            i = i + 1;
        }
        assert(ns@.take(i as int) =~= ns@);
        return Err(string_from_chars(m.as_slice()));
    }
    if chars_eq(&k, &chars_of("color-scheme")) {
        Ok(AppearanceKey::ColorScheme)
    } else if chars_eq(&k, &chars_of("accent-color")) {
        Ok(AppearanceKey::AccentColor)
    } else if chars_eq(&k, &chars_of("contrast")) {
        Ok(AppearanceKey::Contrast)
    } else if chars_eq(&k, &chars_of("reduced-motion")) {
        Ok(AppearanceKey::ReducedMotion)
    } else {
        let parts = [chars_of("unknown key "), ns, chars_of("/"), k];
        let mut m: Vec<char> = Vec::new();
        let mut p: usize = 0;
        while p < 4
            invariant
                0 <= p <= 4,
                m@ == if p == 0 {
                    Seq::<char>::empty()
                } else if p == 1 {
                    parts@[0]@
                } else if p == 2 {
                    parts@[0]@ + parts@[1]@
                } else if p == 3 {
                    parts@[0]@ + parts@[1]@ + parts@[2]@
                } else {
                    parts@[0]@ + parts@[1]@ + parts@[2]@ + parts@[3]@
                },
            decreases 4 - p,
        {
            let ghost m0 = m@;
            let part = &parts[p];
            let mut i: usize = 0;
            while i < part.len()
                invariant
                    0 <= i <= part@.len(),
                    m@ == m0 + part@.take(i as int),
                decreases part@.len() - i,
            {
                m.push(part[i]);
                assert(m@ =~= m0 + part@.take(i + 1));
                i = i + 1;
            }
            assert(part@.take(i as int) =~= part@);
            p = p + 1;
        }
        Err(string_from_chars(m.as_slice()))
    }
}

} // verus!
