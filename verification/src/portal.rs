//! The portal's own rules: where screenshots go, which settings namespaces a
//! request names, how the appearance settings file reads, and how a capture
//! outcome is reported.

use vstd::prelude::*;

use crate::buffer::PixelBuffer;
use crate::error::CaptureError;
use crate::output::OutputSelector;
use crate::text::{
    push_decimal, push_str, spec_decimal,
    parse_unsigned, spec_parse_unsigned, chars_eq, chars_have_suffix, chars_of, has_suffix, has_prefix, spec_trim, spec_trim_matches, string_from_chars, trim_char_window,
    trim_window, window_has_prefix,
};

verus! {

broadcast use vstd::string::group_string_axioms;

/// Length of the first line of `s` (up to, not including, the first `\n`).
pub open spec fn line_len(s: Seq<char>) -> nat
    decreases s.len(),
{
    if s.len() == 0 || s[0] == '\n' {
        0
    } else {
        1 + line_len(s.drop_first())
    }
}

/// The key of the pictures entry in `user-dirs.dirs`.
pub open spec fn pictures_key() -> Seq<char> {
    "XDG_PICTURES_DIR="@
}

/// What one line of `user-dirs.dirs` says about the pictures directory:
/// nothing (a comment or another key), or its value — shell quotes removed and
/// a leading `$HOME` expanded to `home`, an empty value meaning no directory.
pub open spec fn pictures_line(line: Seq<char>, home: Seq<char>) -> Option<Option<Seq<char>>> {
    let t = spec_trim(line);
    if t.len() > 0 && t[0] == '#' {
        None
    } else if !has_prefix(t, pictures_key()) {
        None
    } else {
        let v = spec_trim_matches(spec_trim(t.skip(pictures_key().len() as int)), '"');
        let e = if has_prefix(v, "$HOME"@) {
            home + v.skip("$HOME"@.len() as int)
        } else {
            v
        };
        Some(if e.len() == 0 { None } else { Some(e) })
    }
}

/// The pictures directory a `user-dirs.dirs` body names: decided by its
/// first non-comment `XDG_PICTURES_DIR=` line, if it has one.
pub open spec fn spec_pictures_dir(s: Seq<char>, home: Seq<char>) -> Option<Seq<char>>
    decreases s.len(),
{
    if s.len() == 0 {
        None
    } else {
        let n = line_len(s);
        match pictures_line(s.take(n as int), home) {
            Some(r) => r,
            None => if n >= s.len() {
                None
            } else {
                spec_pictures_dir(s.skip(n + 1int), home)
            },
        }
    }
}

proof fn lemma_line_len_bound(s: Seq<char>)
    ensures
        line_len(s) <= s.len(),
        line_len(s) < s.len() ==> s[line_len(s) as int] == '\n',
        forall|i: int| 0 <= i < line_len(s) ==> s[i] != '\n',
    decreases s.len(),
{
    if s.len() > 0 && s[0] != '\n' {
        lemma_line_len_bound(s.drop_first());
        assert forall|i: int| 0 <= i < line_len(s) implies s[i] != '\n' by {
            if i > 0 {
                assert(s[i] == s.drop_first()[i - 1]);
            }
        }
    }
}

/// Finds the end of the line starting at `pos`.
pub fn line_end_of(c: &Vec<char>, pos: usize) -> (e: usize)
    requires
        pos <= c@.len(),
    ensures
        pos <= e <= c@.len(),
        e - pos == line_len(c@.skip(pos as int)),
{
    let mut e = pos;
    while e < c.len() && c[e] != '\n'
        invariant
            pos <= e <= c@.len(),
            line_len(c@.skip(pos as int)) == (e - pos) + line_len(c@.skip(e as int)),
        decreases c@.len() - e,
    {
        assert(c@.skip(e as int).drop_first() =~= c@.skip(e + 1));
        e = e + 1;
    }
    e
}

/// Reads the `XDG_PICTURES_DIR="$HOME/Pictures"` entry out of a
/// `user-dirs.dirs` body, expanding `$HOME` to `home`.
pub fn parse_pictures_dir(contents: &str, home: &str) -> (r: Option<String>)
    ensures
        r matches Some(p) ==> spec_pictures_dir(contents@, home@) == Some(p@),
        r is None ==> spec_pictures_dir(contents@, home@) is None,
{
    let c = chars_of(contents);
    let key = chars_of("XDG_PICTURES_DIR=");
    let home_var = chars_of("$HOME");
    let home_chars = chars_of(home);
    let mut pos: usize = 0;
    assert(c@.skip(0) =~= c@);
    while pos < c.len()
        invariant
            pos <= c@.len(),
            c@ == contents@,
            key@ == pictures_key(),
            home_var@ == "$HOME"@,
            home_chars@ == home@,
            spec_pictures_dir(contents@, home@) == spec_pictures_dir(c@.skip(pos as int), home@),
        decreases c@.len() - pos,
    {
        let ghost s = c@.skip(pos as int);
        let e = line_end_of(&c, pos);
        assert(s.take(line_len(s) as int) =~= c@.subrange(pos as int, e as int));
        let ghost line = c@.subrange(pos as int, e as int);
        let (a, b) = trim_window(&c, pos, e);
        assert(c@.subrange(a as int, b as int) == spec_trim(line));
        let ghost t = spec_trim(line);
        let is_comment = a < b && c[a] == '#';
        if !is_comment && window_has_prefix(&c, a, b, &key) {
            let (va0, vb0) = trim_window(&c, a + key.len(), b);
            assert(c@.subrange((a + key@.len()) as int, b as int) =~= t.skip(
                pictures_key().len() as int,
            ));
            let (va, vb) = trim_char_window(&c, va0, vb0, '"');
            let ghost v = c@.subrange(va as int, vb as int);
            let mut out: Vec<char> = Vec::new();
            let mut k = va;
            if window_has_prefix(&c, va, vb, &home_var) {
                k = va + home_var.len();
                let mut h: usize = 0;
                while h < home_chars.len()
                    invariant
                        0 <= h <= home_chars@.len(),
                        out@ == home_chars@.take(h as int),
                    decreases home_chars@.len() - h,
                {
                    out.push(home_chars[h]);
                    assert(out@ =~= home_chars@.take(h + 1));
                    h = h + 1;
                }
                assert(out@ =~= home@);
            }
            let ghost prefix = out@;
            let k0 = k;
            while k < vb
                invariant
                    va <= k0 <= k <= vb <= c@.len(),
                    out@ == prefix + c@.subrange(k0 as int, k as int),
                decreases vb - k,
            {
                out.push(c[k]);
                assert(out@ =~= prefix + c@.subrange(k0 as int, k + 1));
                k = k + 1;
            }
            proof {
                if has_prefix(v, "$HOME"@) {
                    assert(c@.subrange(k0 as int, vb as int) =~= v.skip("$HOME"@.len() as int));
                } else {
                    assert(c@.subrange(k0 as int, vb as int) =~= v);
                    assert(prefix =~= Seq::<char>::empty());
                }
            }
            if out.len() == 0 {
                return None;
            }
            return Some(string_from_chars(out.as_slice()));
        }
        proof {
            if e < c@.len() {
                assert(c@.skip(pos as int).skip(line_len(s) + 1int) =~= c@.skip(e + 1));
            }
        }
        if e >= c.len() {
            return None;
        }
        pos = e + 1;
    }
    assert(c@.skip(pos as int) =~= Seq::<char>::empty());
    None
}

/// Whether the settings namespace pattern `p` names `ns`: exactly, or as a
/// `prefix.*` wildcard whose prefix starts `ns`.
pub open spec fn pattern_names(p: Seq<char>, ns: Seq<char>) -> bool {
    ||| p == ns
    ||| has_suffix(p, ".*"@) && has_prefix(ns, p.take(p.len() - ".*"@.len()))
}

/// Whether a settings request for `patterns` covers namespace `ns`: no
/// pattern, or an empty pattern, covers everything.
pub open spec fn spec_namespace_matches(ns: Seq<char>, patterns: Seq<String>) -> bool {
    ||| patterns.len() == 0
    ||| exists|i: int| 0 <= i < patterns.len() && (#[trigger] patterns[i])@.len() == 0
    ||| exists|i: int| 0 <= i < patterns.len() && pattern_names((#[trigger] patterns[i])@, ns)
}

/// A `ReadAll` pattern list covers a namespace when any one of its patterns,
/// wherever it stands in the list, is empty, is the namespace itself, or is
/// `prefix.*` with `prefix` starting the namespace; an empty list covers every
/// namespace.
pub proof fn lemma_any_pattern_covers(ns: Seq<char>, patterns: Seq<String>, i: int, prefix: Seq<char>)
    ensures
        patterns.len() == 0 ==> spec_namespace_matches(ns, patterns),
        0 <= i < patterns.len() && patterns[i]@.len() == 0 ==> spec_namespace_matches(ns, patterns),
        0 <= i < patterns.len() && patterns[i]@ == ns ==> spec_namespace_matches(ns, patterns),
        0 <= i < patterns.len() && patterns[i]@ == prefix + ".*"@ && prefix.len() <= ns.len()
            && ns.take(prefix.len() as int) == prefix ==> spec_namespace_matches(ns, patterns),
{
    if 0 <= i < patterns.len() && patterns[i]@ == prefix + ".*"@ && prefix.len() <= ns.len()
        && ns.take(prefix.len() as int) == prefix {
        let p = patterns[i]@;
        reveal_strlit(".*");
        assert(p.skip(p.len() - 2) =~= ".*"@);
        assert(p.take(p.len() - 2) =~= prefix);
        assert(pattern_names(p, ns));
    }
}

/// A pattern list that names nothing covers nothing: when every pattern is
/// non-empty, differs from the namespace and does not end in `*`, a
/// non-empty list does not cover the namespace.
pub proof fn lemma_unrelated_patterns_cover_nothing(ns: Seq<char>, patterns: Seq<String>)
    requires
        patterns.len() > 0,
        forall|i: int|
            0 <= i < patterns.len() ==> (#[trigger] patterns[i])@.len() > 0 && patterns[i]@ != ns
                && patterns[i]@.last() != '*',
    ensures
        !spec_namespace_matches(ns, patterns),
{
    reveal_strlit(".*");
    assert forall|i: int| 0 <= i < patterns.len() implies !pattern_names(
        (#[trigger] patterns[i])@,
        ns,
    ) by {
        let p = patterns[i]@;
        if has_suffix(p, ".*"@) {
            assert(p.skip(p.len() - 2)[1] == p.last());
        }
    }
}

/// Adding patterns to a non-empty list never loses a namespace it covered:
/// when every pattern of `ps` also occurs in `qs`, whatever `ps` covers, `qs`
/// covers.
pub proof fn lemma_more_patterns_cover_more(ns: Seq<char>, ps: Seq<String>, qs: Seq<String>)
    requires
        ps.len() > 0,
        forall|i: int| 0 <= i < ps.len() ==> exists|j: int| 0 <= j < qs.len() && qs[j] == #[trigger] ps[i],
        spec_namespace_matches(ns, ps),
    ensures
        spec_namespace_matches(ns, qs),
{
    let i = choose|i: int|
        0 <= i < ps.len() && ((#[trigger] ps[i])@.len() == 0 || pattern_names(ps[i]@, ns));
    let j = choose|j: int| 0 <= j < qs.len() && qs[j] == ps[i];
    if qs[j]@.len() == 0 {
        assert(exists|k: int| 0 <= k < qs.len() && (#[trigger] qs[k])@.len() == 0);
    } else {
        assert(pattern_names(qs[j]@, ns));
        assert(exists|k: int| 0 <= k < qs.len() && pattern_names((#[trigger] qs[k])@, ns));
    }
}

/// Whether the namespace patterns of a `ReadAll` request cover `namespace`.
pub fn namespace_matches(namespace: &str, patterns: &[String]) -> (r: bool)
    ensures
        r == spec_namespace_matches(namespace@, patterns@),
{
    if patterns.len() == 0 {
        return true;
    }
    let ns = chars_of(namespace);
    let wildcard = chars_of(".*");
    let mut found = false;
    let mut i: usize = 0;
    while i < patterns.len()
        invariant
            0 <= i <= patterns@.len(),
            ns@ == namespace@,
            wildcard@ == ".*"@,
            found == (exists|j: int| 0 <= j < i && ((#[trigger] patterns@[j])@.len() == 0
                || pattern_names(patterns@[j]@, namespace@))),
        decreases patterns@.len() - i,
    {
        let p = chars_of(patterns[i].as_str());
        let mut hit = p.len() == 0 || chars_eq(&p, &ns);
        if !hit && chars_have_suffix(&p, &wildcard) {
            let cut = p.len() - wildcard.len();
            let mut stem: Vec<char> = Vec::new();
            let mut k: usize = 0;
            while k < cut
                invariant
                    0 <= k <= cut <= p@.len(),
                    stem@ == p@.take(k as int),
                decreases cut - k,
            {
                stem.push(p[k]);
                assert(stem@ =~= p@.take(k + 1));
                k = k + 1;
            }
            assert(ns@.subrange(0, ns@.len() as int) =~= ns@);
            hit = window_has_prefix(&ns, 0, ns.len(), &stem);
        }
        assert(hit == (patterns@[i as int]@.len() == 0 || pattern_names(
            patterns@[i as int]@,
            namespace@,
        )));
        found = found || hit;
        i = i + 1;
    }
    found
}

/// Bytes a `file://` URI path keeps as they are.
pub open spec fn is_unreserved(b: u8) -> bool {
    ||| 'A' as u8 <= b <= 'Z' as u8
    ||| 'a' as u8 <= b <= 'z' as u8
    ||| '0' as u8 <= b <= '9' as u8
    ||| b == '-' as u8
    ||| b == '.' as u8
    ||| b == '_' as u8
    ||| b == '~' as u8
    ||| b == '/' as u8
}

/// Upper-case hexadecimal digit for `n` (below 16).
pub open spec fn hex_digit(n: int) -> char {
    if n < 10 {
        ('0' as int + n) as char
    } else {
        ('A' as int + n - 10) as char
    }
}

/// One path byte in a URI: itself when unreserved, else `%XX`.
pub open spec fn encode_byte(b: u8) -> Seq<char> {
    if is_unreserved(b) {
        seq![b as char]
    } else {
        seq!['%', hex_digit(b as int / 16), hex_digit(b as int % 16)]
    }
}

/// A path's bytes percent-encoded for a `file://` URI.
pub open spec fn spec_percent_encode(bytes: Seq<u8>) -> Seq<char>
    decreases bytes.len(),
{
    if bytes.len() == 0 {
        Seq::empty()
    } else {
        spec_percent_encode(bytes.drop_last()) + encode_byte(bytes.last())
    }
}

fn hex_char(n: u8) -> (c: char)
    requires
        n < 16,
    ensures
        c == hex_digit(n as int),
{
    if n < 10 {
        ((('0' as u8) + n) as char)
    } else {
        ((('A' as u8) + n - 10) as char)
    }
}

/// Appends the percent-encoding of `bytes` to `out`.
fn push_percent_encoded(bytes: &[u8], out: &mut Vec<char>)
    ensures
        final(out)@ == old(out)@ + spec_percent_encode(bytes@),
{
    let ghost start = old(out)@;
    let mut i: usize = 0;
    while i < bytes.len()
        invariant
            0 <= i <= bytes@.len(),
            out@ == start + spec_percent_encode(bytes@.take(i as int)),
        decreases bytes@.len() - i,
    {
        let b = bytes[i];
        let keep = (('A' as u8) <= b && b <= ('Z' as u8)) || (('a' as u8) <= b && b <= ('z' as u8)) || (('0' as u8) <= b && b <= ('9' as u8))
            || b == ('-' as u8) || b == ('.' as u8) || b == ('_' as u8) || b == ('~' as u8) || b == ('/' as u8);
        if keep {
            out.push(b as char);
        } else {
            out.push('%');
            out.push(hex_char(b / 16));
            out.push(hex_char(b % 16));
        }
        assert(bytes@.take(i + 1).drop_last() =~= bytes@.take(i as int));
        assert(out@ =~= start + spec_percent_encode(bytes@.take(i + 1)));
        i = i + 1;
    }
    assert(bytes@.take(i as int) =~= bytes@);
}

/// Percent-encodes a path's bytes for use in a `file://` URI: ASCII letters,
/// digits and `-._~/` are kept, every other byte becomes `%XX`.
pub fn percent_encode_path(path: &[u8]) -> (s: String)
    ensures
        s@ == spec_percent_encode(path@),
{
    let mut out: Vec<char> = Vec::new();
    push_percent_encoded(path, &mut out);
    string_from_chars(out.as_slice())
}

/// The `file://` URI of a path given by its bytes.
pub fn file_uri(path: &[u8]) -> (s: String)
    ensures
        s@ == "file://"@ + spec_percent_encode(path@),
{
    let mut out = chars_of("file://");
    push_percent_encoded(path, &mut out);
    string_from_chars(out.as_slice())
}

/// Reads an `XDP_AGL_OUTPUT` value into an output selector: unset or empty
/// selects the first output, a decimal index selects by position, and any
/// other text selects by output name.
pub fn output_selector_from(value: Option<&str>) -> (sel: OutputSelector)
    ensures
        value is None ==> sel is First,
        value matches Some(v) ==> {
            if v@.len() == 0 {
                sel is First
            } else {
                match spec_parse_unsigned(v@, usize::MAX as int) {
                    Some(i) => sel == OutputSelector::Index(i as usize),
                    None => sel matches OutputSelector::Name(n) && n@ == v@,
                }
            }
        },
{
    match value {
        None => OutputSelector::First,
        Some(v) => {
            let c = chars_of(v);
            if c.len() == 0 {
                return OutputSelector::First;
            }
            assert(c@.subrange(0, c@.len() as int) =~= c@);
            match parse_unsigned(&c, 0, c.len(), usize::MAX as u64) {
                Some(i) => OutputSelector::Index(i as usize),
                None => OutputSelector::Name(v.to_string()),
            }
        },
    }
}

/// Default capture timeout, in milliseconds.
pub const DEFAULT_CAPTURE_TIMEOUT_MS: u64 = 5000;

/// How long one capture may wait on the compositor, in milliseconds, given the
/// `XDP_AGL_CAPTURE_TIMEOUT_MS` value: that number when it is one, else the
/// default of five seconds.
pub fn capture_timeout_ms(value: Option<&str>) -> (ms: u64)
    ensures
        ms == match value {
            Some(v) => match spec_parse_unsigned(v@, u64::MAX as int) {
                Some(n) => n,
                None => DEFAULT_CAPTURE_TIMEOUT_MS as int,
            },
            None => DEFAULT_CAPTURE_TIMEOUT_MS as int,
        },
{
    match value {
        None => DEFAULT_CAPTURE_TIMEOUT_MS,
        Some(v) => {
            let c = chars_of(v);
            assert(c@.subrange(0, c@.len() as int) =~= c@);
            match parse_unsigned(&c, 0, c.len(), u64::MAX) {
                Some(n) => n,
                None => DEFAULT_CAPTURE_TIMEOUT_MS,
            }
        },
    }
}

/// The colour sampled by `PickColor`: the pixel at the centre of the frame,
/// as RGBA8.
pub fn center_pixel(buffer: &PixelBuffer) -> (r: Result<[u8; 4], CaptureError>)
    ensures
        ({
            let x = (buffer.width / 2) as int;
            let y = (buffer.height / 2) as int;
            &&& buffer.pixel_rgba8_ok(x, y) ==> (r matches Ok(rgba) && rgba@ == crate::buffer::spec_decode_pixel(
                buffer.spec_pixel_bytes(x, y)->0,
                buffer.format,
            ))
            &&& crate::format::spec_bytes_per_pixel(buffer.format) is None ==> (r matches Err(
                CaptureError::UnsupportedFormat(f),
            ) && f == buffer.format)
            &&& crate::format::spec_bytes_per_pixel(buffer.format) is Some && buffer.spec_row(y) is None
                ==> r is Err && crate::error::failed_with(r->Err_0, "buffer shorter than height"@)
            &&& crate::format::spec_bytes_per_pixel(buffer.format) is Some && buffer.spec_row(y) is Some
                && buffer.spec_pixel_bytes(x, y) is None ==> r is Err && crate::error::failed_with(
                r->Err_0,
                "row shorter than width"@,
            )
        }),
{
    buffer.pixel_rgba8(buffer.width / 2, buffer.height / 2)
}

/// Whether a capture error means the cached compositor connection is dead
/// and the next request must reconnect: exactly the Wayland-level errors.
pub fn invalidates_connection(e: &CaptureError) -> (r: bool)
    ensures
        r == (*e is WaylandError),
{
    match e {
        CaptureError::WaylandError(_) => true,
        _ => false,
    }
}

/// `impl.portal` response code for success.
pub const RESPONSE_SUCCESS: u32 = 0;
/// `impl.portal` response code for a request that ended with an error.
pub const RESPONSE_ERROR: u32 = 2;

/// The response code a request answers with: success when it produced its
/// result, error otherwise (there is no interactive step to cancel).
pub fn response_code<T, E>(outcome: &Result<T, E>) -> (code: u32)
    ensures
        code == if outcome is Ok { RESPONSE_SUCCESS } else { RESPONSE_ERROR },
{
    match outcome {
        Ok(_) => RESPONSE_SUCCESS,
        Err(_) => RESPONSE_ERROR,
    }
}

/// How many file names a save tries before giving up.
pub const MAX_NAME_ATTEMPTS: usize = 64;

/// The file name of a screenshot taken at `timestamp_ms` (milliseconds since
/// the epoch) on save attempt `attempt`: `Screenshot-<ms>.png` first, then
/// `Screenshot-<ms>-<attempt>.png`.
pub fn screenshot_file_name(timestamp_ms: u128, attempt: usize) -> (s: String)
    ensures
        s@ == spec_screenshot_file_name(timestamp_ms as nat, attempt as nat),
{
    let mut m: Vec<char> = Vec::new();
    push_str("Screenshot-", &mut m);
    push_decimal(timestamp_ms, &mut m);
    if attempt > 0 {
        push_str("-", &mut m);
        push_decimal(attempt as u128, &mut m);
    }
    push_str(".png", &mut m);
    string_from_chars(m.as_slice())
}

/// How creating a screenshot file under a new name went.
#[derive(Debug, Clone, Copy, PartialEq, Eq, Structural)]
pub enum CreateOutcome {
    /// The file was created, exclusively, under the name tried.
    Created,
    /// A file of that name exists already.
    AlreadyExists,
    /// Creation failed for another reason.
    OtherError,
}

/// What a save does after trying a name.
#[derive(Debug, Clone, Copy, PartialEq, Eq, Structural)]
pub enum SaveAction {
    /// Write the image into the file just created.
    Write,
    /// Try the name of this attempt next.
    TryName(usize),
    /// Report the creation error.
    Fail,
    /// Every name was taken: report that no free name was found.
    GiveUp,
}

/// The decision after save attempt `attempt` came out as `outcome`: a name
/// that is taken moves on to the next attempt, up to `MAX_NAME_ATTEMPTS`
/// attempts in all; any other error ends the save.
pub fn save_step(attempt: usize, outcome: CreateOutcome) -> (a: SaveAction)
    ensures
        outcome is Created ==> a is Write,
        outcome is OtherError ==> a is Fail,
        outcome is AlreadyExists && attempt + 1 < MAX_NAME_ATTEMPTS ==> a == SaveAction::TryName(
            (attempt + 1) as usize,
        ),
        outcome is AlreadyExists && attempt + 1 >= MAX_NAME_ATTEMPTS ==> a is GiveUp,
{
    match outcome {
        CreateOutcome::Created => SaveAction::Write,
        CreateOutcome::OtherError => SaveAction::Fail,
        CreateOutcome::AlreadyExists => {
            if attempt < MAX_NAME_ATTEMPTS - 1 {
                SaveAction::TryName(attempt + 1)
            } else {
                SaveAction::GiveUp
            }
        },
    }
}

/// The name of a screenshot taken at `ts` on save attempt `attempt`.
pub open spec fn spec_screenshot_file_name(ts: nat, attempt: nat) -> Seq<char> {
    if attempt == 0 {
        "Screenshot-"@ + spec_decimal(ts) + ".png"@
    } else {
        "Screenshot-"@ + spec_decimal(ts) + "-"@ + spec_decimal(attempt) + ".png"@
    }
}

/// Saves within one millisecond do not collide on a name: different save
/// attempts use different file names.
pub proof fn lemma_file_names_distinct(ts: nat, a: nat, b: nat)
    requires
        a != b,
    ensures
        spec_screenshot_file_name(ts, a) != spec_screenshot_file_name(ts, b),
{
    reveal_strlit("Screenshot-");
    reveal_strlit(".png");
    reveal_strlit("-");
    let head = "Screenshot-"@ + spec_decimal(ts);
    if spec_screenshot_file_name(ts, a) == spec_screenshot_file_name(ts, b) {
        let s = spec_screenshot_file_name(ts, a);
        if a == 0 || b == 0 {
            let (z, n) = if a == 0 { (a, b) } else { (b, a) };
            let sz = spec_screenshot_file_name(ts, z);
            let sn = spec_screenshot_file_name(ts, n);
            assert(sz[head.len() as int] == '.');
            assert(sn[head.len() as int] == '-');
        } else {
            let da = spec_decimal(a);
            let db = spec_decimal(b);
            let sa = head + "-"@ + da + ".png"@;
            let sb = head + "-"@ + db + ".png"@;
            assert(sa.len() == sb.len());
            assert(da.len() == db.len());
            let start: int = head.len() + 1int;
            assert(sa.subrange(start, start + da.len() as int) =~= da);
            assert(sb.subrange(start, start + db.len() as int) =~= db);
            crate::text::lemma_decimal_injective(a, b);
        }
    }
}

/// `base` joined with the relative or absolute path `rel`, as `Path::join`
/// does on Unix: an absolute `rel` replaces `base`; otherwise a `/` separates
/// the two unless `base` is empty or already ends with one.
pub open spec fn spec_join(base: Seq<char>, rel: Seq<char>) -> Seq<char> {
    if rel.len() > 0 && rel[0] == '/' {
        rel
    } else if base.len() == 0 || base.last() == '/' {
        base + rel
    } else {
        base + seq!['/'] + rel
    }
}

/// Joins `rel` onto `base` (see `spec_join`).
pub fn join_path(base: &str, rel: &str) -> (p: String)
    ensures
        p@ == spec_join(base@, rel@),
{
    let b = chars_of(base);
    let r = chars_of(rel);
    if r.len() > 0 && r[0] == '/' {
        return string_from_chars(r.as_slice());
    }
    let mut out: Vec<char> = Vec::new();
    push_str(base, &mut out);
    if b.len() > 0 && b[b.len() - 1] != '/' {
        out.push('/');
    }
    push_str(rel, &mut out);
    string_from_chars(out.as_slice())
}

/// The entry an optional value contributes to a candidate list.
pub open spec fn opt_entry(o: Option<Seq<char>>) -> Seq<Seq<char>> {
    match o {
        Some(p) => seq![p],
        None => Seq::empty(),
    }
}

/// The pictures directories a screenshot may go to, in order of preference:
/// `$XDG_PICTURES_DIR`, the pictures directory of `user-dirs.dirs`, then
/// `$HOME/Pictures`, each only where it is known.
pub open spec fn spec_pictures_candidates(
    env_pictures: Option<Seq<char>>,
    user_dirs_pictures: Option<Seq<char>>,
    home: Option<Seq<char>>,
) -> Seq<Seq<char>> {
    opt_entry(env_pictures) + opt_entry(user_dirs_pictures) + opt_entry(
        match home {
            Some(h) => Some(spec_join(h, "Pictures"@)),
            None => None,
        },
    )
}

/// Where the pictures directories stand in the candidate list: the
/// `user-dirs.dirs` entry is listed whenever it is known, whether or not
/// `$XDG_PICTURES_DIR` is set, right after the latter; `$HOME/Pictures` comes
/// last; setting `$XDG_PICTURES_DIR` only puts it in front.
pub proof fn lemma_pictures_candidates_order(
    env_pictures: Option<Seq<char>>,
    user_dirs_pictures: Option<Seq<char>>,
    home: Option<Seq<char>>,
)
    ensures
        ({
            let v = spec_pictures_candidates(env_pictures, user_dirs_pictures, home);
            let first = if env_pictures is Some { 1int } else { 0int };
            &&& v.len() == first + (if user_dirs_pictures is Some { 1int } else { 0int }) + (
            if home is Some { 1int } else { 0int })
            &&& env_pictures matches Some(e) ==> v[0] == e
            &&& user_dirs_pictures matches Some(p) ==> v[first] == p
            &&& home matches Some(h) ==> (h.len() > 0 && h.last() != '/' ==> v.last() == h
                + "/Pictures"@)
            &&& v == opt_entry(env_pictures) + spec_pictures_candidates(None, user_dirs_pictures, home)
        }),
{
    reveal_strlit("Pictures");
    reveal_strlit("/Pictures");
    let v = spec_pictures_candidates(env_pictures, user_dirs_pictures, home);
    assert(v == opt_entry(env_pictures) + spec_pictures_candidates(None, user_dirs_pictures, home)) by {
        assert(opt_entry(None::<Seq<char>>) =~= Seq::<Seq<char>>::empty());
        assert(spec_pictures_candidates(None, user_dirs_pictures, home) =~= opt_entry(
            user_dirs_pictures,
        ) + opt_entry(
            match home {
                Some(h) => Some(spec_join(h, "Pictures"@)),
                None => None,
            },
        ));
    }
    if let Some(h) = home {
        if h.len() > 0 && h.last() != '/' {
            assert(spec_join(h, "Pictures"@) =~= h + "/Pictures"@);
        }
    }
}

/// The view of an optional string.
pub open spec fn opt_view(o: Option<&str>) -> Option<Seq<char>> {
    match o {
        Some(s) => Some(s@),
        None => None,
    }
}

/// The pictures directories to try for a screenshot, in order (see
/// `spec_pictures_candidates`); the first that is a directory is used, and
/// `state_dir` when none is.
pub fn pictures_dir_candidates(
    env_pictures: Option<&str>,
    user_dirs_pictures: Option<&str>,
    home: Option<&str>,
) -> (v: Vec<String>)
    ensures
        v@.len() == spec_pictures_candidates(
            opt_view(env_pictures),
            opt_view(user_dirs_pictures),
            opt_view(home),
        ).len(),
        forall|i: int|
            0 <= i < v@.len() ==> (#[trigger] v@[i])@ == spec_pictures_candidates(
                opt_view(env_pictures),
                opt_view(user_dirs_pictures),
                opt_view(home),
            )[i],
{
    let ghost want = spec_pictures_candidates(
        opt_view(env_pictures),
        opt_view(user_dirs_pictures),
        opt_view(home),
    );
    let mut v: Vec<String> = Vec::new();
    let ghost a = opt_entry(opt_view(env_pictures));
    let ghost b = opt_entry(opt_view(user_dirs_pictures));
    if let Some(p) = env_pictures {
        v.push(p.to_string());
    }
    assert(v@.len() == a.len() && forall|i: int| 0 <= i < v@.len() ==> (#[trigger] v@[i])@ == a[i]);
    if let Some(p) = user_dirs_pictures {
        v.push(p.to_string());
    }
    assert(v@.len() == (a + b).len() && forall|i: int|
        0 <= i < v@.len() ==> (#[trigger] v@[i])@ == (a + b)[i]);
    if let Some(h) = home {
        v.push(join_path(h, "Pictures"));
    }
    v
}

/// Directory used when the user has no pictures directory at all:
/// `$XDG_STATE_HOME/xdg-desktop-portal-agl`, else
/// `$HOME/.local/state/xdg-desktop-portal-agl`, else that name under the
/// system's temporary directory.
pub fn state_dir(state_home: Option<&str>, home: Option<&str>, temp_dir: &str) -> (p: String)
    ensures
        state_home matches Some(s) ==> p@ == spec_join(s@, "xdg-desktop-portal-agl"@),
        state_home is None ==> (home matches Some(h) ==> p@ == spec_join(
            spec_join(h@, ".local/state"@),
            "xdg-desktop-portal-agl"@,
        )),
        state_home is None && home is None ==> p@ == spec_join(temp_dir@, "xdg-desktop-portal-agl"@),
{
    match state_home {
        Some(s) => join_path(s, "xdg-desktop-portal-agl"),
        None => match home {
            Some(h) => {
                let local = join_path(h, ".local/state");
                join_path(local.as_str(), "xdg-desktop-portal-agl")
            },
            None => join_path(temp_dir, "xdg-desktop-portal-agl"),
        },
    }
}

/// Where `user-dirs.dirs` lives: under `$XDG_CONFIG_HOME`, else under
/// `$HOME/.config`; nowhere when neither is set.
pub fn user_dirs_file(config_home: Option<&str>, home: Option<&str>) -> (p: Option<String>)
    ensures
        config_home matches Some(c) ==> (p matches Some(q) && q@ == spec_join(c@, "user-dirs.dirs"@)),
        config_home is None ==> (home matches Some(h) ==> (p matches Some(q) && q@ == spec_join(
            spec_join(h@, ".config"@),
            "user-dirs.dirs"@,
        ))),
        config_home is None && home is None ==> p is None,
{
    match config_home {
        Some(c) => Some(join_path(c, "user-dirs.dirs")),
        None => match home {
            Some(h) => {
                let cfg = join_path(h, ".config");
                Some(join_path(cfg.as_str(), "user-dirs.dirs"))
            },
            None => None,
        },
    }
}

/// The appearance settings files to read, in order: the user's
/// (`$XDG_CONFIG_HOME`, else `$HOME/.config`, with an unset `HOME` read as
/// empty) and then the system-wide one.
pub fn settings_file_candidates(config_home: Option<&str>, home: Option<&str>) -> (v: Vec<String>)
    ensures
        v@.len() == 2,
        config_home matches Some(c) ==> v@[0]@ == c@ + "/agl-portal/settings.conf"@,
        config_home is None ==> v@[0]@ == (match home {
            Some(h) => h@,
            None => Seq::<char>::empty(),
        }) + "/.config"@ + "/agl-portal/settings.conf"@,
        v@[1]@ == "/etc/agl-portal/settings.conf"@,
{
    let mut first: Vec<char> = Vec::new();
    match config_home {
        Some(c) => push_str(c, &mut first),
        None => {
            match home {
                Some(h) => push_str(h, &mut first),
                None => {},
            }
            push_str("/.config", &mut first);
        },
    }
    push_str("/agl-portal/settings.conf", &mut first);
    let mut v: Vec<String> = Vec::new();
    v.push(string_from_chars(first.as_slice()));
    v.push("/etc/agl-portal/settings.conf".to_string());
    proof {
        if config_home is None {
            assert(first@ =~= (match home {
                Some(h) => h@,
                None => Seq::<char>::empty(),
            }) + "/.config"@ + "/agl-portal/settings.conf"@);
        }
    }
    v
}

} // verus!
