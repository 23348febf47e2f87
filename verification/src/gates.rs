//! Helpers of the fidelity gates: a digest that detects a changed prototype,
//! and the quoting of design values as string literals.

use vstd::prelude::*;
use vstd::string::*;

use crate::text::{
    chars_of, decimal_value, is_decimal_digit, push_char, trimmed, white_space,
};

use std::path::Path;

verus! {

/// FNV-1a's offset basis.
pub const FNV_OFFSET: u64 = 0xcbf2_9ce4_8422_2325;

/// FNV-1a's prime.
pub const FNV_PRIME: u64 = 0x0000_0100_0000_01b3;

/// FNV-1a over `bytes`: start from the offset basis, and for each byte xor it
/// in and multiply by the prime, modulo 2^64.
pub open spec fn fnv1a_of(bytes: Seq<u8>) -> u64
    decreases bytes.len(),
{
    if bytes.len() == 0 {
        FNV_OFFSET
    } else {
        let h = fnv1a_of(bytes.drop_last()) ^ (bytes.last() as u64);
        ((h as nat * FNV_PRIME as nat) % 0x1_0000_0000_0000_0000) as u64
    }
}

/// FNV-1a over the prototype's bytes.
///
/// A length was not a digest: any edit that preserves the byte count left the
/// reference looking current. This is not cryptographic and does not need to
/// be; it detects change, and it is written out rather than taken from the
/// standard library because `DefaultHasher`'s output is not guaranteed stable
/// across Rust versions, and a stored digest has to reproduce.
pub fn fnv1a(bytes: &[u8]) -> (r: u64)
    ensures
        r == fnv1a_of(bytes@),
{
    let mut hash: u64 = FNV_OFFSET;
    let mut i: usize = 0;
    while i < bytes.len()
        invariant
            i <= bytes@.len(),
            hash == fnv1a_of(bytes@.take(i as int)),
        decreases bytes@.len() - i,
    {
        assert(bytes@.take(i + 1).drop_last() =~= bytes@.take(i as int));
        hash = hash ^ (bytes[i] as u64);
        hash = hash.wrapping_mul(FNV_PRIME);
        i = i + 1;
    }
    assert(bytes@.take(bytes@.len() as int) =~= bytes@);
    hash
}

/// Appending a byte to the input xors that byte into the digest as an
/// unsigned number below 256, so only the digest's low eight bits change, and
/// then multiplies by the prime modulo 2^64.
pub proof fn law_fnv1a_appends_a_byte(bytes: Seq<u8>, b: u8)
    ensures
        (b as u64) < 256,
        fnv1a_of(bytes.push(b)) as nat == ((fnv1a_of(bytes) ^ (b as u64)) as nat * FNV_PRIME as nat)
            % 0x1_0000_0000_0000_0000,
{
    assert(bytes.push(b).drop_last() =~= bytes);
}

/// How one character is written inside a quoted string: a backslash and a
/// double quote are escaped with a backslash, everything else stands as it is.
pub open spec fn escaped(c: char) -> Seq<char> {
    if c == '\\' {
        seq!['\\', '\\']
    } else if c == '"' {
        seq!['\\', '"']
    } else {
        seq![c]
    }
}

/// `s` with every character escaped.
pub open spec fn escape(s: Seq<char>) -> Seq<char>
    decreases s.len(),
{
    if s.len() == 0 {
        Seq::empty()
    } else {
        escaped(s[0]) + escape(s.drop_first())
    }
}

/// Reads escaped text back: a backslash stands for the character after it.
pub open spec fn unescape(s: Seq<char>) -> Seq<char>
    decreases s.len(),
{
    if s.len() == 0 {
        Seq::empty()
    } else if s[0] == '\\' && s.len() >= 2 {
        seq![s[1]] + unescape(s.skip(2))
    } else {
        seq![s[0]] + unescape(s.drop_first())
    }
}

proof fn lemma_escape_append(a: Seq<char>, c: char)
    ensures
        escape(a.push(c)) == escape(a) + escaped(c),
    decreases a.len(),
{
    if a.len() == 0 {
        assert(a.push(c).drop_first() =~= Seq::<char>::empty());
        assert(escape(a.push(c)) =~= escaped(c) + escape(Seq::<char>::empty()));
        assert(escape(a.push(c)) =~= escape(a) + escaped(c));
    } else {
        lemma_escape_append(a.drop_first(), c);
        assert(a.push(c).drop_first() =~= a.drop_first().push(c));
        assert(escape(a.push(c)) =~= escaped(a[0]) + (escape(a.drop_first()) + escaped(c)));
    }
}

/// Token values carry quotes of their own, such as a font stack, so every
/// string is escaped rather than interpolated.
pub fn quote(value: &str) -> (r: String)
    ensures
        r@ == seq!['"'] + escape(value@) + seq!['"'],
{
    let chars = chars_of(value);
    let mut out = String::new();
    push_char(&mut out, '"');
    let mut i: usize = 0;
    assert(chars@.take(0) =~= Seq::<char>::empty());
    while i < chars.len()
        invariant
            chars@ == value@,
            i <= chars@.len(),
            out@ == seq!['"'] + escape(chars@.take(i as int)),
        decreases chars@.len() - i,
    {
        let c = chars[i];
        proof {
            lemma_escape_append(chars@.take(i as int), c);
            assert(chars@.take(i + 1) =~= chars@.take(i as int).push(c));
        }
        if c == '\\' {
            push_char(&mut out, '\\');
            push_char(&mut out, '\\');
        } else if c == '"' {
            push_char(&mut out, '\\');
            push_char(&mut out, '"');
        } else {
            push_char(&mut out, c);
        }
        assert(out@ =~= seq!['"'] + escape(chars@.take(i + 1)));
        i = i + 1;
    }
    assert(chars@.take(chars@.len() as int) =~= chars@);
    push_char(&mut out, '"');
    out
}

/// What `quote` writes between its quotes reads back, backslash by backslash,
/// as the value it was given.
pub proof fn law_quote_round_trips(value: Seq<char>)
    ensures
        unescape(escape(value)) == value,
    decreases value.len(),
{
    if value.len() > 0 {
        law_quote_round_trips(value.drop_first());
        let c = value[0];
        let rest = escape(value.drop_first());
        if c == '\\' || c == '"' {
            assert((escaped(c) + rest).skip(2) =~= rest);
        } else {
            assert((escaped(c) + rest).drop_first() =~= rest);
        }
        assert(unescape(escape(value)) =~= seq![c] + unescape(rest));
        assert(value =~= seq![c] + value.drop_first());
    }
}

/// The index of the last `.` in `f`, or -1 when there is none.
pub open spec fn last_dot(f: Seq<char>) -> int
    decreases f.len(),
{
    if f.len() == 0 {
        -1
    } else if f.last() == '.' {
        f.len() - 1
    } else {
        last_dot(f.drop_last())
    }
}

/// The stem `Path::file_stem` documents for a file name: the whole name when it
/// has no `.`, when its only `.` is the first character, or when it is `..`;
/// otherwise the part before the final `.`.
pub open spec fn stem_of_name(f: Seq<char>) -> Seq<char> {
    if f == seq!['.', '.'] || last_dot(f) <= 0 {
        f
    } else {
        f.take(last_dot(f))
    }
}

/// The extension `Path::extension` documents for a file name: none in the cases
/// where the stem is the whole name, otherwise the part after the final `.`.
pub open spec fn extension_of_name(f: Seq<char>) -> Option<Seq<char>> {
    if f == seq!['.', '.'] || last_dot(f) <= 0 {
        None
    } else {
        Some(f.skip(last_dot(f) + 1))
    }
}

/// A name that stands as one path component: not empty, not `.` or `..`, and
/// without a separator.
pub open spec fn is_plain_name(f: Seq<char>) -> bool {
    &&& f.len() > 0
    &&& f != seq!['.']
    &&& f != seq!['.', '.']
    &&& !f.contains('/')
}

/// What `Path::file_stem` returns for a path with these characters.
pub uninterp spec fn path_file_stem(path: Seq<char>) -> Option<Seq<char>>;

/// What `Path::extension` returns for a path with these characters.
pub uninterp spec fn path_extension(path: Seq<char>) -> Option<Seq<char>>;

/// What `Path::with_file_name` returns for a path and a file name.
pub uninterp spec fn path_with_file_name(path: Seq<char>, name: Seq<char>) -> Seq<char>;

/// What `Path::parent` returns for a path with these characters.
pub uninterp spec fn path_parent(path: Seq<char>) -> Option<Seq<char>>;

/// Calls `Path::file_stem` on `path`. The contract names the result; it states
/// that a stem, being part of a path's final component, holds no separator,
/// and nothing more of how the stem is found.
#[verifier::external_body]
fn file_stem_of(path: &str) -> (r: Option<String>)
    ensures
        r is None <==> path_file_stem(path@) is None,
        r matches Some(stem) ==> path_file_stem(path@) == Some(stem@) && !stem@.contains('/'),
{
    Some(Path::new(path).file_stem()?.to_str()?.to_string())
}

/// Calls `Path::extension` on `path`. The contract names the result and states
/// what its documentation does of it: it is the part of the final component
/// after the final `.`, so it holds neither a `.` nor a separator.
#[verifier::external_body]
fn extension_of(path: &str) -> (r: Option<String>)
    ensures
        r is None <==> path_extension(path@) is None,
        r matches Some(ext) ==> path_extension(path@) == Some(ext@) && !ext@.contains('.')
            && !ext@.contains('/'),
{
    Some(Path::new(path).extension()?.to_str()?.to_string())
}

/// Calls `Path::with_file_name`: the path like `path` but with the file name
/// `name`. The contract names the result, and states what the documentation of
/// `set_file_name` says when `name` is one plain component: the new path's
/// file name is `name`, so its stem and extension are those of `name`; and
/// where `path` has a file name to replace, `set_file_name` pops it and pushes
/// `name`, so the new path has the parent `path` had. These two clauses read
/// paths with `/` as the only separator and no drive prefix, as on the Unix
/// targets this builds for; on Windows a name holding `\` or a drive prefix
/// is more than one component and they would not hold, and nothing is stated
/// of Windows paths.
#[verifier::external_body]
fn with_file_name(path: &str, name: &str) -> (r: String)
    ensures
        r@ == path_with_file_name(path@, name@),
        is_plain_name(name@) ==> path_file_stem(r@) == Some(stem_of_name(name@))
            && path_extension(r@) == extension_of_name(name@),
        is_plain_name(name@) && path_file_stem(path@) is Some ==> path_parent(r@) == path_parent(
            path@,
        ),
{
    Path::new(path).with_file_name(name).to_string_lossy().into_owned()
}

/// Calls `Path::parent`: the path without its final component, or nothing
/// where there is none, as for a root or the empty path. The contract names
/// the result as a function of the path's characters.
#[verifier::external_body]
fn parent_of(path: &str) -> (r: Option<String>)
    ensures
        r is None <==> path_parent(path@) is None,
        r matches Some(p) ==> path_parent(path@) == Some(p@),
{
    Some(Path::new(path).parent()?.to_str()?.to_string())
}

/// The file name the measurements take for a stem and an extension, with
/// `budgets` and `json` standing in for what is missing.
pub open spec fn detail_name(stem: Option<Seq<char>>, ext: Option<Seq<char>>) -> Seq<char> {
    let stem = match stem {
        Some(stem) => stem,
        None => "budgets"@,
    };
    let ext = match ext {
        Some(ext) => ext,
        None => "json"@,
    };
    stem + "-measurements."@ + ext
}

/// The file name the measurements of `report` take: its stem, `-measurements.`,
/// and its extension.
pub open spec fn measurements_name(report: Seq<char>) -> Seq<char> {
    detail_name(path_file_stem(report), path_extension(report))
}

/// `{stem}-measurements.{extension}`, with `budgets` and `json` where the
/// report has no stem or no extension.
pub fn measurements_file_name(stem: Option<&str>, ext: Option<&str>) -> (r: String)
    ensures
        r@ == detail_name(
            match stem {
                Some(s) => Some(s@),
                None => None,
            },
            match ext {
                Some(e) => Some(e@),
                None => None,
            },
        ),
{
    let mut name = match stem {
        Some(stem) => String::from_str(stem),
        None => String::from_str("budgets"),
    };
    name.append("-measurements.");
    match ext {
        Some(ext) => name.append(ext),
        None => name.append("json"),
    }
    name
}

proof fn lemma_last_dot_of_join(a: Seq<char>, e: Seq<char>)
    requires
        !e.contains('.'),
    ensures
        last_dot(a.push('.') + e) == a.len(),
    decreases e.len(),
{
    if e.len() == 0 {
        assert(a.push('.') + e =~= a.push('.'));
    } else {
        assert(e[e.len() - 1] != '.') by {
            if e[e.len() - 1] == '.' {
                assert(e.contains('.'));
            }
        }
        assert(!e.drop_last().contains('.')) by {
            if e.drop_last().contains('.') {
                let k = choose|k: int| 0 <= k < e.drop_last().len() && e.drop_last()[k] == '.';
                assert(e[k] == '.');
            }
        }
        lemma_last_dot_of_join(a, e.drop_last());
        assert((a.push('.') + e).drop_last() =~= a.push('.') + e.drop_last());
    }
}

/// `reports/budgets/linux-cgroup.json` becomes
/// `reports/budgets/linux-cgroup-measurements.json`: the detail lands beside
/// the summary, in the same directory, and never on it.
pub fn measurements_path(report: &str) -> (r: String)
    ensures
        r@ == path_with_file_name(report@, measurements_name(report@)),
        r@ != report@,
        path_file_stem(report@) is Some ==> path_parent(r@) == path_parent(report@),
{
    proof {
        reveal_strlit("budgets");
        reveal_strlit("json");
        reveal_strlit("-measurements.");
        reveal_strlit("-measurements");
    }
    let stem = file_stem_of(report);
    let ext = extension_of(report);
    let ghost stem_v = if stem is Some {
        stem->0@
    } else {
        "budgets"@
    };
    let ghost ext_v = if ext is Some {
        ext->0@
    } else {
        "json"@
    };
    assert(!ext_v.contains('.') && !ext_v.contains('/')) by {
        if ext is None {
            assert(forall|k: int| 0 <= k < ext_v.len() ==> ext_v[k] != '.' && ext_v[k] != '/');
        }
    }
    assert(!stem_v.contains('/')) by {
        if stem is None {
            assert(forall|k: int| 0 <= k < stem_v.len() ==> stem_v[k] != '/');
        }
    }
    let name = measurements_file_name(
        match &stem {
            Some(stem) => Some(stem.as_str()),
            None => None,
        },
        match &ext {
            Some(ext) => Some(ext.as_str()),
            None => None,
        },
    );
    let ghost base = stem_v + "-measurements"@;
    assert(name@ =~= base.push('.') + ext_v);
    assert(name@ == measurements_name(report@));
    assert(!name@.contains('/')) by {
        if name@.contains('/') {
            let k = choose|k: int| 0 <= k < name@.len() && name@[k] == '/';
            if k < stem_v.len() {
                assert(stem_v[k] == '/');
            } else if k >= stem_v.len() + 14 {
                assert(ext_v[k - stem_v.len() - 14] == '/');
            }
        }
    }
    assert(name@ != seq!['.', '.'] && name@ != seq!['.']) by {
        assert(name@.len() >= 14);
    }
    proof {
        lemma_last_dot_of_join(base, ext_v);
    }
    assert(stem_of_name(name@) =~= base);
    let r = with_file_name(report, name.as_str());
    assert(r@ != report@) by {
        if r@ == report@ {
            assert(path_file_stem(r@) == path_file_stem(report@));
            assert(base.len() == stem_v.len() + 13);
        }
    }
    r
}

/// Where the measurements of `report` are written: `report` with the
/// measurements file name in place of its own.
pub open spec fn detail_path(report: Seq<char>) -> Seq<char> {
    path_with_file_name(report, measurements_name(report))
}

/// A directory as text, where there is one.
pub open spec fn directory_text(d: Option<String>) -> Option<Seq<char>> {
    match d {
        Some(d) => Some(d@),
        None => None,
    }
}

/// The directory that must exist before the measurements of `report` are
/// written: the detail file's parent, which, where the report names a file,
/// is the report's own directory.
pub fn measurements_directory(report: &str) -> (r: Option<String>)
    ensures
        directory_text(r) == path_parent(detail_path(report@)),
        path_file_stem(report@) is Some ==> directory_text(r) == path_parent(report@),
{
    let detail = measurements_path(report);
    parent_of(detail.as_str())
}

/// The lowercase hexadecimal digit for `d`, which is below sixteen.
pub open spec fn hex_char(d: nat) -> char {
    if d < 10 {
        ((d + 0x30) as u32) as char
    } else {
        ((d - 10 + 0x61) as u32) as char
    }
}

/// The last `count` hexadecimal digits of `n`, zero-padded, most significant
/// first, as `{:0count$x}` writes a number below `16^count`.
pub open spec fn hex_digits(n: nat, count: nat) -> Seq<char>
    decreases count,
{
    if count == 0 {
        Seq::empty()
    } else {
        hex_digits(n / 16, (count - 1) as nat).push(hex_char(n % 16))
    }
}

fn hex_char_exec(d: u64) -> (c: char)
    requires
        d < 16,
    ensures
        c == hex_char(d as nat),
{
    if d < 10 {
        proof {
            assert(0x30 <= d + 0x30 <= 0x39);
        }
        char_of((d + 0x30) as u32)
    } else {
        char_of((d - 10 + 0x61) as u32)
    }
}

fn char_of(u: u32) -> (c: char)
    requires
        0x30 <= u <= 0x39 || 0x61 <= u <= 0x66,
    ensures
        c == u as char,
{
    if u == 0x30 { '0' }
    else if u == 0x31 { '1' }
    else if u == 0x32 { '2' }
    else if u == 0x33 { '3' }
    else if u == 0x34 { '4' }
    else if u == 0x35 { '5' }
    else if u == 0x36 { '6' }
    else if u == 0x37 { '7' }
    else if u == 0x38 { '8' }
    else if u == 0x39 { '9' }
    else if u == 0x61 { 'a' }
    else if u == 0x62 { 'b' }
    else if u == 0x63 { 'c' }
    else if u == 0x64 { 'd' }
    else if u == 0x65 { 'e' }
    else { 'f' }
}

fn push_hex(out: &mut String, n: u64, count: usize)
    ensures
        final(out)@ == old(out)@ + hex_digits(n as nat, count as nat),
    decreases count,
{
    if count == 0 {
        assert(old(out)@ + hex_digits(n as nat, 0) =~= old(out)@);
    } else {
        push_hex(out, n / 16, count - 1);
        push_char(out, hex_char_exec(n % 16));
        assert(old(out)@ + hex_digits(n as nat, count as nat) =~= old(out)@ + hex_digits(
            (n / 16) as nat,
            (count - 1) as nat,
        ) + seq![hex_char((n % 16) as nat)]);
    }
}

/// A digest of the prototype's bytes as the reference metadata records it:
/// `fnv1a:` and the hash in sixteen lowercase hexadecimal digits.
pub fn prototype_digest(bytes: &[u8]) -> (r: String)
    ensures
        r@ == "fnv1a:"@ + hex_digits(fnv1a_of(bytes@) as nat, 16),
{
    let mut out = String::from_str("fnv1a:");
    push_hex(&mut out, fnv1a(bytes), 16);
    out
}

/// How a discrepancy report was decided.
#[derive(Debug, Clone, Copy, PartialEq, Eq, Structural)]
pub enum Status {
    Untriaged,
    Unreadable,
    BacklogEntry,
    Accepted,
}

/// A discrepancy report: where it is, how it was decided, and the backlog entry
/// it names if it was deferred.
#[derive(Debug, Clone)]
pub struct Discrepancy {
    pub path: String,
    pub status: Status,
    pub backlog_entry: Option<String>,
}

/// A discrepancy report as a value.
pub ghost struct DiscrepancyView {
    pub path: Seq<char>,
    pub status: Status,
    pub backlog_entry: Option<Seq<char>>,
}

impl View for Discrepancy {
    type V = DiscrepancyView;

    open spec fn view(&self) -> DiscrepancyView {
        DiscrepancyView {
            path: self.path@,
            status: self.status,
            backlog_entry: match self.backlog_entry {
                Some(entry) => Some(entry@),
                None => None,
            },
        }
    }
}

/// What triage says of one report: nothing when it is accepted, or deferred to
/// an entry that the feature map holds; otherwise the decision that is missing.
pub open spec fn finding_of(d: DiscrepancyView, backlog: Seq<char>, map: Seq<char>) -> Option<
    Seq<char>,
> {
    match d.status {
        Status::Untriaged => Some(
            d.path + " is untriaged; decide it as Accepted or BacklogEntry before review"@,
        ),
        Status::Unreadable => Some(d.path + " has no decided Status line"@),
        Status::BacklogEntry => match d.backlog_entry {
            None => Some(d.path + " is a BacklogEntry but names no feature"@),
            Some(entry) => if crate::text::contains(backlog, entry) {
                None
            } else {
                Some(d.path + " names backlog entry "@ + entry + ", which is not in "@ + map)
            },
        },
        Status::Accepted => None,
    }
}

/// The findings of the first reports, in order.
pub open spec fn findings_of(ds: Seq<DiscrepancyView>, backlog: Seq<char>, map: Seq<char>) -> Seq<
    Seq<char>,
>
    decreases ds.len(),
{
    if ds.len() == 0 {
        Seq::empty()
    } else {
        let earlier = findings_of(ds.drop_last(), backlog, map);
        match finding_of(ds.last(), backlog, map) {
            Some(finding) => earlier.push(finding),
            None => earlier,
        }
    }
}

fn finding(d: &Discrepancy, backlog: &Vec<char>, map: &str) -> (r: Option<String>)
    ensures
        match r {
            Some(s) => finding_of(d@, backlog@, map@) == Some(s@),
            None => finding_of(d@, backlog@, map@) is None,
        },
{
    match d.status {
        Status::Untriaged => {
            let mut s = d.path.clone();
            s.append(" is untriaged; decide it as Accepted or BacklogEntry before review");
            Some(s)
        },
        Status::Unreadable => {
            let mut s = d.path.clone();
            s.append(" has no decided Status line");
            Some(s)
        },
        Status::BacklogEntry => match &d.backlog_entry {
            None => {
                let mut s = d.path.clone();
                s.append(" is a BacklogEntry but names no feature");
                Some(s)
            },
            Some(entry) => {
                let entry_chars = chars_of(entry.as_str());
                if crate::text::contains_chars(backlog, &entry_chars) {
                    None
                } else {
                    let mut s = d.path.clone();
                    s.append(" names backlog entry ");
                    s.append(entry.as_str());
                    s.append(", which is not in ");
                    s.append(map);
                    Some(s)
                }
            },
        },
        Status::Accepted => None,
    }
}

/// Triage. An untriaged discrepancy is a decision nobody has taken, and
/// shipping one silently converts it into an accepted difference; a deferral
/// must name an entry the feature map `backlog`, read from `map`, holds.
pub fn triage(found: &Vec<Discrepancy>, backlog: &str, map: &str) -> (r: Vec<String>)
    ensures
        r@.map_values(|s: String| s@) == findings_of(
            found@.map_values(|d: Discrepancy| d@),
            backlog@,
            map@,
        ),
{
    let backlog_chars = chars_of(backlog);
    let mut findings: Vec<String> = Vec::new();
    let mut i: usize = 0;
    let ghost views = found@.map_values(|d: Discrepancy| d@);
    assert(views.take(0) =~= Seq::<DiscrepancyView>::empty());
    assert(findings@.map_values(|s: String| s@) =~= Seq::<Seq<char>>::empty());
    while i < found.len()
        invariant
            views == found@.map_values(|d: Discrepancy| d@),
            backlog_chars@ == backlog@,
            i <= found@.len(),
            findings@.map_values(|s: String| s@) == findings_of(
                views.take(i as int),
                backlog@,
                map@,
            ),
        decreases found@.len() - i,
    {
        let f = finding(&found[i], &backlog_chars, map);
        assert(views.take(i + 1).drop_last() =~= views.take(i as int));
        assert(views.take(i + 1).last() == found@[i as int]@);
        let ghost before = findings@;
        match f {
            Some(s) => {
                findings.push(s);
                assert(findings@.map_values(|s: String| s@) =~= before.map_values(
                    |s: String| s@,
                ).push(s@));
            },
            None => {},
        }
        i = i + 1;
    }
    assert(views.take(found@.len() as int) =~= views);
    findings
}

/// A report is left without a finding exactly when it was accepted, or
/// deferred to an entry the feature map holds.
pub proof fn law_only_decided_reports_pass(d: DiscrepancyView, backlog: Seq<char>, map: Seq<char>)
    ensures
        finding_of(d, backlog, map) is None <==> passes_triage(d, backlog),
{
}

/// Accepted, or deferred to an entry the feature map holds.
pub open spec fn passes_triage(d: DiscrepancyView, backlog: Seq<char>) -> bool {
    match d.status {
        Status::Accepted => true,
        Status::BacklogEntry => match d.backlog_entry {
            Some(entry) => crate::text::contains(backlog, entry),
            None => false,
        },
        _ => false,
    }
}

/// The pieces of `s` between commas, as `str::split(',')` yields them: one more
/// than there are commas, empty pieces included.
pub open spec fn comma_pieces(s: Seq<char>) -> Seq<Seq<char>>
    decreases s.len(),
{
    if s.len() == 0 {
        seq![Seq::empty()]
    } else {
        let earlier = comma_pieces(s.drop_last());
        if s.last() == ',' {
            earlier.push(Seq::empty())
        } else {
            earlier.update(earlier.len() - 1, earlier.last().push(s.last()))
        }
    }
}

/// What `str::parse::<u32>` gives: an optional `+`, then at least one decimal
/// digit and nothing else, for a number that fits.
pub open spec fn parsed_u32(s: Seq<char>) -> Option<u32> {
    let digits = unsigned_digits(s);
    if digits.len() > 0 && (forall|i: int| 0 <= i < digits.len() ==> #[trigger] is_decimal_digit(
        digits[i],
    )) && decimal_value(digits) <= u32::MAX {
        Some(decimal_value(digits) as u32)
    } else {
        None
    }
}

/// What `str::parse::<u32>` reads as digits: a leading `+` is a sign.
pub open spec fn unsigned_digits(s: Seq<char>) -> Seq<char> {
    if s.len() > 0 && s[0] == '+' {
        s.drop_first()
    } else {
        s
    }
}

/// The numbers of the pieces that read as one once trimmed, in order.
pub open spec fn numbers_of(pieces: Seq<Seq<char>>) -> Seq<u32>
    decreases pieces.len(),
{
    if pieces.len() == 0 {
        Seq::empty()
    } else {
        let earlier = numbers_of(pieces.drop_last());
        match parsed_u32(trimmed(pieces.last())) {
            Some(n) => earlier.push(n),
            None => earlier,
        }
    }
}

/// Text without a comma is one piece.
proof fn lemma_one_piece(p: Seq<char>)
    requires
        !p.contains(','),
    ensures
        comma_pieces(p) == seq![p],
    decreases p.len(),
{
    if p.len() > 0 {
        assert(!p.drop_last().contains(',')) by {
            if p.drop_last().contains(',') {
                let k = choose|k: int| 0 <= k < p.drop_last().len() && p.drop_last()[k] == ',';
                assert(p[k] == ',');
            }
        }
        lemma_one_piece(p.drop_last());
        assert(p.last() != ',') by {
            if p.last() == ',' {
                assert(p[p.len() - 1] == ',');
            }
        }
        assert(p.drop_last().push(p.last()) =~= p);
        assert(seq![p.drop_last()].update(0, p.drop_last().push(p.last())) =~= seq![p]);
    } else {
        assert(p =~= Seq::<char>::empty());
    }
}

/// A comma between two texts splits them into the pieces of each.
proof fn lemma_pieces_split(a: Seq<char>, b: Seq<char>)
    ensures
        comma_pieces(a.push(',') + b) == comma_pieces(a) + comma_pieces(b),
    decreases b.len(),
{
    let s = a.push(',') + b;
    if b.len() == 0 {
        assert(s =~= a.push(','));
        assert(a.push(',').drop_last() =~= a);
        assert(comma_pieces(a).push(Seq::empty()) =~= comma_pieces(a) + seq![Seq::<char>::empty()]);
    } else {
        lemma_pieces_split(a, b.drop_last());
        assert(s.drop_last() =~= a.push(',') + b.drop_last());
        assert(s.last() == b.last());
        let ca = comma_pieces(a);
        let cb = comma_pieces(b.drop_last());
        assert(cb.len() > 0) by {
            lemma_pieces_nonempty(b.drop_last());
        }
        if b.last() == ',' {
            assert((ca + cb).push(Seq::empty()) =~= ca + cb.push(Seq::empty()));
        } else {
            let c = b.last();
            assert((ca + cb).update((ca + cb).len() - 1, (ca + cb).last().push(c)) =~= ca
                + cb.update(cb.len() - 1, cb.last().push(c)));
        }
    }
}

proof fn lemma_pieces_nonempty(s: Seq<char>)
    ensures
        comma_pieces(s).len() > 0,
    decreases s.len(),
{
    if s.len() > 0 {
        lemma_pieces_nonempty(s.drop_last());
    }
}

/// The numbers of two runs of pieces, one after the other.
proof fn lemma_numbers_concat(x: Seq<Seq<char>>, y: Seq<Seq<char>>)
    ensures
        numbers_of(x + y) == numbers_of(x) + numbers_of(y),
    decreases y.len(),
{
    if y.len() == 0 {
        assert(x + y =~= x);
        assert(numbers_of(x) + numbers_of(y) =~= numbers_of(x));
    } else {
        lemma_numbers_concat(x, y.drop_last());
        assert((x + y).drop_last() =~= x + y.drop_last());
        assert((x + y).last() == y.last());
        let nx = numbers_of(x);
        let ny = numbers_of(y.drop_last());
        match parsed_u32(trimmed(y.last())) {
            Some(n) => {
                assert((nx + ny).push(n) =~= nx + ny.push(n));
            },
            None => {},
        }
    }
}

/// The profiles of two `--rtt` values joined by a comma are those of the
/// first followed by those of the second.
pub proof fn law_profiles_of_joined_values(a: Seq<char>, b: Seq<char>)
    ensures
        numbers_of(comma_pieces(a.push(',') + b)) == numbers_of(comma_pieces(a)) + numbers_of(
            comma_pieces(b),
        ),
{
    lemma_pieces_split(a, b);
    lemma_numbers_concat(comma_pieces(a), comma_pieces(b));
}

/// A piece without a comma contributes exactly the number it reads as once
/// trimmed, whatever that number is, zero included, and nothing when it reads
/// as none.
pub proof fn law_a_piece_gives_its_number(piece: Seq<char>)
    requires
        !piece.contains(','),
    ensures
        parsed_u32(trimmed(piece)) matches Some(n) ==> numbers_of(comma_pieces(piece)) == seq![n],
        parsed_u32(trimmed(piece)) is None ==> numbers_of(comma_pieces(piece)).len() == 0,
{
    lemma_one_piece(piece);
    assert(seq![piece].drop_last() =~= Seq::<Seq<char>>::empty());
    assert(seq![piece].last() == piece);
    assert(numbers_of(Seq::<Seq<char>>::empty()) == Seq::<u32>::empty());
    match parsed_u32(trimmed(piece)) {
        Some(n) => {
            assert(Seq::<u32>::empty().push(n) =~= seq![n]);
        },
        None => {},
    }
}

fn parse_u32(piece: &Vec<char>) -> (r: Option<u32>)
    ensures
        r == parsed_u32(piece@),
{
    let n = piece.len();
    let mut k: usize = 0;
    if n > 0 && piece[0] == '+' {
        k = 1;
    }
    let first = k;
    let ghost digits = piece@.subrange(first as int, n as int);
    assert(digits =~= unsigned_digits(piece@));
    if first == n {
        return None;
    }
    let mut v: u64 = 0;
    while k < n
        invariant
            n == piece@.len(),
            first < n,
            first <= k <= n,
            digits == piece@.subrange(first as int, n as int),
            digits == unsigned_digits(piece@),
            forall|i: int| first <= i < k ==> #[trigger] is_decimal_digit(piece@[i]),
            v == decimal_value(piece@.subrange(first as int, k as int)),
            v <= u32::MAX,
        decreases n - k,
    {
        let c = piece[k];
        let u = c as u32;
        if !(0x30 <= u && u <= 0x39) {
            assert(digits[k - first] == c);
            assert(!is_decimal_digit(digits[k - first]));
            assert(parsed_u32(piece@) is None);
            return None;
        }
        assert(piece@.subrange(first as int, k + 1).drop_last() =~= piece@.subrange(
            first as int,
            k as int,
        ));
        let next = v * 10 + (u - 0x30) as u64;
        assert(next == decimal_value(piece@.subrange(first as int, k + 1)));
        if next > 0xffff_ffff {
            proof {
                lemma_decimal_value_grows(digits, k + 1 - first);
                assert(digits.take(k + 1 - first) =~= piece@.subrange(first as int, k + 1));
            }
            assert(parsed_u32(piece@) is None);
            return None;
        }
        v = next;
        k = k + 1;
    }
    assert(forall|i: int| 0 <= i < digits.len() ==> #[trigger] is_decimal_digit(digits[i])) by {
        assert forall|i: int| 0 <= i < digits.len() implies #[trigger] is_decimal_digit(
            digits[i],
        ) by {
            assert(digits[i] == piece@[first + i]);
        }
    }
    Some(v as u32)
}

/// A number written with more digits reads as at least what its first digits
/// read as.
proof fn lemma_decimal_value_grows(s: Seq<char>, m: int)
    requires
        0 <= m <= s.len(),
    ensures
        decimal_value(s) >= decimal_value(s.take(m)),
    decreases s.len(),
{
    if s.len() > m {
        assert(s.drop_last().take(m) =~= s.take(m));
        lemma_decimal_value_grows(s.drop_last(), m);
    } else {
        assert(s.take(m) =~= s);
    }
}

/// The round-trip profiles a budget run measures: those a non-empty `--rtt`
/// value lists, and otherwise, with no value or an empty one, `defaults`.
pub fn requested_profiles(rtt: Option<&str>, defaults: &Vec<u32>) -> (r: Vec<u32>)
    ensures
        rtt is Some && rtt->0@.len() > 0 ==> r@ == numbers_of(comma_pieces(rtt->0@)),
        !(rtt is Some && rtt->0@.len() > 0) ==> r@ == defaults@,
{
    match rtt {
        Some(value) if !value.is_empty() => round_trip_profiles(value),
        _ => {
            let r = defaults.clone();
            assert(r@ =~= defaults@);
            r
        },
    }
}

/// The round-trip times a comma-separated `--rtt` value asks for: each piece,
/// trimmed, that reads as a number, in order; pieces that do not are skipped.
pub fn round_trip_profiles(value: &str) -> (r: Vec<u32>)
    ensures
        r@ == numbers_of(comma_pieces(value@)),
{
    let chars = chars_of(value);
    let mut profiles: Vec<u32> = Vec::new();
    let mut piece: Vec<char> = Vec::new();
    let mut i: usize = 0;
    assert(chars@.take(0) =~= Seq::<char>::empty());
    assert(comma_pieces(Seq::<char>::empty()).drop_last() =~= Seq::<Seq<char>>::empty());
    while i < chars.len()
        invariant
            chars@ == value@,
            i <= chars@.len(),
            comma_pieces(chars@.take(i as int)).len() > 0,
            piece@ == comma_pieces(chars@.take(i as int)).last(),
            profiles@ == numbers_of(comma_pieces(chars@.take(i as int)).drop_last()),
        decreases chars@.len() - i,
    {
        let c = chars[i];
        let ghost before = comma_pieces(chars@.take(i as int));
        assert(chars@.take(i + 1).drop_last() =~= chars@.take(i as int));
        if c == ',' {
            let trimmed_piece = trim_chars(&piece);
            match parse_u32(&trimmed_piece) {
                Some(n) => profiles.push(n),
                None => {},
            }
            piece = Vec::new();
            assert(comma_pieces(chars@.take(i + 1)) == before.push(Seq::<char>::empty()));
            assert(before.push(Seq::<char>::empty()).drop_last() =~= before);
            assert(before.drop_last().push(before.last()) =~= before);
            assert(piece@ =~= Seq::<char>::empty());
        } else {
            piece.push(c);
            let ghost after = before.update(before.len() - 1, before.last().push(c));
            assert(comma_pieces(chars@.take(i + 1)) == after);
            assert(after.drop_last() =~= before.drop_last());
        }
        i = i + 1;
    }
    assert(chars@.take(chars@.len() as int) =~= chars@);
    let ghost all = comma_pieces(chars@);
    let trimmed_piece = trim_chars(&piece);
    match parse_u32(&trimmed_piece) {
        Some(n) => profiles.push(n),
        None => {},
    }
    assert(all.drop_last().push(all.last()) =~= all);
    profiles
}

/// `piece` with white space removed from both ends.
fn trim_chars(piece: &Vec<char>) -> (r: Vec<char>)
    ensures
        r@ == trimmed(piece@),
{
    let n = piece.len();
    let mut i: usize = 0;
    assert(piece@.subrange(0, n as int) =~= piece@);
    while i < n && white_space(piece[i])
        invariant
            n == piece@.len(),
            i <= n,
            crate::text::trim_start(piece@) == crate::text::trim_start(
                piece@.subrange(i as int, n as int),
            ),
        decreases n - i,
    {
        assert(piece@.subrange(i as int, n as int).drop_first() =~= piece@.subrange(
            i + 1,
            n as int,
        ));
        i = i + 1;
    }
    let mut j: usize = n;
    while j > i && white_space(piece[j - 1])
        invariant
            n == piece@.len(),
            i <= j <= n,
            crate::text::trim_start(piece@) == piece@.subrange(i as int, n as int),
            trimmed(piece@) == crate::text::trim_end(piece@.subrange(i as int, j as int)),
        decreases j - i,
    {
        assert(piece@.subrange(i as int, j as int).drop_last() =~= piece@.subrange(
            i as int,
            j - 1,
        ));
        j = j - 1;
    }
    let mut r: Vec<char> = Vec::new();
    let mut k: usize = i;
    while k < j
        invariant
            n == piece@.len(),
            i <= k <= j <= n,
            r@ == piece@.subrange(i as int, k as int),
        decreases j - k,
    {
        r.push(piece[k]);
        assert(r@ =~= piece@.subrange(i as int, k + 1));
        k = k + 1;
    }
    r
}

} // verus!
