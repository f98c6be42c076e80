//! The grammar of vendor media subtypes:
//! `vnd.<vendor>[.<version>[.<param>]][+<format>]`, found at its leftmost
//! occurrence in a text, each component taken as long as it goes.
use vstd::prelude::*;

verus! {

/// A character that may stand in a vendor name: an ASCII letter, `_` or `-`.
pub open spec fn is_vendor_char(c: char) -> bool {
    ('a' <= c && c <= 'z') || ('A' <= c && c <= 'Z') || c == '_' || c == '-'
}

/// A character that may stand in a version, a parameter or a format:
/// an ASCII letter or digit.
pub open spec fn is_alnum_char(c: char) -> bool {
    ('a' <= c && c <= 'z') || ('A' <= c && c <= 'Z') || ('0' <= c && c <= '9')
}

/// The vendor class when `vendor` holds, the alphanumeric class otherwise.
pub open spec fn in_class(c: char, vendor: bool) -> bool {
    if vendor {
        is_vendor_char(c)
    } else {
        is_alnum_char(c)
    }
}

/// Where the longest run of characters of the class that starts at `i` ends.
pub open spec fn run_end(s: Seq<char>, i: int, vendor: bool) -> int
    decreases s.len() - i,
{
    if 0 <= i < s.len() && in_class(s[i], vendor) {
        run_end(s, i + 1, vendor)
    } else {
        i
    }
}

/// `vnd.` followed by a vendor character stands at `p`.
pub open spec fn match_starts_at(s: Seq<char>, p: int) -> bool {
    &&& 0 <= p
    &&& p + 5 <= s.len()
    &&& s[p] == 'v'
    &&& s[p + 1] == 'n'
    &&& s[p + 2] == 'd'
    &&& s[p + 3] == '.'
    &&& is_vendor_char(s[p + 4])
}

/// The first position at or after `p` where a match starts.
pub open spec fn first_match_from(s: Seq<char>, p: int) -> Option<int>
    decreases s.len() - p,
{
    if p < 0 || p + 5 > s.len() {
        None
    } else if match_starts_at(s, p) {
        Some(p)
    } else {
        first_match_from(s, p + 1)
    }
}

/// The component introduced by `sep` at `q`, as (start, end), where
/// `sep` is followed by at least one alphanumeric character.
pub open spec fn group_after(s: Seq<char>, q: int, sep: char) -> Option<(int, int)> {
    if 0 <= q && q + 1 < s.len() && s[q] == sep && is_alnum_char(s[q + 1]) {
        Some((q + 1, run_end(s, q + 1, false)))
    } else {
        None
    }
}

/// The characters of a component, where there is one.
pub open spec fn group_chars(s: Seq<char>, g: Option<(int, int)>) -> Option<Seq<char>> {
    match g {
        Some((a, b)) => Some(s.subrange(a, b)),
        None => None,
    }
}

/// Where a component ends, or `otherwise` where there is none.
pub open spec fn group_end(g: Option<(int, int)>, otherwise: int) -> int {
    match g {
        Some((_, b)) => b,
        None => otherwise,
    }
}

/// The components of a vendor media subtype.
pub struct VendorParts {
    pub vendor: Seq<char>,
    pub version: Option<Seq<char>>,
    pub param: Option<Seq<char>>,
    pub format: Option<Seq<char>>,
}

/// The components of the match that starts at `p`.
pub open spec fn parts_at(s: Seq<char>, p: int) -> VendorParts {
    let v_end = run_end(s, p + 4, true);
    let version = group_after(s, v_end, '.');
    let param = match version {
        Some((_, e)) => group_after(s, e, '.'),
        None => None,
    };
    let tail = group_end(param, group_end(version, v_end));
    let format = group_after(s, tail, '+');
    VendorParts {
        vendor: s.subrange(p + 4, v_end),
        version: group_chars(s, version),
        param: group_chars(s, param),
        format: group_chars(s, format),
    }
}

/// The components of the leftmost vendor media subtype in `s`, if any.
pub open spec fn vendor_parts(s: Seq<char>) -> Option<VendorParts> {
    match first_match_from(s, 0) {
        Some(p) => Some(parts_at(s, p)),
        None => None,
    }
}

/// The components of a vendor media subtype found in a text.
#[derive(Debug)]
pub struct VendorCaptures {
    pub vendor: String,
    pub version: Option<String>,
    pub param: Option<String>,
    pub format: Option<String>,
}

/// The characters of an optional string.
pub open spec fn opt_string_chars(o: Option<String>) -> Option<Seq<char>> {
    match o {
        Some(s) => Some(s@),
        None => None,
    }
}

impl View for VendorCaptures {
    type V = VendorParts;

    open spec fn view(&self) -> VendorParts {
        VendorParts {
            vendor: self.vendor@,
            version: opt_string_chars(self.version),
            param: opt_string_chars(self.param),
            format: opt_string_chars(self.format),
        }
    }
}

/// The components of optional captures.
pub open spec fn opt_captures_view(o: Option<VendorCaptures>) -> Option<VendorParts> {
    match o {
        Some(c) => Some(c@),
        None => None,
    }
}

fn in_class_exec(c: char, vendor: bool) -> (r: bool)
    ensures
        r == in_class(c, vendor),
{
    let letter = ('a' <= c && c <= 'z') || ('A' <= c && c <= 'Z');
    if vendor {
        letter || c == '_' || c == '-'
    } else {
        letter || ('0' <= c && c <= '9')
    }
}

fn scan_run(text: &str, n: usize, i: usize, vendor: bool) -> (j: usize)
    requires
        n == text@.len(),
        i <= n,
    ensures
        i <= j <= n,
        j == run_end(text@, i as int, vendor),
{
    let mut j = i;
    while j < n && in_class_exec(text.get_char(j), vendor)
        invariant
            i <= j <= n,
            n == text@.len(),
            run_end(text@, j as int, vendor) == run_end(text@, i as int, vendor),
        decreases n - j,
    {
        j = j + 1;
    }
    j
}

fn scan_group(text: &str, n: usize, q: usize, sep: char) -> (r: Option<(usize, usize)>)
    requires
        n == text@.len(),
        q <= n,
    ensures
        match r {
            Some((a, b)) => {
                &&& group_after(text@, q as int, sep) == Some((a as int, b as int))
                &&& a <= b <= n
            },
            None => group_after(text@, q as int, sep) is None,
        },
{
    if q < n && n - q > 1 && text.get_char(q) == sep && in_class_exec(text.get_char(q + 1), false) {
        let e = scan_run(text, n, q + 1, false);
        Some((q + 1, e))
    } else {
        None
    }
}

fn find_match(text: &str, n: usize) -> (r: Option<usize>)
    requires
        n == text@.len(),
    ensures
        match r {
            Some(p) => first_match_from(text@, 0) == Some(p as int) && p + 5 <= n,
            None => first_match_from(text@, 0) is None,
        },
{
    let mut p: usize = 0;
    while n - p >= 5
        invariant
            p <= n,
            n == text@.len(),
            first_match_from(text@, 0) == first_match_from(text@, p as int),
        decreases n - p,
    {
        if text.get_char(p) == 'v' && text.get_char(p + 1) == 'n' && text.get_char(p + 2) == 'd'
            && text.get_char(p + 3) == '.' && in_class_exec(text.get_char(p + 4), true) {
            return Some(p);
        }
        p = p + 1;
    }
    None
}

fn group_string(text: &str, n: usize, g: Option<(usize, usize)>) -> (r: Option<String>)
    requires
        n == text@.len(),
        g matches Some((a, b)) ==> a <= b <= n,
    ensures
        opt_string_chars(r) == group_chars(
            text@,
            match g {
                Some((a, b)) => Some((a as int, b as int)),
                None => None,
            },
        ),
{
    match g {
        Some((a, b)) => Some(text.substring_char(a, b).to_owned()),
        None => None,
    }
}

/// The components of the leftmost vendor media subtype in `text`
/// (`vnd.<vendor>[.<version>[.<param>]][+<format>]`), or `None` where
/// `text` holds none.
pub fn media_captures(text: &str) -> (r: Option<VendorCaptures>)
    ensures
        opt_captures_view(r) == vendor_parts(text@),
{
    let n = text.unicode_len();
    match find_match(text, n) {
        None => None,
        Some(p) => {
            let v_end = scan_run(text, n, p + 4, true);
            let version = scan_group(text, n, v_end, '.');
            let param = match version {
                Some((_, e)) => scan_group(text, n, e, '.'),
                None => None,
            };
            let tail = match param {
                Some((_, e)) => e,
                None => match version {
                    Some((_, e)) => e,
                    None => v_end,
                },
            };
            let format = scan_group(text, n, tail, '+');
            let vendor = text.substring_char(p + 4, v_end).to_owned();
            Some(
                VendorCaptures {
                    vendor,
                    version: group_string(text, n, version),
                    param: group_string(text, n, param),
                    format: group_string(text, n, format),
                },
            )
        },
    }
}

/// Every character of `t` is of the class.
pub open spec fn all_in_class(t: Seq<char>, vendor: bool) -> bool {
    forall|k: int| 0 <= k < t.len() ==> #[trigger] in_class(t[k], vendor)
}

/// An absent component, or a non-empty run of alphanumeric characters.
pub open spec fn is_component(o: Option<Seq<char>>) -> bool {
    o matches Some(t) ==> t.len() > 0 && all_in_class(t, false)
}

/// Components that the grammar can produce: a non-empty vendor name of
/// vendor characters, alphanumeric non-empty version, parameter and format,
/// and a parameter only after a version.
pub open spec fn well_formed_parts(p: VendorParts) -> bool {
    &&& p.vendor.len() > 0
    &&& all_in_class(p.vendor, true)
    &&& is_component(p.version)
    &&& is_component(p.param)
    &&& is_component(p.format)
    &&& (p.param is Some ==> p.version is Some)
}

/// A component written out behind its separator.
pub open spec fn render_component(sep: char, o: Option<Seq<char>>) -> Seq<char> {
    match o {
        Some(t) => seq![sep] + t,
        None => Seq::empty(),
    }
}

/// Components written out as `vnd.<vendor>[.<version>][.<param>][+<format>]`.
pub open spec fn render_vendor_parts(p: VendorParts) -> Seq<char> {
    seq!['v', 'n', 'd', '.'] + p.vendor + render_component('.', p.version) + render_component(
        '.',
        p.param,
    ) + render_component('+', p.format)
}

proof fn lemma_run_end(s: Seq<char>, i: int, vendor: bool)
    requires
        0 <= i <= s.len(),
    ensures
        i <= run_end(s, i, vendor) <= s.len(),
        forall|k: int| i <= k < run_end(s, i, vendor) ==> #[trigger] in_class(s[k], vendor),
        run_end(s, i, vendor) == s.len() || !in_class(s[run_end(s, i, vendor)], vendor),
    decreases s.len() - i,
{
    if i < s.len() && in_class(s[i], vendor) {
        lemma_run_end(s, i + 1, vendor);
    }
}

proof fn lemma_run_end_at(s: Seq<char>, i: int, j: int, vendor: bool)
    requires
        0 <= i <= j <= s.len(),
        forall|k: int| i <= k < j ==> #[trigger] in_class(s[k], vendor),
        j == s.len() || !in_class(s[j], vendor),
    ensures
        run_end(s, i, vendor) == j,
    decreases j - i,
{
    if i < j {
        assert(in_class(s[i], vendor));
        lemma_run_end_at(s, i + 1, j, vendor);
    }
}

proof fn lemma_first_match_from(s: Seq<char>, p: int)
    requires
        0 <= p,
    ensures
        match first_match_from(s, p) {
            Some(q) => {
                &&& p <= q
                &&& match_starts_at(s, q)
                &&& forall|k: int| p <= k < q ==> !#[trigger] match_starts_at(s, k)
            },
            None => forall|k: int| p <= k ==> !#[trigger] match_starts_at(s, k),
        },
    decreases s.len() - p,
{
    if p + 5 > s.len() {
    } else if match_starts_at(s, p) {
    } else {
        lemma_first_match_from(s, p + 1);
    }
}

proof fn lemma_group_after_component(s: Seq<char>, q: int, sep: char)
    requires
        0 <= q <= s.len(),
    ensures
        group_after(s, q, sep) matches Some((a, b)) ==> {
            &&& a == q + 1
            &&& a < b <= s.len()
            &&& is_component(Some(s.subrange(a, b)))
            &&& (b == s.len() || !is_alnum_char(s[b]))
        },
{
    if 0 <= q && q + 1 < s.len() && s[q] == sep && is_alnum_char(s[q + 1]) {
        lemma_run_end(s, q + 1, false);
        let b = run_end(s, q + 1, false);
        assert(in_class(s[q + 1], false));
        let t = s.subrange(q + 1, b);
        assert forall|k: int| 0 <= k < t.len() implies #[trigger] in_class(t[k], false) by {
            assert(t[k] == s[q + 1 + k]);
            assert(in_class(s[q + 1 + k], false));
        }
    }
}

/// Whatever the text, the components found in it are well formed: the
/// vendor name is a non-empty run of letters, `_` and `-`; version,
/// parameter and format are non-empty runs of letters and digits; and a
/// parameter comes only with a version.
pub proof fn lemma_vendor_parts_well_formed(s: Seq<char>)
    ensures
        vendor_parts(s) matches Some(p) ==> well_formed_parts(p),
{
    lemma_first_match_from(s, 0);
    if let Some(p0) = first_match_from(s, 0) {
        lemma_run_end(s, p0 + 4, true);
        let v_end = run_end(s, p0 + 4, true);
        assert(in_class(s[p0 + 4], true));
        let vendor = s.subrange(p0 + 4, v_end);
        assert forall|k: int| 0 <= k < vendor.len() implies #[trigger] in_class(vendor[k], true) by {
            assert(vendor[k] == s[p0 + 4 + k]);
            assert(in_class(s[p0 + 4 + k], true));
        }
        lemma_group_after_component(s, v_end, '.');
        let version = group_after(s, v_end, '.');
        if let Some((_, e)) = version {
            lemma_group_after_component(s, e, '.');
        }
        let param = match version {
            Some((_, e)) => group_after(s, e, '.'),
            None => None,
        };
        let tail = group_end(param, group_end(version, v_end));
        lemma_group_after_component(s, tail, '+');
    }
}

/// The components are found where they occur: a text holds a vendor media
/// subtype exactly when `vnd.` followed by a vendor character occurs in it,
/// and the components are those of the leftmost such occurrence.
pub proof fn lemma_vendor_parts_leftmost(s: Seq<char>)
    ensures
        vendor_parts(s) is Some <==> exists|k: int| #[trigger] match_starts_at(s, k),
        first_match_from(s, 0) matches Some(q) ==> {
            &&& match_starts_at(s, q)
            &&& forall|k: int| 0 <= k < q ==> !#[trigger] match_starts_at(s, k)
            &&& vendor_parts(s) == Some(parts_at(s, q))
        },
{
    lemma_first_match_from(s, 0);
}

proof fn lemma_component_found(s: Seq<char>, q: int, sep: char, t: Seq<char>)
    requires
        0 <= q,
        q + 1 + t.len() <= s.len(),
        s[q] == sep,
        s.subrange(q + 1, q + 1 + t.len()) == t,
        is_component(Some(t)),
        q + 1 + t.len() == s.len() || !is_alnum_char(s[q + 1 + t.len()]),
    ensures
        group_after(s, q, sep) == Some((q + 1, q + 1 + t.len())),
        group_chars(s, group_after(s, q, sep)) == Some(t),
{
    let b = q + 1 + t.len();
    assert forall|k: int| q + 1 <= k < b implies #[trigger] in_class(s[k], false) by {
        assert(s[k] == s.subrange(q + 1, b)[k - (q + 1)]);
        assert(in_class(t[k - (q + 1)], false));
    }
    assert(in_class(s[q + 1], false));
    lemma_run_end_at(s, q + 1, b, false);
}

/// Writing well-formed components out as
/// `vnd.<vendor>[.<version>][.<param>][+<format>]` and finding the
/// components of that text gives back the same components.
pub proof fn lemma_render_then_parse(p: VendorParts)
    requires
        well_formed_parts(p),
    ensures
        vendor_parts(render_vendor_parts(p)) == Some(p),
{
    let head = seq!['v', 'n', 'd', '.'] + p.vendor;
    let cv = render_component('.', p.version);
    let cp = render_component('.', p.param);
    let cf = render_component('+', p.format);
    let s = render_vendor_parts(p);
    assert(s == head + cv + cp + cf);
    let o1 = head.len() as int;
    let o2 = o1 + cv.len();
    let o3 = o2 + cp.len();
    let n = s.len() as int;
    assert(n == o3 + cf.len());
    assert(s.subrange(4, o1) =~= p.vendor);
    assert(s.subrange(o1, o2) =~= cv);
    assert(s.subrange(o2, o3) =~= cp);
    assert(s.subrange(o3, n) =~= cf);
    // The separators that open each component are no vendor or alphanumeric characters.
    assert(o1 < n ==> s[o1] == '.' || s[o1] == '+') by {
        if o1 < n {
            if cv.len() > 0 {
                assert(s[o1] == s.subrange(o1, o2)[0]);
            } else if cp.len() > 0 {
                assert(s[o1] == s.subrange(o2, o3)[0]);
            } else {
                assert(s[o1] == s.subrange(o3, n)[0]);
            }
        }
    }
    assert(o2 < n ==> s[o2] == '.' || s[o2] == '+') by {
        if o2 < n {
            if cp.len() > 0 {
                assert(s[o2] == s.subrange(o2, o3)[0]);
            } else {
                assert(s[o2] == s.subrange(o3, n)[0]);
            }
        }
    }
    assert(o3 < n ==> s[o3] == '+') by {
        if o3 < n {
            assert(s[o3] == s.subrange(o3, n)[0]);
        }
    }
    // The match starts at the beginning.
    assert(in_class(p.vendor[0], true));
    assert(s[4] == p.vendor[0]);
    assert(match_starts_at(s, 0));
    assert(first_match_from(s, 0) == Some(0int));
    // The vendor name runs up to the first separator.
    assert forall|k: int| 4 <= k < o1 implies #[trigger] in_class(s[k], true) by {
        assert(s[k] == s.subrange(4, o1)[k - 4]);
        assert(in_class(p.vendor[k - 4], true));
    }
    lemma_run_end_at(s, 4, o1, true);
    // The version.
    match p.version {
        Some(t) => {
            assert(s[o1] == s.subrange(o1, o2)[0]);
            assert(cv.subrange(1, 1 + t.len() as int) =~= t);
            assert(s.subrange(o1 + 1, o2) =~= s.subrange(o1, o2).subrange(1, 1 + t.len() as int));
            lemma_component_found(s, o1, '.', t);
        },
        None => {},
    }
    // The parameter.
    match p.param {
        Some(t) => {
            assert(s[o2] == s.subrange(o2, o3)[0]);
            assert(cp.subrange(1, 1 + t.len() as int) =~= t);
            assert(s.subrange(o2 + 1, o3) =~= s.subrange(o2, o3).subrange(1, 1 + t.len() as int));
            lemma_component_found(s, o2, '.', t);
        },
        None => {},
    }
    // The format.
    match p.format {
        Some(t) => {
            assert(s[o3] == s.subrange(o3, n)[0]);
            assert(cf.subrange(1, 1 + t.len() as int) =~= t);
            assert(s.subrange(o3 + 1, n) =~= s.subrange(o3, n).subrange(1, 1 + t.len() as int));
            lemma_component_found(s, o3, '+', t);
        },
        None => {},
    }
    assert(parts_at(s, 0) == p);
}

/// A version, a parameter and a format are runs of ASCII letters of
/// either case and digits: any such non-empty run, behind `vnd.a.`,
/// `vnd.a.b.` or `vnd.a+`, is taken whole as the version, the parameter or
/// the format.
pub proof fn lemma_components_take_letters_and_digits(t: Seq<char>)
    requires
        t.len() > 0,
        forall|k: int|
            0 <= k < t.len() ==> ('a' <= #[trigger] t[k] && t[k] <= 'z') || ('A' <= t[k] && t[k]
                <= 'Z') || ('0' <= t[k] && t[k] <= '9'),
    ensures
        vendor_parts(seq!['v', 'n', 'd', '.', 'a', '.'] + t) == Some(
            VendorParts { vendor: seq!['a'], version: Some(t), param: None, format: None },
        ),
        vendor_parts(seq!['v', 'n', 'd', '.', 'a', '.', 'b', '.'] + t) == Some(
            VendorParts {
                vendor: seq!['a'],
                version: Some(seq!['b']),
                param: Some(t),
                format: None,
            },
        ),
        vendor_parts(seq!['v', 'n', 'd', '.', 'a', '+'] + t) == Some(
            VendorParts { vendor: seq!['a'], version: None, param: None, format: Some(t) },
        ),
{
    assert forall|k: int| 0 <= k < t.len() implies #[trigger] in_class(t[k], false) by {}
    let a = seq!['a'];
    let b = seq!['b'];
    assert(in_class(a[0], true));
    assert(all_in_class(a, true));
    assert(in_class(b[0], false));
    assert(all_in_class(b, false));
    let p1 = VendorParts { vendor: a, version: Some(t), param: None, format: None };
    let p2 = VendorParts { vendor: a, version: Some(b), param: Some(t), format: None };
    let p3 = VendorParts { vendor: a, version: None, param: None, format: Some(t) };
    lemma_render_then_parse(p1);
    lemma_render_then_parse(p2);
    lemma_render_then_parse(p3);
    assert(render_vendor_parts(p1) =~= seq!['v', 'n', 'd', '.', 'a', '.'] + t);
    assert(render_vendor_parts(p2) =~= seq!['v', 'n', 'd', '.', 'a', '.', 'b', '.'] + t);
    assert(render_vendor_parts(p3) =~= seq!['v', 'n', 'd', '.', 'a', '+'] + t);
}

/// A vendor name is a run of ASCII letters of either case, `_` and `-`:
/// any such non-empty run behind `vnd.` is taken whole as the vendor name.
pub proof fn lemma_vendor_takes_letters_underscores_dashes(t: Seq<char>)
    requires
        t.len() > 0,
        forall|k: int|
            0 <= k < t.len() ==> ('a' <= #[trigger] t[k] && t[k] <= 'z') || ('A' <= t[k] && t[k]
                <= 'Z') || t[k] == '_' || t[k] == '-',
    ensures
        vendor_parts(seq!['v', 'n', 'd', '.'] + t) == Some(
            VendorParts { vendor: t, version: None, param: None, format: None },
        ),
{
    assert forall|k: int| 0 <= k < t.len() implies #[trigger] in_class(t[k], true) by {}
    let p = VendorParts { vendor: t, version: None, param: None, format: None };
    lemma_render_then_parse(p);
    assert(render_vendor_parts(p) =~= seq!['v', 'n', 'd', '.'] + t);
}

/// Whatever the text, the vendor name found holds only ASCII letters, `_`
/// and `-`, and the version, parameter and format only ASCII letters and
/// digits.
pub proof fn lemma_found_components_alphabet(s: Seq<char>)
    ensures
        vendor_parts(s) matches Some(p) ==> {
            &&& forall|k: int|
                0 <= k < p.vendor.len() ==> ('a' <= #[trigger] p.vendor[k] && p.vendor[k] <= 'z')
                    || ('A' <= p.vendor[k] && p.vendor[k] <= 'Z') || p.vendor[k] == '_'
                    || p.vendor[k] == '-'
            &&& p.version matches Some(t) ==> forall|k: int|
                0 <= k < t.len() ==> ('a' <= #[trigger] t[k] && t[k] <= 'z') || ('A' <= t[k]
                    && t[k] <= 'Z') || ('0' <= t[k] && t[k] <= '9')
            &&& p.param matches Some(t) ==> forall|k: int|
                0 <= k < t.len() ==> ('a' <= #[trigger] t[k] && t[k] <= 'z') || ('A' <= t[k]
                    && t[k] <= 'Z') || ('0' <= t[k] && t[k] <= '9')
            &&& p.format matches Some(t) ==> forall|k: int|
                0 <= k < t.len() ==> ('a' <= #[trigger] t[k] && t[k] <= 'z') || ('A' <= t[k]
                    && t[k] <= 'Z') || ('0' <= t[k] && t[k] <= '9')
        },
{
    lemma_vendor_parts_well_formed(s);
    if let Some(p) = vendor_parts(s) {
        assert forall|k: int| 0 <= k < p.vendor.len() implies ('a' <= #[trigger] p.vendor[k]
            && p.vendor[k] <= 'z') || ('A' <= p.vendor[k] && p.vendor[k] <= 'Z') || p.vendor[k]
            == '_' || p.vendor[k] == '-' by {
            assert(in_class(p.vendor[k], true));
        }
        if let Some(t) = p.version {
            assert forall|k: int| 0 <= k < t.len() implies ('a' <= #[trigger] t[k] && t[k] <= 'z')
                || ('A' <= t[k] && t[k] <= 'Z') || ('0' <= t[k] && t[k] <= '9') by {
                assert(in_class(t[k], false));
            }
        }
        if let Some(t) = p.param {
            assert forall|k: int| 0 <= k < t.len() implies ('a' <= #[trigger] t[k] && t[k] <= 'z')
                || ('A' <= t[k] && t[k] <= 'Z') || ('0' <= t[k] && t[k] <= '9') by {
                assert(in_class(t[k], false));
            }
        }
        if let Some(t) = p.format {
            assert forall|k: int| 0 <= k < t.len() implies ('a' <= #[trigger] t[k] && t[k] <= 'z')
                || ('A' <= t[k] && t[k] <= 'Z') || ('0' <= t[k] && t[k] <= '9') by {
                assert(in_class(t[k], false));
            }
        }
    }
}

/// The components found are those written in the text: at the leftmost
/// match, the text reads `vnd.<vendor>[.<version>][.<param>][+<format>]`
/// with exactly the components found.
pub proof fn lemma_found_components_occur_in_text(s: Seq<char>)
    ensures
        first_match_from(s, 0) matches Some(p) ==> (vendor_parts(s) matches Some(parts) && {
            let r = render_vendor_parts(parts);
            &&& p + r.len() <= s.len()
            &&& s.subrange(p, p + r.len()) == r
        }),
{
    lemma_first_match_from(s, 0);
    if let Some(p) = first_match_from(s, 0) {
        lemma_run_end(s, p + 4, true);
        let v_end = run_end(s, p + 4, true);
        lemma_group_after_component(s, v_end, '.');
        let version = group_after(s, v_end, '.');
        let e1 = group_end(version, v_end);
        if let Some((_, e)) = version {
            lemma_group_after_component(s, e, '.');
        }
        let param = match version {
            Some((_, e)) => group_after(s, e, '.'),
            None => None,
        };
        let e2 = group_end(param, e1);
        lemma_group_after_component(s, e2, '+');
        let format = group_after(s, e2, '+');
        let e3 = group_end(format, e2);
        let parts = parts_at(s, p);
        assert(v_end <= e1 <= e2 <= e3 <= s.len());
        assert(s.subrange(p, p + 4) =~= seq!['v', 'n', 'd', '.']);
        assert(render_component('.', parts.version) =~= s.subrange(v_end, e1));
        assert(render_component('.', parts.param) =~= s.subrange(e1, e2));
        assert(render_component('+', parts.format) =~= s.subrange(e2, e3));
        assert(s.subrange(p, e3) =~= s.subrange(p, p + 4) + s.subrange(p + 4, v_end) + s.subrange(
            v_end,
            e1,
        ) + s.subrange(e1, e2) + s.subrange(e2, e3));
        assert(render_vendor_parts(parts) =~= s.subrange(p, e3));
    }
}

} // verus!
