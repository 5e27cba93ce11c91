//! Verified text utilities: rendering numbers, parsing numbers, splitting a
//! line at a separator character, joining fragments, and trimming whitespace.
//!
//! The split and join functions carry the round-trip lemma the query/decode
//! engine rests on: splitting the join of separator-free segments gives the
//! segments back unchanged.

use vstd::prelude::*;

verus! {

/// The views of a sequence of strings.
pub open spec fn seq_strs(v: Seq<String>) -> Seq<Seq<char>> {
    Seq::new(v.len(), |i: int| v[i]@)
}

pub proof fn lemma_seq_strs_push(v: Seq<String>, s: String)
    ensures
        seq_strs(v.push(s)) == seq_strs(v).push(s@),
{
    assert(seq_strs(v.push(s)) =~= seq_strs(v).push(s@));
}

// ---------------------------------------------------------------------------
// Comparison
// ---------------------------------------------------------------------------
/// Whether two texts hold the same characters.
pub fn str_eq(a: &str, b: &str) -> (r: bool)
    ensures
        r == (a@ == b@),
{
    let sa = String::from_str(a);
    let sb = String::from_str(b);
    sa == sb
}

// ---------------------------------------------------------------------------
// Decimal rendering
// ---------------------------------------------------------------------------
/// The decimal digit character for `d < 10`.
pub open spec fn digit_char(d: nat) -> char {
    if d == 0 {
        '0'
    } else if d == 1 {
        '1'
    } else if d == 2 {
        '2'
    } else if d == 3 {
        '3'
    } else if d == 4 {
        '4'
    } else if d == 5 {
        '5'
    } else if d == 6 {
        '6'
    } else if d == 7 {
        '7'
    } else if d == 8 {
        '8'
    } else {
        '9'
    }
}

/// The decimal rendering of `n`, most significant digit first.
pub open spec fn spec_num_chars(n: nat) -> Seq<char>
    decreases n,
{
    if n < 10 {
        seq![digit_char(n)]
    } else {
        spec_num_chars(n / 10) + seq![digit_char(n % 10)]
    }
}

/// The one-character string for the decimal digit `d`.
fn digit_str(d: usize) -> (r: &'static str)
    requires
        d < 10,
    ensures
        r@ == seq![digit_char(d as nat)],
{
    proof {
        reveal_strlit("0");
        reveal_strlit("1");
        reveal_strlit("2");
        reveal_strlit("3");
        reveal_strlit("4");
        reveal_strlit("5");
        reveal_strlit("6");
        reveal_strlit("7");
        reveal_strlit("8");
        reveal_strlit("9");
    }
    let r: &'static str = match d {
        0 => "0",
        1 => "1",
        2 => "2",
        3 => "3",
        4 => "4",
        5 => "5",
        6 => "6",
        7 => "7",
        8 => "8",
        _ => "9",
    };
    proof {
        assert(r@ =~= seq![digit_char(d as nat)]);
    }
    r
}

/// Renders `n` in decimal.
pub fn usize_to_string(n: usize) -> (r: String)
    ensures
        r@ == spec_num_chars(n as nat),
    decreases n,
{
    if n < 10 {
        String::from_str(digit_str(n))
    } else {
        let mut s = usize_to_string(n / 10);
        s.append(digit_str(n % 10));
        s
    }
}

// ---------------------------------------------------------------------------
// Decimal parsing
// ---------------------------------------------------------------------------
pub open spec fn is_digit(c: char) -> bool {
    48 <= (c as u32) && (c as u32) <= 57
}

pub open spec fn digit_val(c: char) -> nat {
    ((c as u32) - 48) as nat
}

pub open spec fn all_digits(s: Seq<char>) -> bool {
    forall|i: int| 0 <= i < s.len() ==> is_digit(#[trigger] s[i])
}

/// The value of a digit string, most significant digit first.
pub open spec fn spec_num_value(s: Seq<char>) -> nat
    decreases s.len(),
{
    if s.len() == 0 {
        0
    } else {
        spec_num_value(s.drop_last()) * 10 + digit_val(s.last())
    }
}

/// What `parse::<usize>` computes on `s`: the decimal value, if `s` is a
/// nonempty digit string whose value fits in `usize`, and nothing otherwise.
pub open spec fn spec_parse_usize(s: Seq<char>) -> Option<usize> {
    if s.len() > 0 && all_digits(s) && spec_num_value(s) <= usize::MAX {
        Some(spec_num_value(s) as usize)
    } else {
        None
    }
}

/// Appending digits never decreases the value: the value of a digit string is
/// at least the value of any of its prefixes.
proof fn lemma_num_value_prefix(s: Seq<char>, i: int)
    requires
        0 <= i <= s.len(),
    ensures
        spec_num_value(s) >= spec_num_value(s.subrange(0, i)),
    decreases s.len() - i,
{
    if i == s.len() {
        assert(s.subrange(0, i) =~= s);
    } else {
        lemma_num_value_prefix(s.drop_last(), i);
        assert(s.drop_last().subrange(0, i) =~= s.subrange(0, i));
        assert(spec_num_value(s) >= spec_num_value(s.drop_last()));
    }
}

/// Parses a decimal `usize`, exactly as [`spec_parse_usize`] says.
pub fn parse_usize(s: &str) -> (r: Option<usize>)
    ensures
        r == spec_parse_usize(s@),
{
    let n = s.unicode_len();
    if n == 0 {
        return None;
    }
    let mut val: usize = 0;
    let mut i: usize = 0;
    while i < n
        invariant
            0 <= i <= n,
            n == s@.len(),
            all_digits(s@.subrange(0, i as int)),
            val == spec_num_value(s@.subrange(0, i as int)),
        decreases n - i,
    {
        let c = s.get_char(i);
        let cv = c as u32;
        if cv < 48 || cv > 57 {
            assert(!is_digit(s@[i as int]));
            return None;
        }
        let d = (cv - 48) as usize;
        if val > (usize::MAX - d) / 10 {
            proof {
                let pre = s@.subrange(0, (i + 1) as int);
                assert(pre.drop_last() =~= s@.subrange(0, i as int));
                assert(pre.last() == s@[i as int]);
                assert(spec_num_value(pre) == val * 10 + d);
                assert(val >= (usize::MAX - d) / 10 + 1);
                assert(val * 10 + d > usize::MAX) by (nonlinear_arith)
                    requires
                        val >= (usize::MAX - d) / 10 + 1,
                        d < 10,
                ;
                lemma_num_value_prefix(s@, i + 1);
                assert(spec_num_value(s@) > usize::MAX);
            }
            return None;
        }
        proof {
            assert(val * 10 + d <= usize::MAX) by (nonlinear_arith)
                requires
                    val <= (usize::MAX - d) / 10,
                    d < 10,
            ;
            let pre = s@.subrange(0, (i + 1) as int);
            assert(pre.drop_last() =~= s@.subrange(0, i as int));
            assert(pre.last() == s@[i as int]);
            assert(forall|j: int|
                0 <= j < pre.len() ==> is_digit(#[trigger] pre[j]));
        }
        val = val * 10 + d;
        i = i + 1;
    }
    proof {
        assert(s@.subrange(0, n as int) =~= s@);
    }
    Some(val)
}

/// What `parse::<usize>().map(|v| v == 1)` computes on `s`.
pub open spec fn spec_parse_flag(s: Seq<char>) -> Option<bool> {
    match spec_parse_usize(s) {
        Some(v) => Some(v == 1),
        None => None,
    }
}

/// Parses the `0`/`1` flag rendering tmux uses for booleans: any decimal
/// number parses, and only the value one means true.
pub fn parse_flag(s: &str) -> (r: Option<bool>)
    ensures
        r == spec_parse_flag(s@),
{
    match parse_usize(s) {
        Some(v) => Some(v == 1),
        None => None,
    }
}

// ---------------------------------------------------------------------------
// Splitting and joining
// ---------------------------------------------------------------------------
/// The segments of `s` split at `sep`.  Splitting never yields an empty list:
/// the empty text splits into one empty segment.
pub open spec fn spec_split(s: Seq<char>, sep: char) -> Seq<Seq<char>>
    decreases s.len(),
{
    if s.len() == 0 {
        seq![Seq::<char>::empty()]
    } else {
        let rest = spec_split(s.drop_last(), sep);
        if s.last() == sep {
            rest.push(Seq::<char>::empty())
        } else {
            rest.update(rest.len() - 1, rest.last().push(s.last()))
        }
    }
}

pub proof fn lemma_split_len(s: Seq<char>, sep: char)
    ensures
        spec_split(s, sep).len() >= 1,
    decreases s.len(),
{
    if s.len() > 0 {
        lemma_split_len(s.drop_last(), sep);
    }
}

/// Splits `s` at every occurrence of `sep`.
pub fn split_line(s: &str, sep: char) -> (r: Vec<String>)
    ensures
        seq_strs(r@) == spec_split(s@, sep),
        r@.len() >= 1,
{
    let n = s.unicode_len();
    let mut segs: Vec<String> = Vec::new();
    let mut start: usize = 0;
    let mut i: usize = 0;
    proof {
        assert(s@.subrange(0, 0) =~= Seq::<char>::empty());
        assert(seq_strs(segs@) =~= Seq::<Seq<char>>::empty());
    }
    while i < n
        invariant
            0 <= start <= i <= n,
            n == s@.len(),
            spec_split(s@.subrange(0, i as int), sep) == seq_strs(segs@).push(
                s@.subrange(start as int, i as int),
            ),
        decreases n - i,
    {
        let ghost pre = s@.subrange(0, i as int);
        let ghost cur = s@.subrange(start as int, i as int);
        let c = s.get_char(i);
        proof {
            assert(s@.subrange(0, (i + 1) as int).drop_last() =~= pre);
            assert(s@.subrange(0, (i + 1) as int).last() == c);
        }
        if c == sep {
            let seg = String::from_str(s.substring_char(start, i));
            proof {
                lemma_seq_strs_push(segs@, seg);
                assert(s@.subrange((i + 1) as int, (i + 1) as int) =~= Seq::<char>::empty());
                assert(spec_split(s@.subrange(0, (i + 1) as int), sep) == seq_strs(
                    segs@.push(seg),
                ).push(s@.subrange((i + 1) as int, (i + 1) as int)));
            }
            segs.push(seg);
            start = i + 1;
        } else {
            proof {
                let old_split = seq_strs(segs@).push(cur);
                assert(old_split.last() == cur);
                assert(cur.push(c) =~= s@.subrange(start as int, (i + 1) as int));
                assert(old_split.update(old_split.len() - 1, cur.push(c)) =~= seq_strs(
                    segs@,
                ).push(s@.subrange(start as int, (i + 1) as int)));
            }
        }
        i = i + 1;
    }
    let seg = String::from_str(s.substring_char(start, n));
    proof {
        assert(s@.subrange(0, n as int) =~= s@);
        lemma_seq_strs_push(segs@, seg);
    }
    segs.push(seg);
    segs
}

/// The fragments joined with the separator text between them.
pub open spec fn spec_join(parts: Seq<Seq<char>>, sep: Seq<char>) -> Seq<char>
    decreases parts.len(),
{
    if parts.len() == 0 {
        Seq::<char>::empty()
    } else if parts.len() == 1 {
        parts[0]
    } else {
        spec_join(parts.drop_last(), sep) + sep + parts.last()
    }
}

/// Joins the fragments with the separator text between them.
pub fn join(parts: &Vec<String>, sep: &str) -> (r: String)
    ensures
        r@ == spec_join(seq_strs(parts@), sep@),
{
    let mut out = String::new();
    let mut i: usize = 0;
    while i < parts.len()
        invariant
            0 <= i <= parts@.len(),
            out@ == spec_join(seq_strs(parts@).subrange(0, i as int), sep@),
        decreases parts@.len() - i,
    {
        let ghost done = seq_strs(parts@).subrange(0, i as int);
        if i > 0 {
            out.append(sep);
        }
        out.append(parts[i].as_str());
        proof {
            let now = seq_strs(parts@).subrange(0, (i + 1) as int);
            assert(now.drop_last() =~= done);
            assert(now.last() == parts@[i as int]@);
            assert(out@ =~= spec_join(now, sep@));
        }
        i = i + 1;
    }
    proof {
        assert(seq_strs(parts@).subrange(0, parts@.len() as int) =~= seq_strs(parts@));
    }
    out
}

/// Whether `sep` occurs nowhere in `s`.
pub open spec fn sep_free(s: Seq<char>, sep: char) -> bool {
    forall|i: int| 0 <= i < s.len() ==> s[i] != sep
}

/// Extending a text by separator-free characters only extends its last
/// segment.
proof fn lemma_split_extend(s: Seq<char>, t: Seq<char>, sep: char)
    requires
        sep_free(t, sep),
    ensures
        spec_split(s + t, sep) == spec_split(s, sep).update(
            spec_split(s, sep).len() - 1,
            spec_split(s, sep).last() + t,
        ),
    decreases t.len(),
{
    lemma_split_len(s, sep);
    if t.len() == 0 {
        assert(s + t =~= s);
        assert(spec_split(s, sep).last() + t =~= spec_split(s, sep).last());
        assert(spec_split(s, sep).update(
            spec_split(s, sep).len() - 1,
            spec_split(s, sep).last() + t,
        ) =~= spec_split(s, sep));
    } else {
        lemma_split_extend(s, t.drop_last(), sep);
        let u = s + t.drop_last();
        assert((s + t).drop_last() =~= u);
        assert((s + t).last() == t.last());
        assert(t.last() != sep);
        let base = spec_split(s, sep);
        let mid = spec_split(u, sep);
        assert(mid == base.update(base.len() - 1, base.last() + t.drop_last()));
        assert(mid.last() == base.last() + t.drop_last());
        assert(spec_split(s + t, sep) == mid.update(mid.len() - 1, mid.last().push(t.last())));
        assert((base.last() + t.drop_last()).push(t.last()) =~= base.last() + t);
        assert(mid.update(mid.len() - 1, base.last() + t) =~= base.update(
            base.len() - 1,
            base.last() + t,
        ));
    }
}

/// A separator-free text splits into itself alone.
proof fn lemma_split_sep_free(t: Seq<char>, sep: char)
    requires
        sep_free(t, sep),
    ensures
        spec_split(t, sep) == seq![t],
{
    lemma_split_extend(Seq::<char>::empty(), t, sep);
    assert(Seq::<char>::empty() + t =~= t);
    let base = spec_split(Seq::<char>::empty(), sep);
    assert(base =~= seq![Seq::<char>::empty()]);
    assert(Seq::<char>::empty() + t =~= t);
    assert(base.update(0, base.last() + t) =~= seq![t]);
}

/// The round trip the decode engine rests on: splitting the join of
/// separator-free segments at that separator gives the segments back
/// unchanged.
pub proof fn lemma_split_join(parts: Seq<Seq<char>>, sep: char)
    requires
        parts.len() >= 1,
        forall|i: int| 0 <= i < parts.len() ==> sep_free(#[trigger] parts[i], sep),
    ensures
        spec_split(spec_join(parts, seq![sep]), sep) == parts,
    decreases parts.len(),
{
    if parts.len() == 1 {
        lemma_split_sep_free(parts[0], sep);
        assert(seq![parts[0]] =~= parts);
    } else {
        lemma_split_join(parts.drop_last(), sep);
        let j = spec_join(parts.drop_last(), seq![sep]);
        assert(spec_join(parts, seq![sep]) == j + seq![sep] + parts.last());
        let js = j + seq![sep];
        assert(js.drop_last() =~= j);
        assert(js.last() == sep);
        assert(spec_split(js, sep) == spec_split(j, sep).push(Seq::<char>::empty()));
        lemma_split_extend(js, parts.last(), sep);
        let base = spec_split(js, sep);
        assert(base == parts.drop_last().push(Seq::<char>::empty()));
        assert(js + parts.last() =~= spec_join(parts, seq![sep]));
        assert(base.last() =~= Seq::<char>::empty());
        assert(base.last() + parts.last() =~= parts.last());
        assert(base.update(base.len() - 1, parts.last()) =~= parts);
    }
}

// ---------------------------------------------------------------------------
// Decode steps shared by the descriptor tables
// ---------------------------------------------------------------------------
/// The view of an optional borrowed text.
pub open spec fn view_opt_str(s: Option<&str>) -> Option<Seq<char>> {
    match s {
        Some(t) => Some(t@),
        None => None,
    }
}

/// The view of an optional text value.
pub open spec fn view_text(s: Option<String>) -> Option<Seq<char>> {
    match s {
        Some(t) => Some(t@),
        None => None,
    }
}

/// One decode step of a boolean field: the segment at `j`, if present,
/// parsed as a numeric flag; absent or empty segments give nothing.
pub fn take_flag(segs: &Vec<String>, j: usize) -> (r: Option<bool>)
    ensures
        r == (if (j as int) < segs@.len() {
            spec_parse_flag(seq_strs(segs@)[j as int])
        } else {
            None::<bool>
        }),
{
    if j < segs.len() {
        let part = segs[j].as_str();
        if part.unicode_len() > 0 {
            parse_flag(part)
        } else {
            None
        }
    } else {
        None
    }
}

/// One decode step of a numeric field.
pub fn take_num(segs: &Vec<String>, j: usize) -> (r: Option<usize>)
    ensures
        r == (if (j as int) < segs@.len() {
            spec_parse_usize(seq_strs(segs@)[j as int])
        } else {
            None::<usize>
        }),
{
    if j < segs.len() {
        let part = segs[j].as_str();
        if part.unicode_len() > 0 {
            parse_usize(part)
        } else {
            None
        }
    } else {
        None
    }
}

/// One decode step of a text field: a nonempty segment is taken verbatim.
pub fn take_text(segs: &Vec<String>, j: usize) -> (r: Option<String>)
    ensures
        view_text(r) == (if (j as int) < segs@.len() && seq_strs(segs@)[j as int].len() > 0 {
            Some(seq_strs(segs@)[j as int])
        } else {
            None::<Seq<char>>
        }),
{
    if j < segs.len() {
        let part = &segs[j];
        if part.as_str().unicode_len() > 0 {
            Some(part.clone())
        } else {
            None
        }
    } else {
        None
    }
}

/// One decode step of an identifier field: the leading sigil character is
/// dropped before the number is parsed.
pub fn take_id(segs: &Vec<String>, j: usize) -> (r: Option<usize>)
    ensures
        r == (if (j as int) < segs@.len() && seq_strs(segs@)[j as int].len() > 0 {
            spec_parse_usize(seq_strs(segs@)[j as int].drop_first())
        } else {
            None::<usize>
        }),
{
    if j < segs.len() {
        let part = segs[j].as_str();
        let n = part.unicode_len();
        if n > 0 {
            let rest = part.substring_char(1, n);
            proof {
                assert(rest@ =~= seq_strs(segs@)[j as int].drop_first());
            }
            parse_usize(rest)
        } else {
            None
        }
    } else {
        None
    }
}

// ---------------------------------------------------------------------------
// Lines
// ---------------------------------------------------------------------------
/// A line with one trailing carriage return, if any, stripped: the line
/// ending of tools that emit `\r\n`.
pub open spec fn spec_drop_cr(s: Seq<char>) -> Seq<char> {
    if s.len() > 0 && s.last() == '\r' {
        s.drop_last()
    } else {
        s
    }
}

/// The lines of `s`: split at newlines, with one trailing newline, if any,
/// not opening an extra empty line, and one trailing carriage return per
/// line stripped.  The empty text has no lines.
pub open spec fn spec_lines(s: Seq<char>) -> Seq<Seq<char>> {
    let raw = if s.len() == 0 {
        Seq::<Seq<char>>::empty()
    } else if s.last() == '\n' {
        spec_split(s.drop_last(), '\n')
    } else {
        spec_split(s, '\n')
    };
    Seq::new(raw.len(), |i: int| spec_drop_cr(raw[i]))
}

/// Splits `s` into lines, as [`spec_lines`] says.
pub fn lines_of(s: &str) -> (r: Vec<String>)
    ensures
        seq_strs(r@) == spec_lines(s@),
{
    let n = s.unicode_len();
    if n == 0 {
        let r: Vec<String> = Vec::new();
        proof {
            assert(seq_strs(r@) =~= spec_lines(s@));
        }
        return r;
    }
    let raw = if s.get_char(n - 1) == '\n' {
        let head = s.substring_char(0, n - 1);
        proof {
            assert(head@ =~= s@.drop_last());
        }
        split_line(head, '\n')
    } else {
        split_line(s, '\n')
    };
    let ghost graw = seq_strs(raw@);
    let mut out: Vec<String> = Vec::new();
    let mut i: usize = 0;
    while i < raw.len()
        invariant
            0 <= i <= raw@.len(),
            graw == seq_strs(raw@),
            out@.len() == i,
            forall|k: int| 0 <= k < i ==> (#[trigger] out@[k])@ == spec_drop_cr(graw[k]),
        decreases raw@.len() - i,
    {
        let part = raw[i].as_str();
        let pn = part.unicode_len();
        if pn > 0 && part.get_char(pn - 1) == '\r' {
            let chopped = String::from_str(part.substring_char(0, pn - 1));
            proof {
                assert(chopped@ =~= graw[i as int].drop_last());
            }
            out.push(chopped);
        } else {
            out.push(raw[i].clone());
        }
        i = i + 1;
    }
    proof {
        assert(seq_strs(out@) =~= spec_lines(s@));
    }
    out
}


// ---------------------------------------------------------------------------
// Name/value lines
// ---------------------------------------------------------------------------
/// The position of the first space in `s`, or its length when it has none.
pub open spec fn first_space_at(s: Seq<char>) -> int
    decreases s.len(),
{
    if s.len() == 0 {
        0
    } else if s[0] == ' ' {
        0
    } else {
        1 + first_space_at(s.drop_first())
    }
}

/// The option name of a `name value` line: everything before the first
/// space, the whole line when it has none.
pub open spec fn line_name(s: Seq<char>) -> Seq<char> {
    s.subrange(0, first_space_at(s))
}

/// The option value of a `name value` line: everything after the first
/// space, empty when it has none.
pub open spec fn line_value(s: Seq<char>) -> Seq<char> {
    if first_space_at(s) < s.len() {
        s.subrange(first_space_at(s) + 1, s.len() as int)
    } else {
        Seq::<char>::empty()
    }
}

proof fn lemma_first_space_at(s: Seq<char>, i: int)
    requires
        0 <= i <= s.len(),
        forall|j: int| 0 <= j < i ==> s[j] != ' ',
        i == s.len() || s[i] == ' ',
    ensures
        first_space_at(s) == i,
    decreases i,
{
    if i == 0 {
    } else {
        lemma_first_space_at(s.drop_first(), i - 1);
    }
}

/// Splits one `name value` line at its first space.
pub fn split_name_value(line: &str) -> (r: (String, String))
    ensures
        r.0@ == line_name(line@),
        r.1@ == line_value(line@),
{
    let n = line.unicode_len();
    let mut i: usize = 0;
    while i < n && line.get_char(i) != ' '
        invariant
            0 <= i <= n,
            n == line@.len(),
            forall|j: int| 0 <= j < i ==> line@[j] != ' ',
        decreases n - i,
    {
        i = i + 1;
    }
    proof {
        lemma_first_space_at(line@, i as int);
    }
    let name = String::from_str(line.substring_char(0, i));
    let value = if i < n {
        String::from_str(line.substring_char(i + 1, n))
    } else {
        String::from_str(line.substring_char(n, n))
    };
    proof {
        assert(value@ =~= line_value(line@));
    }
    (name, value)
}

// ---------------------------------------------------------------------------
// Trimming
// ---------------------------------------------------------------------------
/// Blank characters stripped from the ends of option values.
pub open spec fn is_blank(c: char) -> bool {
    c == ' ' || c == '\t' || c == '\r' || c == '\n'
}

pub open spec fn spec_trim_start(s: Seq<char>) -> Seq<char>
    decreases s.len(),
{
    if s.len() > 0 && is_blank(s[0]) {
        spec_trim_start(s.drop_first())
    } else {
        s
    }
}

pub open spec fn spec_trim_end(s: Seq<char>) -> Seq<char>
    decreases s.len(),
{
    if s.len() > 0 && is_blank(s.last()) {
        spec_trim_end(s.drop_last())
    } else {
        s
    }
}

/// The text with blank characters stripped from both ends.
pub open spec fn spec_trim(s: Seq<char>) -> Seq<char> {
    spec_trim_end(spec_trim_start(s))
}

proof fn lemma_trim_start_at(s: Seq<char>, k: int)
    requires
        0 <= k <= s.len(),
        forall|j: int| 0 <= j < k ==> is_blank(#[trigger] s[j]),
        k == s.len() || !is_blank(s[k]),
    ensures
        spec_trim_start(s) == s.subrange(k, s.len() as int),
    decreases k,
{
    if k == 0 {
        if s.len() > 0 && is_blank(s[0]) {
            assert(false);
        }
        assert(s.subrange(0, s.len() as int) =~= s);
    } else {
        lemma_trim_start_at(s.drop_first(), k - 1);
        assert(s.drop_first().subrange(k - 1, s.drop_first().len() as int) =~= s.subrange(
            k,
            s.len() as int,
        ));
    }
}

proof fn lemma_trim_end_at(s: Seq<char>, k: int)
    requires
        0 <= k <= s.len(),
        forall|j: int| k <= j < s.len() ==> is_blank(#[trigger] s[j]),
        k == 0 || !is_blank(s[k - 1]),
    ensures
        spec_trim_end(s) == s.subrange(0, k),
    decreases s.len() - k,
{
    if k == s.len() {
        if s.len() > 0 && is_blank(s.last()) {
            assert(false);
        }
        assert(s.subrange(0, k) =~= s);
    } else {
        assert(is_blank(s.last()));
        lemma_trim_end_at(s.drop_last(), k);
        assert(s.drop_last().subrange(0, k) =~= s.subrange(0, k));
    }
}

/// Whether `c` is stripped by trimming.
fn blank(c: char) -> (r: bool)
    ensures
        r == is_blank(c),
{
    c == ' ' || c == '\t' || c == '\r' || c == '\n'
}

/// Strips blanks from both ends, as [`spec_trim`] says.
pub fn trim_str(s: &str) -> (r: String)
    ensures
        r@ == spec_trim(s@),
{
    let n = s.unicode_len();
    let mut a: usize = 0;
    while a < n && blank(s.get_char(a))
        invariant
            0 <= a <= n,
            n == s@.len(),
            forall|j: int| 0 <= j < a ==> is_blank(#[trigger] s@[j]),
        decreases n - a,
    {
        a = a + 1;
    }
    proof {
        lemma_trim_start_at(s@, a as int);
    }
    let mut b: usize = n;
    while b > a && blank(s.get_char(b - 1))
        invariant
            a <= b <= n,
            n == s@.len(),
            forall|j: int| 0 <= j < a ==> is_blank(#[trigger] s@[j]),
            forall|j: int| b <= j < n ==> is_blank(#[trigger] s@[j]),
            spec_trim_start(s@) == s@.subrange(a as int, n as int),
        decreases b,
    {
        b = b - 1;
    }
    proof {
        let mid = s@.subrange(a as int, n as int);
        lemma_trim_end_at(mid, b - a);
        assert(mid.subrange(0, b - a) =~= s@.subrange(a as int, b as int));
    }
    String::from_str(s.substring_char(a, b))
}

} // verus!
