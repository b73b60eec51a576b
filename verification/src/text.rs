use vstd::prelude::*;
use vstd::string::*;

verus! {

/// Character-for-character equality of two string slices.
pub fn str_eq(a: &str, b: &str) -> (r: bool)
    ensures
        r == (a@ == b@),
{
    let an = a.unicode_len();
    let bn = b.unicode_len();
    if an != bn {
        return false;
    }
    let mut i: usize = 0;
    while i < an
        invariant
            an == a@.len(),
            bn == b@.len(),
            an == bn,
            i <= an,
            forall|j: int| 0 <= j < i ==> a@[j] == b@[j],
        decreases an - i,
    {
        if a.get_char(i) != b.get_char(i) {
            return false;
        }
        i = i + 1;
    }
    proof {
        assert(a@ =~= b@);
    }
    true
}

/// The decimal digits of `n`, most significant first.
pub open spec fn spec_dec(n: int) -> Seq<char>
    decreases n,
{
    if n < 10 {
        spec_digit(n)
    } else {
        spec_dec(n / 10) + spec_digit(n % 10)
    }
}

pub open spec fn spec_digit(d: int) -> Seq<char> {
    if d == 0 {
        "0"@
    } else if d == 1 {
        "1"@
    } else if d == 2 {
        "2"@
    } else if d == 3 {
        "3"@
    } else if d == 4 {
        "4"@
    } else if d == 5 {
        "5"@
    } else if d == 6 {
        "6"@
    } else if d == 7 {
        "7"@
    } else if d == 8 {
        "8"@
    } else {
        "9"@
    }
}

/// The decimal digits of `n`, with a leading minus sign when `n` is negative.
pub open spec fn spec_dec_signed(n: int) -> Seq<char> {
    if n < 0 {
        "-"@ + spec_dec(-n)
    } else {
        spec_dec(n)
    }
}

fn digit_str(d: u64) -> (r: &'static str)
    requires
        d < 10,
    ensures
        r@ == spec_digit(d as int),
{
    match d {
        0 => "0",
        1 => "1",
        2 => "2",
        3 => "3",
        4 => "4",
        5 => "5",
        6 => "6",
        7 => "7",
        8 => "8",
        _ => "9",
    }
}

/// Renders `n` in decimal.
pub fn dec_string(n: u64) -> (r: String)
    ensures
        r@ == spec_dec(n as int),
    decreases n,
{
    if n < 10 {
        String::from_str(digit_str(n))
    } else {
        let mut s = dec_string(n / 10);
        s.append(digit_str(n % 10));
        s
    }
}

/// Renders `n` in decimal, with a leading minus sign when `n` is negative.
pub fn dec_string_i64(n: i64) -> (r: String)
    requires
        n > i64::MIN,
    ensures
        r@ == spec_dec_signed(n as int),
{
    if n < 0 {
        let mut s = String::from_str("-");
        let m = dec_string((-n) as u64);
        s.append(m.as_str());
        s
    } else {
        dec_string(n as u64)
    }
}

/// The text with every backslash doubled. This is the path normalization
/// owed on the platform whose native separator is a backslash: the rendered
/// external configuration embeds the log path without escaping, so each
/// separator must arrive pre-doubled.
pub open spec fn spec_double_backslashes(s: Seq<char>) -> Seq<char>
    decreases s.len(),
{
    if s.len() == 0 {
        Seq::empty()
    } else if s[0] == '\\' {
        seq!['\\', '\\'] + spec_double_backslashes(s.drop_first())
    } else {
        seq![s[0]] + spec_double_backslashes(s.drop_first())
    }
}

proof fn lemma_double_backslashes_snoc(s: Seq<char>, c: char)
    ensures
        spec_double_backslashes(s.push(c)) == spec_double_backslashes(s) + (if c == '\\' {
            seq!['\\', '\\']
        } else {
            seq![c]
        }),
    decreases s.len(),
{
    let tail: Seq<char> = if c == '\\' {
        seq!['\\', '\\']
    } else {
        seq![c]
    };
    if s.len() == 0 {
        assert(s.push(c)[0] == c);
        assert(s.push(c).drop_first() =~= Seq::<char>::empty());
        assert(spec_double_backslashes(Seq::<char>::empty()) == Seq::<char>::empty());
        assert(spec_double_backslashes(s.push(c)) == tail + spec_double_backslashes(
            s.push(c).drop_first(),
        ));
        assert(spec_double_backslashes(s.push(c)) =~= spec_double_backslashes(s) + tail);
    } else {
        let hd: Seq<char> = if s[0] == '\\' {
            seq!['\\', '\\']
        } else {
            seq![s[0]]
        };
        assert(s.push(c)[0] == s[0]);
        assert(s.push(c).drop_first() =~= s.drop_first().push(c));
        assert(spec_double_backslashes(s.push(c)) == hd + spec_double_backslashes(
            s.drop_first().push(c),
        ));
        lemma_double_backslashes_snoc(s.drop_first(), c);
        assert(spec_double_backslashes(s) == hd + spec_double_backslashes(s.drop_first()));
        assert(hd + (spec_double_backslashes(s.drop_first()) + tail) =~= (hd
            + spec_double_backslashes(s.drop_first())) + tail);
    }
}

/// Doubles every backslash in `s`.
pub fn double_backslashes(s: &str) -> (r: String)
    ensures
        r@ == spec_double_backslashes(s@),
{
    let n = s.unicode_len();
    let mut out = String::new();
    proof {
        assert(s@.take(0) =~= Seq::<char>::empty());
    }
    let mut i: usize = 0;
    while i < n
        invariant
            n == s@.len(),
            i <= n,
            out@ == spec_double_backslashes(s@.take(i as int)),
        decreases n - i,
    {
        let c = s.get_char(i);
        if c == '\\' {
            proof {
                reveal_strlit("\\\\");
                assert("\\\\"@ =~= seq!['\\', '\\']);
            }
            out.append("\\\\");
        } else {
            let piece = s.substring_char(i, i + 1);
            proof {
                assert(piece@ =~= seq![s@[i as int]]);
            }
            out.append(piece);
        }
        proof {
            lemma_double_backslashes_snoc(s@.take(i as int), s@[i as int]);
            assert(s@.take(i as int).push(s@[i as int]) =~= s@.take(i as int + 1));
        }
        i = i + 1;
    }
    proof {
        assert(s@.take(n as int) =~= s@);
    }
    out
}

/// The position of the first newline at or after `i`, or the end of `s`.
pub open spec fn spec_line_end(s: Seq<char>, i: nat) -> nat
    decreases s.len() - i,
{
    if i >= s.len() {
        s.len()
    } else if s[i as int] == '\n' {
        i
    } else {
        spec_line_end(s, i + 1)
    }
}

/// Whether `m` occurs in `s` starting at position `i`.
pub open spec fn spec_marker_at(s: Seq<char>, m: Seq<char>, i: nat) -> bool {
    i + m.len() <= s.len() && s.subrange(i as int, (i + m.len()) as int) == m
}

/// The first non-empty run of characters that follows an occurrence of `m`
/// (at or after position `i`) and extends to the end of its line, skipping
/// runs equal to `excl`. This is the usual "capture to end of line after a
/// marker" text query.
pub open spec fn spec_first_line_capture(
    s: Seq<char>,
    m: Seq<char>,
    i: nat,
    excl: Option<Seq<char>>,
) -> Option<Seq<char>>
    decreases s.len() + 1 - i,
{
    if i + m.len() > s.len() {
        None
    } else {
        let cap = s.subrange((i + m.len()) as int, spec_line_end(s, i + m.len()) as int);
        if spec_marker_at(s, m, i) && cap.len() > 0 && (excl is None || cap != excl->Some_0) {
            Some(cap)
        } else {
            spec_first_line_capture(s, m, i + 1, excl)
        }
    }
}

pub open spec fn spec_excl(excluded: Option<&str>) -> Option<Seq<char>> {
    match excluded {
        None => None,
        Some(e) => Some(e@),
    }
}

/// A stretch with no newline runs to the end of the text.
pub proof fn lemma_line_end_no_newline(s: Seq<char>, i: nat)
    requires
        i <= s.len(),
        forall|j: int| i <= j < s.len() ==> s[j] != '\n',
    ensures
        spec_line_end(s, i) == s.len(),
    decreases s.len() - i,
{
    if i < s.len() {
        lemma_line_end_no_newline(s, i + 1);
    }
}

/// Positions where the marker does not occur contribute nothing: the first
/// capture from `i` equals the first capture from `k` when the marker occurs
/// nowhere in between.
pub proof fn lemma_capture_skip(
    s: Seq<char>,
    m: Seq<char>,
    excl: Option<Seq<char>>,
    i: nat,
    k: nat,
)
    requires
        i <= k,
        forall|j: nat| i <= j < k ==> !spec_marker_at(s, m, j),
    ensures
        spec_first_line_capture(s, m, i, excl) == spec_first_line_capture(s, m, k, excl),
    decreases k - i,
{
    if i < k {
        if i + m.len() > s.len() {
            assert(k + m.len() > s.len());
        } else {
            lemma_capture_skip(s, m, excl, i + 1, k);
        }
    }
}

fn marker_at(s: &str, m: &str, i: usize, sn: usize, mn: usize) -> (r: bool)
    requires
        sn == s@.len(),
        mn == m@.len(),
        i + mn <= sn,
    ensures
        r == spec_marker_at(s@, m@, i as nat),
{
    let mut j: usize = 0;
    while j < mn
        invariant
            sn == s@.len(),
            mn == m@.len(),
            i + mn <= sn,
            j <= mn,
            forall|k: int| 0 <= k < j ==> s@[i + k] == m@[k],
        decreases mn - j,
    {
        if s.get_char(i + j) != m.get_char(j) {
            proof {
                assert(s@.subrange(i as int, (i + mn) as int)[j as int] == s@[i + j]);
            }
            return false;
        }
        j = j + 1;
    }
    proof {
        assert(s@.subrange(i as int, (i + mn) as int) =~= m@);
    }
    true
}

/// Finds the first line-ending capture after `marker` in `s`, skipping
/// captures equal to `excluded`.
pub fn find_line_capture(s: &str, marker: &str, excluded: Option<&str>) -> (r: Option<String>)
    requires
        marker@.len() > 0,
    ensures
        match spec_first_line_capture(s@, marker@, 0, spec_excl(excluded)) {
            None => r is None,
            Some(c) => r matches Some(rs) && rs@ == c,
        },
{
    let sn = s.unicode_len();
    let mn = marker.unicode_len();
    if mn > sn {
        return None;
    }
    let mut i: usize = 0;
    while i <= sn - mn
        invariant
            sn == s@.len(),
            mn == marker@.len(),
            1 <= mn <= sn,
            i <= sn - mn + 1,
            spec_first_line_capture(s@, marker@, 0, spec_excl(excluded))
                == spec_first_line_capture(s@, marker@, i as nat, spec_excl(excluded)),
        decreases sn - mn + 1 - i,
    {
        let here = i + mn;
        if marker_at(s, marker, i, sn, mn) {
            let mut k = here;
            while k < sn && s.get_char(k) != '\n'
                invariant
                    sn == s@.len(),
                    here <= k <= sn,
                    spec_line_end(s@, here as nat) == spec_line_end(s@, k as nat),
                decreases sn - k,
            {
                k = k + 1;
            }
            proof {
                assert(spec_line_end(s@, here as nat) == k as nat);
            }
            if k > here {
                let cap = s.substring_char(here, k);
                let skip = match excluded {
                    None => false,
                    Some(e) => str_eq(cap, e),
                };
                if !skip {
                    return Some(cap.to_owned());
                }
            }
        }
        i = i + 1;
    }
    None
}

} // verus!
