use vstd::prelude::*;

verus! {

// ---------------------------------------------------------------------------
// Character-level text model shared by the room format parser.
//
// Text is handled as a `Vec<char>` of the whole input, and pieces of it as
// half-open index ranges `(start, end)` into that vector.
// ---------------------------------------------------------------------------
/// The pieces of `s` between occurrences of `sep`, as `str::split(sep)` yields
/// them: one more piece than there are separators, empty pieces included.
pub open spec fn split_on(s: Seq<char>, sep: char) -> Seq<Seq<char>>
    decreases s.len(),
{
    if s.len() == 0 {
        seq![Seq::<char>::empty()]
    } else {
        let p = split_on(s.drop_last(), sep);
        if s.last() == sep {
            p.push(Seq::<char>::empty())
        } else {
            p.update(p.len() - 1, p.last().push(s.last()))
        }
    }
}

/// A line with one trailing carriage return removed, if it has one.
pub open spec fn strip_cr(l: Seq<char>) -> Seq<char> {
    if l.len() > 0 && l.last() == '\r' {
        l.drop_last()
    } else {
        l
    }
}

/// The lines of `s` as `str::lines` yields them: split at `\n`, a `\r` just
/// before a `\n` dropped, and a final line ending optional.
pub open spec fn lines(s: Seq<char>) -> Seq<Seq<char>> {
    if s.len() == 0 {
        Seq::empty()
    } else if s.last() == '\n' {
        split_on(s.drop_last(), '\n').map_values(|l: Seq<char>| strip_cr(l))
    } else {
        let p = split_on(s, '\n');
        p.drop_last().map_values(|l: Seq<char>| strip_cr(l)).push(p.last())
    }
}

pub open spec fn is_digit(c: char) -> bool {
    '0' <= c && c <= '9'
}

pub open spec fn all_digits(s: Seq<char>) -> bool {
    forall|i: int| 0 <= i < s.len() ==> is_digit(#[trigger] s[i])
}

/// The value of a string of decimal digits.
pub open spec fn digits_value(s: Seq<char>) -> int
    decreases s.len(),
{
    if s.len() == 0 {
        0
    } else {
        digits_value(s.drop_last()) * 10 + (s.last() as int - '0' as int)
    }
}

/// A decimal integer: an optional `+` or `-`, then at least one digit.
pub open spec fn parse_int(s: Seq<char>) -> Option<int> {
    let signed = s.len() > 0 && (s[0] == '-' || s[0] == '+');
    let body = if signed {
        s.drop_first()
    } else {
        s
    };
    if body.len() > 0 && all_digits(body) {
        if s[0] == '-' {
            Some(-digits_value(body))
        } else {
            Some(digits_value(body))
        }
    } else {
        None
    }
}

/// What `str::parse::<i32>` accepts: a decimal integer within the range of `i32`.
pub open spec fn parse_i32_spec(s: Seq<char>) -> Option<i32> {
    match parse_int(s) {
        Some(v) => if i32::MIN <= v <= i32::MAX {
            Some(v as i32)
        } else {
            None
        },
        None => None,
    }
}

/// The characters that a list of index ranges selects from `cs`.
pub open spec fn pieces(cs: Seq<char>, rs: Seq<(usize, usize)>) -> Seq<Seq<char>> {
    rs.map_values(|r: (usize, usize)| cs.subrange(r.0 as int, r.1 as int))
}

/// Every range lies within `[lo, hi]` and is ordered.
pub open spec fn ranges_within(rs: Seq<(usize, usize)>, lo: int, hi: int) -> bool {
    forall|k: int| 0 <= k < rs.len() ==> lo <= (#[trigger] rs[k]).0 <= rs[k].1 <= hi
}

pub proof fn lemma_split_on_nonempty(s: Seq<char>, sep: char)
    ensures
        split_on(s, sep).len() >= 1,
    decreases s.len(),
{
    if s.len() > 0 {
        lemma_split_on_nonempty(s.drop_last(), sep);
    }
}

pub proof fn lemma_split_on_len(s: Seq<char>, sep: char)
    ensures
        split_on(s, sep).len() <= s.len() + 1,
    decreases s.len(),
{
    if s.len() > 0 {
        lemma_split_on_len(s.drop_last(), sep);
        lemma_split_on_nonempty(s.drop_last(), sep);
    }
}

/// A text has at most as many lines as characters.
pub proof fn lemma_lines_len(s: Seq<char>)
    ensures
        lines(s).len() <= s.len(),
{
    if s.len() > 0 {
        lemma_split_on_len(s.drop_last(), '\n');
        lemma_split_on_nonempty(s.drop_last(), '\n');
        lemma_split_on_nonempty(s, '\n');
    }
}

proof fn lemma_digits_value_nonneg(s: Seq<char>)
    requires
        all_digits(s),
    ensures
        digits_value(s) >= 0,
    decreases s.len(),
{
    if s.len() > 0 {
        assert(is_digit(s[s.len() - 1]));
        lemma_digits_value_nonneg(s.drop_last());
    }
}

/// The value of an all-digit string is at least the value of any prefix.
proof fn lemma_digits_value_prefix(s: Seq<char>, k: int)
    requires
        all_digits(s),
        0 <= k <= s.len(),
    ensures
        digits_value(s.take(k)) <= digits_value(s),
    decreases s.len(),
{
    if k < s.len() {
        assert(is_digit(s[s.len() - 1]));
        assert(all_digits(s.drop_last()));
        lemma_digits_value_prefix(s.drop_last(), k);
        assert(s.drop_last().take(k) =~= s.take(k));
        lemma_digits_value_nonneg(s.drop_last());
    } else {
        assert(s.take(k) =~= s);
    }
}

/// The characters of a string slice, in order.
pub fn chars_of(s: &str) -> (out: Vec<char>)
    ensures
        out@ == s@,
{
    let mut out: Vec<char> = Vec::new();
    for c in it: s.chars()
        invariant
            out@ == it.seq().take(it.index() as int),
            it.seq() == s@,
    {
        out.push(c);
    }
    out
}

/// Splits `cs[start..end]` at every `sep`, as ranges into `cs`.
pub fn split_ranges(cs: &Vec<char>, start: usize, end: usize, sep: char) -> (rs: Vec<(usize, usize)>)
    requires
        start <= end <= cs.len(),
    ensures
        pieces(cs@, rs@) == split_on(cs@.subrange(start as int, end as int), sep),
        ranges_within(rs@, start as int, end as int),
{
    let mut rs: Vec<(usize, usize)> = Vec::new();
    let mut piece_start = start;
    let mut i = start;
    assert(cs@.subrange(start as int, start as int) =~= Seq::<char>::empty());
    assert(pieces(cs@, rs@).push(cs@.subrange(piece_start as int, i as int)) =~= split_on(
        cs@.subrange(start as int, i as int),
        sep,
    ));
    while i < end
        invariant
            start <= piece_start <= i <= end <= cs.len(),
            pieces(cs@, rs@).push(cs@.subrange(piece_start as int, i as int)) == split_on(
                cs@.subrange(start as int, i as int),
                sep,
            ),
            ranges_within(rs@, start as int, piece_start as int),
        decreases end - i,
    {
        let ghost old_rs = rs@;
        let ghost old_ps = piece_start;
        let ghost prev = cs@.subrange(start as int, i as int);
        let ghost next = cs@.subrange(start as int, i + 1);
        assert(next.drop_last() =~= prev);
        assert(next.last() == cs@[i as int]);
        if cs[i] == sep {
            rs.push((piece_start, i));
            piece_start = i + 1;
            assert(pieces(cs@, rs@) =~= pieces(cs@, old_rs).push(
                cs@.subrange(old_ps as int, i as int),
            ));
            assert(cs@.subrange(piece_start as int, i + 1) =~= Seq::<char>::empty());
        } else {
            assert(cs@.subrange(piece_start as int, i + 1) =~= cs@.subrange(
                piece_start as int,
                i as int,
            ).push(cs@[i as int]));
            let ghost p = split_on(prev, sep);
            assert(p.len() == old_rs.len() + 1);
            assert(pieces(cs@, old_rs).push(cs@.subrange(piece_start as int, i + 1)) =~= p.update(
                p.len() - 1,
                p.last().push(next.last()),
            ));
        }
        i = i + 1;
    }
    let ghost before = rs@;
    rs.push((piece_start, end));
    assert(pieces(cs@, rs@) =~= pieces(cs@, before).push(
        cs@.subrange(piece_start as int, end as int),
    ));
    rs
}

/// The lines of `cs` (see [`lines`]), as ranges into `cs`.
pub fn line_ranges(cs: &Vec<char>) -> (rs: Vec<(usize, usize)>)
    ensures
        pieces(cs@, rs@) == lines(cs@),
        ranges_within(rs@, 0, cs.len() as int),
{
    let n = cs.len();
    if n == 0 {
        let rs: Vec<(usize, usize)> = Vec::new();
        assert(pieces(cs@, rs@) =~= lines(cs@));
        return rs;
    }
    let trailing = cs[n - 1] == '\n';
    let end = if trailing {
        n - 1
    } else {
        n
    };
    let raw = split_ranges(cs, 0, end, '\n');
    proof {
        lemma_split_on_nonempty(cs@.subrange(0, end as int), '\n');
        if trailing {
            assert(cs@.subrange(0, end as int) =~= cs@.drop_last());
        } else {
            assert(cs@.subrange(0, end as int) =~= cs@);
        }
    }
    let ghost sp = split_on(cs@.subrange(0, end as int), '\n');
    // how many of the raw pieces are followed by a line feed
    let stripped_count = if trailing {
        raw.len()
    } else {
        raw.len() - 1
    };
    let mut rs: Vec<(usize, usize)> = Vec::new();
    let mut k: usize = 0;
    while k < raw.len()
        invariant
            raw.len() == sp.len(),
            pieces(cs@, raw@) == sp,
            ranges_within(raw@, 0, end as int),
            end <= n == cs.len(),
            stripped_count <= raw.len(),
            stripped_count == (if trailing { raw.len() as int } else { raw.len() - 1 }),
            k <= raw.len(),
            rs.len() == k,
            ranges_within(rs@, 0, end as int),
            forall|j: int|
                0 <= j < k ==> #[trigger] pieces(cs@, rs@)[j] == (if j < stripped_count {
                    strip_cr(sp[j])
                } else {
                    sp[j]
                }),
        decreases raw.len() - k,
    {
        let (a, b) = raw[k];
        assert(pieces(cs@, raw@)[k as int] == cs@.subrange(a as int, b as int));
        let r = if k < stripped_count && b > a && cs[b - 1] == '\r' {
            (a, b - 1)
        } else {
            (a, b)
        };
        let ghost old_rs = rs@;
        rs.push(r);
        proof {
            let piece = cs@.subrange(a as int, b as int);
            if k < stripped_count && b > a && cs@[b - 1] == '\r' {
                assert(cs@.subrange(a as int, b - 1) =~= piece.drop_last());
            }
            assert forall|j: int| 0 <= j < k + 1 implies #[trigger] pieces(cs@, rs@)[j] == (if j
                < stripped_count {
                strip_cr(sp[j])
            } else {
                sp[j]
            }) by {
                if j < k {
                    assert(pieces(cs@, rs@)[j] == pieces(cs@, old_rs)[j]);
                }
            }
        }
        k = k + 1;
    }
    proof {
        if trailing {
            assert(pieces(cs@, rs@) =~= lines(cs@));
        } else {
            assert(pieces(cs@, rs@) =~= lines(cs@));
        }
    }
    rs
}

/// Parses `cs[a..b]` as `str::parse::<i32>` would.
pub fn parse_i32(cs: &Vec<char>, a: usize, b: usize) -> (r: Option<i32>)
    requires
        a <= b <= cs.len(),
    ensures
        r == parse_i32_spec(cs@.subrange(a as int, b as int)),
{
    let ghost s = cs@.subrange(a as int, b as int);
    let mut i = a;
    let mut negative = false;
    if i < b && cs[i] == '-' {
        negative = true;
        i = i + 1;
    } else if i < b && cs[i] == '+' {
        i = i + 1;
    }
    let body_start = i;
    let ghost body = cs@.subrange(body_start as int, b as int);
    proof {
        if s.len() > 0 && (s[0] == '-' || s[0] == '+') {
            assert(body =~= s.drop_first());
        } else {
            assert(body =~= s);
        }
    }
    if i == b {
        return None;
    }
    let mut acc: i64 = 0;
    while i < b
        invariant
            a <= body_start <= i <= b <= cs.len(),
            body_start < b,
            s == cs@.subrange(a as int, b as int),
            body == cs@.subrange(body_start as int, b as int),
            body == (if s.len() > 0 && (s[0] == '-' || s[0] == '+') {
                s.drop_first()
            } else {
                s
            }),
            negative == (s.len() > 0 && s[0] == '-'),
            all_digits(cs@.subrange(body_start as int, i as int)),
            acc == digits_value(cs@.subrange(body_start as int, i as int)),
            0 <= acc <= 2147483648,
        decreases b - i,
    {
        let c = cs[i];
        let ghost pre = cs@.subrange(body_start as int, i as int);
        let ghost post = cs@.subrange(body_start as int, i + 1);
        assert(post.drop_last() =~= pre);
        if !('0' <= c && c <= '9') {
            assert(!is_digit(body[i - body_start]));
            return None;
        }
        let d = (c as u32 - '0' as u32) as i64;
        acc = acc * 10 + d;
        assert(all_digits(post)) by {
            assert forall|j: int| 0 <= j < post.len() implies is_digit(#[trigger] post[j]) by {
                if j < pre.len() {
                    assert(post[j] == pre[j]);
                }
            }
        }
        if acc > 2147483648 {
            proof {
                if all_digits(body) {
                    lemma_digits_value_prefix(body, i + 1 - body_start);
                    assert(body.take(i + 1 - body_start) =~= post);
                }
            }
            return None;
        }
        i = i + 1;
    }
    assert(cs@.subrange(body_start as int, i as int) =~= body);
    if negative {
        Some((-acc) as i32)
    } else if acc > 2147483647 {
        None
    } else {
        Some(acc as i32)
    }
}

} // verus!
