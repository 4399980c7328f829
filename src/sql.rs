use vstd::prelude::*;

verus! {

/// The characters that Unicode classes as white space.
pub open spec fn is_white(c: char) -> bool {
    ||| '\u{9}' <= c <= '\u{d}'
    ||| c == ' '
    ||| c == '\u{85}'
    ||| c == '\u{a0}'
    ||| c == '\u{1680}'
    ||| '\u{2000}' <= c <= '\u{200a}'
    ||| c == '\u{2028}'
    ||| c == '\u{2029}'
    ||| c == '\u{202f}'
    ||| c == '\u{205f}'
    ||| c == '\u{3000}'
}

/// The text with its leading white space removed.
pub open spec fn trim_start(s: Seq<char>) -> Seq<char>
    decreases s.len(),
{
    if s.len() > 0 && is_white(s[0]) {
        trim_start(s.drop_first())
    } else {
        s
    }
}

/// `c` upper-cases to text that begins with the `i`-th letter of the keyword
/// SELECT, as far as a prefix match of the upper-cased statement can see: the
/// long s upper-cases to `S`, and `\u{1e97}` to `T` and a combining diaeresis,
/// which only matters in the last place. No other character upper-cases to a
/// text that begins with one of these letters and fits a match.
pub open spec fn select_letter(i: int, c: char) -> bool {
    if i == 0 { c == 'S' || c == 's' || c == '\u{17f}' }
    else if i == 1 { c == 'E' || c == 'e' }
    else if i == 2 { c == 'L' || c == 'l' }
    else if i == 3 { c == 'E' || c == 'e' }
    else if i == 4 { c == 'C' || c == 'c' }
    else { c == 'T' || c == 't' || c == '\u{1e97}' }
}

/// A statement is taken to read rows when, after leading white space, its
/// upper-cased text starts with SELECT. This looks at the
/// text only; it does not parse the statement, so a `WITH ... SELECT` or an
/// `EXPLAIN` is run as a write and hands back no rows.
pub open spec fn is_read_sql(s: Seq<char>) -> bool {
    let t = trim_start(s);
    t.len() >= 6 && forall|i: int| 0 <= i < 6 ==> select_letter(i, #[trigger] t[i])
}

fn is_white_char(c: char) -> (r: bool)
    ensures
        r == is_white(c),
{
    ('\u{9}' <= c && c <= '\u{d}') || c == ' ' || c == '\u{85}' || c == '\u{a0}'
        || c == '\u{1680}' || ('\u{2000}' <= c && c <= '\u{200a}') || c == '\u{2028}'
        || c == '\u{2029}' || c == '\u{202f}' || c == '\u{205f}' || c == '\u{3000}'
}

fn is_select_letter(i: usize, c: char) -> (r: bool)
    requires
        i < 6,
    ensures
        r == select_letter(i as int, c),
{
    if i == 0 { c == 'S' || c == 's' || c == '\u{17f}' }
    else if i == 1 { c == 'E' || c == 'e' }
    else if i == 2 { c == 'L' || c == 'l' }
    else if i == 3 { c == 'E' || c == 'e' }
    else if i == 4 { c == 'C' || c == 'c' }
    else { c == 'T' || c == 't' || c == '\u{1e97}' }
}

/// Whether a statement is to be run as a read that hands back rows.
pub fn is_read_statement(sql: &str) -> (r: bool)
    ensures
        r == is_read_sql(sql@),
{
    let n = sql.unicode_len();
    let mut i: usize = 0;
    assert(sql@.subrange(0, n as int) =~= sql@);
    while i < n && is_white_char(sql.get_char(i))
        invariant
            i <= n,
            n == sql@.len(),
            trim_start(sql@) == trim_start(sql@.subrange(i as int, n as int)),
        decreases n - i,
    {
        assert(sql@.subrange(i as int + 1, n as int) =~= sql@.subrange(i as int, n as int).drop_first());
        i = i + 1;
    }
    let ghost t = sql@.subrange(i as int, n as int);
    assert(trim_start(t) == t) by {
        if t.len() > 0 {
            assert(t[0] == sql@[i as int]);
        }
    }
    if n - i < 6 {
        return false;
    }
    let mut k: usize = 0;
    while k < 6
        invariant
            k <= 6,
            i + 6 <= n,
            n == sql@.len(),
            t == sql@.subrange(i as int, n as int),
            trim_start(sql@) == t,
            forall|j: int| 0 <= j < k ==> select_letter(j, #[trigger] t[j]),
        decreases 6 - k,
    {
        let c = sql.get_char(i + k);
        assert(t[k as int] == c);
        if !is_select_letter(k, c) {
            return false;
        }
        k = k + 1;
    }
    true
}

} // verus!
