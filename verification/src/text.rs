//! Text primitives that the report format is built from: trimming, decimal
//! numbers, prefixes, lower-casing and the escaping of comment text.

use vstd::prelude::*;
use vstd::string::*;

verus! {

/// The characters that Unicode classes as `White_Space`.
pub open spec fn is_white_space(c: char) -> bool {
    let u = c as u32;
    ||| 0x0009 <= u <= 0x000D
    ||| u == 0x0020
    ||| u == 0x0085
    ||| u == 0x00A0
    ||| u == 0x1680
    ||| 0x2000 <= u <= 0x200A
    ||| u == 0x2028
    ||| u == 0x2029
    ||| u == 0x202F
    ||| u == 0x205F
    ||| u == 0x3000
}

/// `s` without its leading white space.
pub open spec fn trim_start_of(s: Seq<char>) -> Seq<char>
    decreases s.len(),
{
    if s.len() > 0 && is_white_space(s.first()) {
        trim_start_of(s.drop_first())
    } else {
        s
    }
}

/// `s` without its trailing white space.
pub open spec fn trim_end_of(s: Seq<char>) -> Seq<char>
    decreases s.len(),
{
    if s.len() > 0 && is_white_space(s.last()) {
        trim_end_of(s.drop_last())
    } else {
        s
    }
}

/// `s` without the white space that surrounds it.
pub open spec fn trimmed(s: Seq<char>) -> Seq<char> {
    trim_end_of(trim_start_of(s))
}

/// Whether `c` is a white-space character.
pub fn white_space(c: char) -> (r: bool)
    ensures
        r == is_white_space(c),
{
    let u: u32 = c as u32;
    (0x0009 <= u && u <= 0x000D)
        || u == 0x0020
        || u == 0x0085
        || u == 0x00A0
        || u == 0x1680
        || (0x2000 <= u && u <= 0x200A)
        || u == 0x2028
        || u == 0x2029
        || u == 0x202F
        || u == 0x205F
        || u == 0x3000
}

/// Skipping `a` leading white-space characters that end at a visible one
/// (or at the end) is what `trim_start_of` does.
proof fn lemma_trim_start(s: Seq<char>, a: int)
    requires
        0 <= a <= s.len(),
        forall|j: int| 0 <= j < a ==> is_white_space(#[trigger] s[j]),
        a == s.len() || !is_white_space(s[a]),
    ensures
        trim_start_of(s) == s.skip(a),
    decreases a,
{
    if a == 0 {
        assert(s.skip(0) =~= s);
    } else {
        let rest = s.drop_first();
        assert forall|j: int| 0 <= j < a - 1 implies is_white_space(#[trigger] rest[j]) by {
            assert(rest[j] == s[j + 1]);
        }
        lemma_trim_start(rest, a - 1);
        assert(rest.skip(a - 1) =~= s.skip(a));
    }
}

/// Keeping the first `b` characters, where only white space follows and the
/// last kept character (if any) is visible, is what `trim_end_of` does.
proof fn lemma_trim_end(s: Seq<char>, b: int)
    requires
        0 <= b <= s.len(),
        forall|j: int| b <= j < s.len() ==> is_white_space(#[trigger] s[j]),
        b == 0 || !is_white_space(s[b - 1]),
    ensures
        trim_end_of(s) == s.take(b),
    decreases s.len() - b,
{
    if b == s.len() {
        assert(s.take(b) =~= s);
    } else {
        let rest = s.drop_last();
        lemma_trim_end(rest, b);
        assert(rest.take(b) =~= s.take(b));
    }
}

/// Removes the white space around `s`.
pub fn trim(s: &str) -> (r: &str)
    ensures
        r@ == trimmed(s@),
{
    let mut start: usize = 0;
    let mut end: usize = 0;
    let mut i: usize = 0;
    let total: usize = s.unicode_len();
    for c in it: s.chars()
        invariant
            it.seq() == s@,
            total == s@.len(),
            i == it.index(),
            start <= end <= i,
            forall|j: int| 0 <= j < start ==> is_white_space(#[trigger] s@[j]),
            forall|j: int| end <= j < i ==> is_white_space(#[trigger] s@[j]),
            end == 0 ==> start == 0,
            end > 0 ==> !is_white_space(s@[start as int]) && !is_white_space(s@[end - 1]),
    {
        if !white_space(c) {
            if end == 0 {
                start = i;
            }
            end = i + 1;
        }
        i = i + 1;
    }
    if end == 0 {
        proof {
            lemma_trim_start(s@, s@.len() as int);
            assert(s@.skip(s@.len() as int) =~= Seq::<char>::empty());
        }
        s.substring_char(0, 0)
    } else {
        proof {
            let cut = s@.skip(start as int);
            lemma_trim_start(s@, start as int);
            assert forall|j: int| end - start <= j < cut.len() implies is_white_space(
                #[trigger] cut[j],
            ) by {
                assert(cut[j] == s@[j + start]);
            }
            lemma_trim_end(cut, end - start);
            assert(cut.take(end - start) =~= s@.subrange(start as int, end as int));
        }
        s.substring_char(start, end)
    }
}

/// The character that writes the digit `d`.
pub open spec fn digit_char(d: nat) -> char {
    if d == 0 {
        '0'
    } else if d == 1 {
        '1'
    } else if d == 2 {
        '2'
    } else if d == 3 {
        '3'
    } else if d == 4 {
        '4'
    } else if d == 5 {
        '5'
    } else if d == 6 {
        '6'
    } else if d == 7 {
        '7'
    } else if d == 8 {
        '8'
    } else {
        '9'
    }
}

/// `n` in decimal, without leading zeros.
pub open spec fn decimal(n: nat) -> Seq<char>
    decreases n,
{
    if n < 10 {
        seq![digit_char(n)]
    } else {
        decimal(n / 10).push(digit_char(n % 10))
    }
}

/// `n` in decimal, with a minus sign in front of a negative number.
pub open spec fn signed_decimal(n: int) -> Seq<char> {
    if n < 0 {
        seq!['-'] + decimal((-n) as nat)
    } else {
        decimal(n as nat)
    }
}

fn digit_text(d: u8) -> (r: &'static str)
    requires
        d < 10,
    ensures
        r@ == seq![digit_char(d as nat)],
{
    proof {
        reveal_strlit("0");
        reveal_strlit("1");
        reveal_strlit("2");
        reveal_strlit("3");
        reveal_strlit("4");
        reveal_strlit("5");
        reveal_strlit("6");
        reveal_strlit("7");
        reveal_strlit("8");
        reveal_strlit("9");
    }
    let r: &'static str = if d == 0 {
        "0"
    } else if d == 1 {
        "1"
    } else if d == 2 {
        "2"
    } else if d == 3 {
        "3"
    } else if d == 4 {
        "4"
    } else if d == 5 {
        "5"
    } else if d == 6 {
        "6"
    } else if d == 7 {
        "7"
    } else if d == 8 {
        "8"
    } else {
        "9"
    };
    assert(r@ =~= seq![digit_char(d as nat)]);
    r
}

/// Writes `n` in decimal.
pub fn decimal_text(n: u128) -> (r: String)
    ensures
        r@ == decimal(n as nat),
    decreases n,
{
    if n < 10 {
        digit_text(n as u8).to_string()
    } else {
        let mut r: String = decimal_text(n / 10);
        r.append(digit_text((n % 10) as u8));
        r
    }
}

/// Writes `n` in decimal, with its sign if it is negative.
pub fn signed_decimal_text(n: i64) -> (r: String)
    ensures
        r@ == signed_decimal(n as int),
{
    if n < 0 {
        proof {
            reveal_strlit("-");
        }
        let magnitude: u128 = (-(n as i128)) as u128;
        let mut r: String = "-".to_string();
        r.append(decimal_text(magnitude).as_str());
        assert(r@ =~= seq!['-'] + decimal((-n) as nat));
        r
    } else {
        decimal_text(n as u128)
    }
}

/// Whether `a` and `b` hold the same characters.
pub fn same_text(a: &str, b: &str) -> (r: bool)
    ensures
        r == (a@ == b@),
{
    let x: String = a.to_string();
    let y: String = b.to_string();
    x == y
}

/// What remains of `s` behind `prefix`, if `s` starts with it.
pub open spec fn without_prefix(s: Seq<char>, prefix: Seq<char>) -> Option<Seq<char>> {
    if prefix.is_prefix_of(s) {
        Some(s.skip(prefix.len() as int))
    } else {
        None
    }
}

/// Splits `prefix` off the front of `s`; `None` if `s` does not start with it.
pub fn strip_prefix<'a>(s: &'a str, prefix: &str) -> (r: Option<&'a str>)
    ensures
        match r {
            Some(rest) => without_prefix(s@, prefix@) == Some(rest@),
            None => without_prefix(s@, prefix@) is None,
        },
{
    let n: usize = s.unicode_len();
    let m: usize = prefix.unicode_len();
    if m > n {
        return None;
    }
    let head: &str = s.substring_char(0, m);
    if same_text(head, prefix) {
        let rest: &str = s.substring_char(m, n);
        assert(rest@ =~= s@.skip(m as int));
        Some(rest)
    } else {
        None
    }
}

/// `s` with every pair of hyphens, taken from the left, pulled apart by a
/// space, so that the text can stand inside an HTML comment.
pub open spec fn soften_dashes(s: Seq<char>) -> Seq<char>
    decreases s.len(),
{
    if s.len() >= 2 && s[0] == '-' && s[1] == '-' {
        seq!['-', ' ', '-'] + soften_dashes(s.skip(2))
    } else if s.len() >= 1 {
        seq![s[0]] + soften_dashes(s.skip(1))
    } else {
        s
    }
}

/// `String::push`: appends one character to the end of the string.
#[verifier::external_body]
fn push_char(s: &mut String, c: char)
    ensures
        final(s)@ == old(s)@.push(c),
{
    s.push(c);
}

/// Pulls every pair of hyphens in `s` apart: `--` becomes `- -`.
pub fn soften_dashes_text(s: &str) -> (r: String)
    ensures
        r@ == soften_dashes(s@),
{
    let mut out: String = String::new();
    let mut pending: bool = false;
    let total: usize = s.unicode_len();
    proof {
        assert(s@.skip(0) =~= s@);
    }
    for c in it: s.chars()
        invariant
            it.seq() == s@,
            total == s@.len(),
            pending ==> it.index() >= 1 && s@[it.index() - 1] == '-',
            out@ + soften_dashes(s@.skip(it.index() - if pending { 1int } else { 0int }))
                == soften_dashes(s@),
    {
        let ghost i = it.index() as int;
        let ghost before = out@;
        let ghost here = s@.skip(i);
        let ghost back = s@.skip(i - 1);
        proof {
            assert(here.len() >= 1 && here[0] == c);
            assert(here.skip(1) =~= s@.skip(i + 1));
            if pending {
                assert(back.len() >= 2 && back[0] == '-' && back[1] == c);
                assert(back.skip(2) =~= s@.skip(i + 1));
                assert(back.skip(1) =~= here);
            }
        }
        if c == '-' {
            if pending {
                push_char(&mut out, '-');
                push_char(&mut out, ' ');
                push_char(&mut out, '-');
                pending = false;
                proof {
                    assert(out@ =~= before + seq!['-', ' ', '-']);
                    assert(soften_dashes(back) == seq!['-', ' ', '-'] + soften_dashes(
                        s@.skip(i + 1),
                    ));
                    assert(out@ + soften_dashes(s@.skip(i + 1)) =~= before + soften_dashes(back));
                }
            } else {
                pending = true;
            }
        } else {
            proof {
                if here.len() >= 2 {
                    assert(here[0] != '-');
                }
                assert(soften_dashes(here) == seq![c] + soften_dashes(s@.skip(i + 1)));
            }
            if pending {
                push_char(&mut out, '-');
                pending = false;
                proof {
                    assert(soften_dashes(back) == seq!['-'] + soften_dashes(here));
                }
            }
            push_char(&mut out, c);
            proof {
                assert(out@ + soften_dashes(s@.skip(i + 1)) =~= soften_dashes(s@));
            }
        }
    }
    if pending {
        let ghost before = out@;
        let ghost last = s@.skip(s@.len() - 1);
        push_char(&mut out, '-');
        proof {
            assert(last.len() == 1 && last[0] == '-');
            assert(last.skip(1) =~= Seq::<char>::empty());
            assert(soften_dashes(last.skip(1)) =~= Seq::<char>::empty());
            assert(soften_dashes(last) =~= seq!['-']);
            assert(out@ =~= before + soften_dashes(last));
        }
    } else {
        proof {
            assert(s@.skip(s@.len() as int) =~= Seq::<char>::empty());
            assert(soften_dashes(s@.skip(s@.len() as int)) =~= Seq::<char>::empty());
            assert(out@ =~= soften_dashes(s@));
        }
    }
    out
}

/// The lower-case form of a text, as Unicode's case mapping defines it.
pub uninterp spec fn lowercase(s: Seq<char>) -> Seq<char>;

/// `str::to_lowercase`: the lower-case equivalent of `s` as a new string.
#[verifier::external_body]
pub(crate) fn to_lowercase(s: &str) -> (r: String)
    ensures
        r@ == lowercase(s@),
{
    s.to_lowercase()
}

} // verus!
