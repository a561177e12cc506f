//! Text helpers the capability modules share: single-character
//! replacement, substring search, decimal rendering, and the one text
//! operation taken on trust, lower-casing.

use vstd::prelude::*;

verus! {

/// `s` with every occurrence of `c` replaced by `rep`.
pub open spec fn replace_char(s: Seq<char>, c: char, rep: Seq<char>) -> Seq<char>
    decreases s.len(),
{
    if s.len() == 0 {
        Seq::empty()
    } else {
        (if s[0] == c {
            rep
        } else {
            seq![s[0]]
        }) + replace_char(s.skip(1), c, rep)
    }
}

/// Appending one character extends the replacement by that character's
/// image.
pub proof fn lemma_replace_char_push(s: Seq<char>, x: char, c: char, rep: Seq<char>)
    ensures
        replace_char(s.push(x), c, rep) == replace_char(s, c, rep) + (if x == c {
            rep
        } else {
            seq![x]
        }),
    decreases s.len(),
{
    if s.len() == 0 {
        assert(s.push(x)[0] == x);
        assert(s.push(x).skip(1) =~= Seq::<char>::empty());
        assert(replace_char(s.push(x).skip(1), c, rep) =~= Seq::<char>::empty());
        assert(replace_char(s.push(x), c, rep) =~= replace_char(s, c, rep) + (if x == c {
            rep
        } else {
            seq![x]
        }));
    } else {
        assert(s.push(x)[0] == s[0]);
        assert(s.push(x).skip(1) =~= s.skip(1).push(x));
        lemma_replace_char_push(s.skip(1), x, c, rep);
        assert(replace_char(s.push(x), c, rep) =~= replace_char(s, c, rep) + (if x == c {
            rep
        } else {
            seq![x]
        }));
    }
}

/// One replacement pass over a string: every occurrence of `c` becomes
/// `rep`, all other characters are kept.
#[verifier::loop_isolation(false)]
pub fn replace_char_text(s: &str, c: char, rep: &str) -> (r: String)
    ensures
        r@ == replace_char(s@, c, rep@),
{
    let n = s.unicode_len();
    let mut r = String::new();
    let mut i: usize = 0;
    while i < n
        invariant
            i <= n,
            n == s@.len(),
            r@ == replace_char(s@.take(i as int), c, rep@),
        decreases n - i,
    {
        let ch = s.get_char(i);
        if ch == c {
            r.append(rep);
        } else {
            let piece = s.substring_char(i, i + 1);
            proof {
                assert(piece@ =~= seq![s@[i as int]]);
            }
            r.append(piece);
        }
        proof {
            lemma_replace_char_push(s@.take(i as int), s@[i as int], c, rep@);
            assert(s@.take(i + 1) =~= s@.take(i as int).push(s@[i as int]));
        }
        i = i + 1;
    }
    proof {
        assert(s@.take(n as int) =~= s@);
    }
    r
}

/// `needle` occurs contiguously somewhere in `hay`.
pub open spec fn contains_seq(hay: Seq<char>, needle: Seq<char>) -> bool {
    exists|i: int|
        0 <= i <= hay.len() - needle.len() && #[trigger] hay.subrange(i, i + needle.len())
            == needle
}

/// Whether `needle` matches `hay` at position `at`.
#[verifier::loop_isolation(false)]
fn matches_at(hay: &str, needle: &str, at: usize) -> (r: bool)
    requires
        at + needle@.len() <= hay@.len(),
    ensures
        r == (hay@.subrange(at as int, at + needle@.len()) == needle@),
{
    let hn = hay.unicode_len();
    let nn = needle.unicode_len();
    let mut k: usize = 0;
    while k < nn
        invariant
            k <= nn,
            nn == needle@.len(),
            hn == hay@.len(),
            at + nn <= hn,
            forall|j: int| 0 <= j < k ==> hay@[at + j] == needle@[j],
        decreases nn - k,
    {
        if hay.get_char(at + k) != needle.get_char(k) {
            proof {
                assert(hay@.subrange(at as int, at + needle@.len())[k as int] == hay@[at + k]);
            }
            return false;
        }
        k = k + 1;
    }
    proof {
        assert(hay@.subrange(at as int, at + needle@.len()) =~= needle@);
    }
    true
}

/// Substring search over text.
#[verifier::loop_isolation(false)]
pub fn text_contains(hay: &str, needle: &str) -> (r: bool)
    ensures
        r == contains_seq(hay@, needle@),
{
    let hn = hay.unicode_len();
    let nn = needle.unicode_len();
    if nn > hn {
        return false;
    }
    if nn == 0 {
        proof {
            assert(hay@.subrange(0, 0 + needle@.len() as int) =~= needle@);
        }
        return true;
    }
    let mut i: usize = 0;
    while i <= hn - nn
        invariant
            1 <= nn <= hn,
            hn == hay@.len(),
            nn == needle@.len(),
            i <= hn - nn + 1,
            forall|j: int|
                0 <= j < i ==> #[trigger] hay@.subrange(j, j + needle@.len()) != needle@,
        decreases hn - nn + 1 - i,
    {
        if matches_at(hay, needle, i) {
            return true;
        }
        i = i + 1;
    }
    false
}

/// The character for one decimal digit.
pub open spec fn digit_char(d: int) -> char {
    if d == 0 {
        '0'
    } else if d == 1 {
        '1'
    } else if d == 2 {
        '2'
    } else if d == 3 {
        '3'
    } else if d == 4 {
        '4'
    } else if d == 5 {
        '5'
    } else if d == 6 {
        '6'
    } else if d == 7 {
        '7'
    } else if d == 8 {
        '8'
    } else {
        '9'
    }
}

/// Decimal text of a number, most significant digit first.
pub open spec fn decimal_of(n: nat) -> Seq<char>
    decreases n,
{
    if n < 10 {
        seq![digit_char(n as int)]
    } else {
        decimal_of(n / 10).push(digit_char((n % 10) as int))
    }
}

fn digit_literal(d: u64) -> (r: &'static str)
    requires
        d < 10,
    ensures
        r@ == seq![digit_char(d as int)],
{
    proof {
        reveal_strlit("0");
        reveal_strlit("1");
        reveal_strlit("2");
        reveal_strlit("3");
        reveal_strlit("4");
        reveal_strlit("5");
        reveal_strlit("6");
        reveal_strlit("7");
        reveal_strlit("8");
        reveal_strlit("9");
    }
    let r: &'static str = if d == 0 {
        "0"
    } else if d == 1 {
        "1"
    } else if d == 2 {
        "2"
    } else if d == 3 {
        "3"
    } else if d == 4 {
        "4"
    } else if d == 5 {
        "5"
    } else if d == 6 {
        "6"
    } else if d == 7 {
        "7"
    } else if d == 8 {
        "8"
    } else {
        "9"
    };
    proof {
        assert(r@ =~= seq![digit_char(d as int)]);
    }
    r
}

/// Decimal text of `n`, as used in temporary-artifact names.
pub fn decimal_string(n: u64) -> (r: String)
    ensures
        r@ == decimal_of(n as nat),
    decreases n,
{
    if n < 10 {
        String::from_str(digit_literal(n))
    } else {
        let mut s = decimal_string(n / 10);
        s.append(digit_literal(n % 10));
        proof {
            assert(decimal_of((n / 10) as nat).push(digit_char((n % 10) as int)) =~= decimal_of(
                (n / 10) as nat,
            ) + seq![digit_char((n % 10) as int)]);
        }
        s
    }
}

/// Whether a character is a decimal digit.
pub open spec fn is_decimal_digit(c: char) -> bool {
    ||| c == '0'
    ||| c == '1'
    ||| c == '2'
    ||| c == '3'
    ||| c == '4'
    ||| c == '5'
    ||| c == '6'
    ||| c == '7'
    ||| c == '8'
    ||| c == '9'
}

/// Decimal text consists of decimal digits only.
pub proof fn lemma_decimal_of_digits(n: nat)
    ensures
        forall|i: int| 0 <= i < decimal_of(n).len() ==> is_decimal_digit(#[trigger] decimal_of(
            n,
        )[i]),
    decreases n,
{
    if n < 10 {
        assert(decimal_of(n) == seq![digit_char(n as int)]);
        assert(decimal_of(n)[0] == digit_char(n as int));
    } else {
        lemma_decimal_of_digits(n / 10);
        let prefix = decimal_of(n / 10);
        assert(decimal_of(n) == prefix.push(digit_char((n % 10) as int)));
        assert forall|i: int| 0 <= i < decimal_of(n).len() implies is_decimal_digit(
            #[trigger] decimal_of(n)[i],
        ) by {
            if i < prefix.len() {
                assert(decimal_of(n)[i] == prefix[i]);
            } else {
                assert(decimal_of(n)[i] == digit_char((n % 10) as int));
            }
        }
    }
}

/// Decimal text has at least one digit, two from ten upward.
pub proof fn lemma_decimal_of_len(n: nat)
    ensures
        decimal_of(n).len() >= 1,
        n >= 10 ==> decimal_of(n).len() >= 2,
    decreases n,
{
    if n >= 10 {
        lemma_decimal_of_len(n / 10);
    }
}

/// Distinct numbers have distinct decimal texts.
pub proof fn lemma_decimal_of_injective(a: nat, b: nat)
    requires
        decimal_of(a) == decimal_of(b),
    ensures
        a == b,
    decreases a + b,
{
    lemma_decimal_of_len(a);
    lemma_decimal_of_len(b);
    if a < 10 && b < 10 {
        assert(decimal_of(a) == seq![digit_char(a as int)]);
        assert(decimal_of(b) == seq![digit_char(b as int)]);
        assert(decimal_of(a)[0] == digit_char(a as int));
        assert(decimal_of(b)[0] == digit_char(b as int));
        assert(digit_char(a as int) == digit_char(b as int));
        assert(a == b);
    } else if a < 10 {
        assert(decimal_of(a).len() == 1);
        assert(decimal_of(b).len() >= 2);
    } else if b < 10 {
        assert(decimal_of(b).len() == 1);
        assert(decimal_of(a).len() >= 2);
    } else {
        let pa = decimal_of(a / 10);
        let pb = decimal_of(b / 10);
        assert(decimal_of(a) == pa.push(digit_char((a % 10) as int)));
        assert(decimal_of(b) == pb.push(digit_char((b % 10) as int)));
        assert(pa.push(digit_char((a % 10) as int)).last() == digit_char((a % 10) as int));
        assert(pb.push(digit_char((b % 10) as int)).last() == digit_char((b % 10) as int));
        assert(digit_char((a % 10) as int) == digit_char((b % 10) as int));
        assert(a % 10 == b % 10);
        assert(pa.push(digit_char((a % 10) as int)).drop_last() =~= pa);
        assert(pb.push(digit_char((b % 10) as int)).drop_last() =~= pb);
        assert(pa == pb);
        lemma_decimal_of_injective(a / 10, b / 10);
        assert(a == 10 * (a / 10) + a % 10);
        assert(b == 10 * (b / 10) + b % 10);
    }
}

/// The texts of a sequence of strings.
pub open spec fn texts_of(v: Seq<String>) -> Seq<Seq<char>> {
    v.map_values(|s: String| s@)
}

/// The lower-case form `str::to_lowercase` produces: a function of the
/// characters alone.
pub uninterp spec fn lowercase_of(s: Seq<char>) -> Seq<char>;

/// Relies on str::to_lowercase: the result depends only on the input
/// text, and an empty input gives an empty result.
#[verifier::external_body]
pub(crate) fn to_lowercase_text(s: &str) -> (r: String)
    ensures
        r@ == lowercase_of(s@),
        s@.len() == 0 ==> r@.len() == 0,
{
    s.to_lowercase()
}

/// Whether a string equals a literal, compared by text.
pub fn text_equals(a: &str, b: &str) -> (r: bool)
    ensures
        r == (a@ == b@),
{
    let sa = String::from_str(a);
    let sb = String::from_str(b);
    sa == sb
}

} // verus!
