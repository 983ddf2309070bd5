//! Decimal rendering of integers and character-level string helpers used by
//! the reply and embed builders.

use vstd::prelude::*;

verus! {

use vstd::string::*;

/// The character for a single decimal digit.
pub open spec fn digit_char(d: nat) -> char {
    if d == 0 {
        '0'
    } else if d == 1 {
        '1'
    } else if d == 2 {
        '2'
    } else if d == 3 {
        '3'
    } else if d == 4 {
        '4'
    } else if d == 5 {
        '5'
    } else if d == 6 {
        '6'
    } else if d == 7 {
        '7'
    } else if d == 8 {
        '8'
    } else {
        '9'
    }
}

/// The decimal digit characters of `n`, most significant first, with no
/// leading zeros (a single `'0'` for zero).
pub open spec fn dec_digits(n: nat) -> Seq<char>
    decreases n,
{
    if n < 10 {
        seq![digit_char(n)]
    } else {
        dec_digits(n / 10) + seq![digit_char(n % 10)]
    }
}

/// The decimal rendering of a signed value: a leading `'-'` before the
/// digits of the magnitude when negative.
pub open spec fn int_dec_digits(n: int) -> Seq<char> {
    if n < 0 {
        seq!['-'] + dec_digits((-n) as nat)
    } else {
        dec_digits(n as nat)
    }
}

fn digit_str(d: u64) -> (s: &'static str)
    requires
        d < 10,
    ensures
        s@ == seq![digit_char(d as nat)],
{
    proof {
        reveal_strlit("0");
        reveal_strlit("1");
        reveal_strlit("2");
        reveal_strlit("3");
        reveal_strlit("4");
        reveal_strlit("5");
        reveal_strlit("6");
        reveal_strlit("7");
        reveal_strlit("8");
        reveal_strlit("9");
    }
    match d {
        0 => "0",
        1 => "1",
        2 => "2",
        3 => "3",
        4 => "4",
        5 => "5",
        6 => "6",
        7 => "7",
        8 => "8",
        _ => "9",
    }
}

/// Renders an unsigned value in decimal.
pub fn u64_to_dec(n: u64) -> (s: String)
    ensures
        s@ == dec_digits(n as nat),
    decreases n,
{
    if n < 10 {
        digit_str(n).to_owned()
    } else {
        assert(n / 10 < n) by (nonlinear_arith)
            requires
                10 <= n,
        ;
        let mut s = u64_to_dec(n / 10);
        s.append(digit_str(n % 10));
        s
    }
}

/// Renders a signed value in decimal.
pub fn i64_to_dec(v: i64) -> (s: String)
    ensures
        s@ == int_dec_digits(v as int),
{
    if v >= 0 {
        u64_to_dec(v as u64)
    } else {
        let magnitude: u64 = if v == i64::MIN {
            9223372036854775808
        } else {
            (-v) as u64
        };
        assert(magnitude as nat == (-(v as int)) as nat);
        let mut s = "-".to_owned();
        proof {
            reveal_strlit("-");
        }
        assert(s@ == seq!['-']);
        let digits = u64_to_dec(magnitude);
        s.append(digits.as_str());
        s
    }
}

/// `p` occurs at the start of `s`.
pub open spec fn is_prefix_of(p: Seq<char>, s: Seq<char>) -> bool {
    p.len() <= s.len() && s.subrange(0, p.len() as int) == p
}

/// Character-by-character prefix test.
pub fn starts_with_str(s: &str, p: &str) -> (r: bool)
    ensures
        r == is_prefix_of(p@, s@),
{
    let sl = s.unicode_len();
    let pl = p.unicode_len();
    if pl > sl {
        return false;
    }
    let mut i: usize = 0;
    while i < pl
        invariant
            i <= pl,
            pl <= sl,
            pl as nat == p@.len(),
            sl as nat == s@.len(),
            forall|j: int| 0 <= j < i ==> s@[j] == p@[j],
        decreases pl - i,
    {
        if s.get_char(i) != p.get_char(i) {
            assert(!is_prefix_of(p@, s@)) by {
                if is_prefix_of(p@, s@) {
                    assert(s@.subrange(0, p@.len() as int)[i as int] == s@[i as int]);
                }
            }
            return false;
        }
        i += 1;
    }
    assert(s@.subrange(0, p@.len() as int) =~= p@);
    true
}

/// The lowercase folding of a text, named after `str::to_lowercase`.
pub uninterp spec fn lower_of(s: Seq<char>) -> Seq<char>;

/// Relies on str::to_lowercase: the folded text depends on the characters
/// alone.
#[verifier::external_body]
fn lowercase(s: &str) -> (r: String)
    ensures
        r@ == lower_of(s@),
{
    s.to_lowercase()
}

/// A name is offered for a typed `partial` when its folded form starts
/// with the folded form of the partial.
pub open spec fn offered_for(name: String, partial: Seq<char>) -> bool {
    is_prefix_of(lower_of(partial), lower_of(name@))
}

/// The autocomplete step: keeps, in order, the names whose lowercase form
/// starts with the lowercase form of what the user has typed so far.
pub fn filter_by_prefix(names: &Vec<String>, partial: &str) -> (r: Vec<String>)
    ensures
        r@ == names@.filter(|t: String| offered_for(t, partial@)),
{
    let folded_partial = lowercase(partial);
    let mut out: Vec<String> = Vec::new();
    let mut i: usize = 0;
    proof {
        reveal(Seq::filter);
        assert(names@.subrange(0, 0).filter(|t: String| offered_for(t, partial@))
            =~= Seq::<String>::empty());
    }
    while i < names.len()
        invariant
            i <= names.len(),
            folded_partial@ == lower_of(partial@),
            out@ == names@.subrange(0, i as int).filter(|t: String| offered_for(t, partial@)),
        decreases names.len() - i,
    {
        let folded_name = lowercase(names[i].as_str());
        if starts_with_str(folded_name.as_str(), folded_partial.as_str()) {
            out.push(names[i].clone());
        }
        proof {
            reveal(Seq::filter);
            let prefix = names@.subrange(0, i + 1);
            assert(prefix.drop_last() =~= names@.subrange(0, i as int));
            assert(prefix.last() == names@[i as int]);
        }
        i += 1;
    }
    proof {
        assert(names@.subrange(0, names@.len() as int) =~= names@);
    }
    out
}

/// Character-sequence equality of two string slices.
pub fn str_eq(a: &str, b: &str) -> (r: bool)
    ensures
        r == (a@ == b@),
{
    let x = a.to_owned();
    let y = b.to_owned();
    x == y
}

} // verus!
