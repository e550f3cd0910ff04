//! Text helpers: concatenation, comparison, decimal numbers and padding.
use vstd::prelude::*;

verus! {

/// The character of the decimal digit `d`.
pub open spec fn digit_char(d: int) -> char {
    (d + 48) as char
}

/// The decimal notation of `n`, without leading zeros.
pub open spec fn decimal(n: nat) -> Seq<char>
    decreases n,
{
    if n < 10 {
        seq![digit_char(n as int)]
    } else {
        decimal(n / 10).push(digit_char((n % 10) as int))
    }
}

/// The decimal notation of `n`, with a minus sign where `n` is negative.
pub open spec fn signed_decimal(n: int) -> Seq<char> {
    if n < 0 {
        seq!['-'] + decimal((-n) as nat)
    } else {
        decimal(n as nat)
    }
}

/// `count` spaces.
pub open spec fn spaces(count: nat) -> Seq<char> {
    Seq::new(count, |i: int| ' ')
}

/// `text`, moved to the right edge of a column of `width` characters. A longer text is kept whole.
pub open spec fn right_aligned(text: Seq<char>, width: nat) -> Seq<char> {
    if text.len() < width {
        spaces((width - text.len()) as nat) + text
    } else {
        text
    }
}

/// Says whether the two texts are the same.
pub fn same_text(a: &str, b: &str) -> (same: bool)
    ensures
        same == (a@ == b@),
{
    let left: String = a.to_owned();
    let right: String = b.to_owned();
    left == right
}

/// Joins two texts.
pub fn join2(a: &str, b: &str) -> (joined: String)
    ensures
        joined@ == a@ + b@,
{
    let mut joined: String = a.to_owned();
    joined.append(b);
    joined
}

fn digit_text(d: u64) -> (text: &'static str)
    requires
        d < 10,
    ensures
        text@ == seq![digit_char(d as int)],
{
    proof {
        reveal_strlit("0");
        reveal_strlit("1");
        reveal_strlit("2");
        reveal_strlit("3");
        reveal_strlit("4");
        reveal_strlit("5");
        reveal_strlit("6");
        reveal_strlit("7");
        reveal_strlit("8");
        reveal_strlit("9");
    }
    match d {
        0 => "0",
        1 => "1",
        2 => "2",
        3 => "3",
        4 => "4",
        5 => "5",
        6 => "6",
        7 => "7",
        8 => "8",
        _ => "9",
    }
}

/// Writes `n` in decimal.
pub fn decimal_text(n: u64) -> (text: String)
    ensures
        text@ == decimal(n as nat),
        n < 10 ==> text@.len() == 1 && text@[0] as int == '0' as int + n,
        n >= 10 ==> text@ == decimal((n / 10) as nat) + decimal((n % 10) as nat),
    decreases n,
{
    proof {
        decimal_is_written_digit_by_digit(n as nat);
    }
    if n < 10 {
        digit_text(n).to_owned()
    } else {
        let mut text: String = decimal_text(n / 10);
        text.append(digit_text(n % 10));
        text
    }
}

/// Writes `n` in decimal, with its sign where it is negative.
pub fn signed_decimal_text(n: i64) -> (text: String)
    ensures
        text@ == signed_decimal(n as int),
        n >= 0 ==> text@ == decimal(n as nat),
        n < 0 ==> text@ == seq!['-'] + decimal((-n) as nat),
{
    if n < 0 {
        let magnitude: u64 = if n == i64::MIN {
            0x8000_0000_0000_0000u64
        } else {
            (-n) as u64
        };
        proof {
            reveal_strlit("-");
            assert("-"@ =~= seq!['-']);
        }
        join2("-", decimal_text(magnitude).as_str())
    } else {
        decimal_text(n as u64)
    }
}

/// Moves `text` to the right edge of a column of `width` characters.
pub fn right_align(text: &str, width: usize) -> (aligned: String)
    ensures
        aligned@ == right_aligned(text@, width as nat),
        aligned@.len() == if text@.len() < width {
            width as nat
        } else {
            text@.len()
        },
        aligned@.skip(aligned@.len() - text@.len()) == text@,
        forall|i: int| 0 <= i < aligned@.len() - text@.len() ==> #[trigger] aligned@[i] == ' ',
{
    let len: usize = text.unicode_len();
    let mut aligned: String = String::new();
    let mut filled: usize = len;
    proof {
        reveal_strlit(" ");
    }
    while filled < width
        invariant
            len == text@.len(),
            len <= filled,
            filled <= width || filled == len,
            aligned@ == spaces((filled - len) as nat),
            " "@ == seq![' '],
        decreases width - filled,
    {
        aligned.append(" ");
        filled = filled + 1;
        assert(aligned@ =~= spaces((filled - len) as nat));
    }
    aligned.append(text);
    assert(aligned@ =~= right_aligned(text@, width as nat));
    proof {
        right_aligned_text_is_filled_up_with_spaces(text@, width as nat);
    }
    aligned
}

/// A number below ten is written as its digit, and any other as what is above its last digit,
/// followed by that digit.
pub proof fn decimal_is_written_digit_by_digit(n: nat)
    ensures
        n < 10 ==> decimal(n).len() == 1 && decimal(n)[0] as int == '0' as int + n,
        n >= 10 ==> decimal(n) == decimal(n / 10) + decimal(n % 10),
{
    if n >= 10 {
        assert(decimal(n) =~= decimal(n / 10) + decimal(n % 10));
    }
}

/// The notation of a number and that of its negative differ in a leading minus sign.
pub proof fn negative_numbers_have_a_minus_sign(n: nat)
    ensures
        signed_decimal(n as int) == decimal(n),
        n > 0 ==> signed_decimal(-n) == seq!['-'] + decimal(n),
{
}

/// An aligned text fills its column, ends with the text as it is, and has nothing but spaces before
/// it. Where the text is as wide as the column or wider, nothing is added.
pub proof fn right_aligned_text_is_filled_up_with_spaces(text: Seq<char>, width: nat)
    ensures
        ({
            let aligned = right_aligned(text, width);
            let added = aligned.len() - text.len();
            &&& aligned.len() == if text.len() < width {
                width
            } else {
                text.len()
            }
            &&& aligned.skip(added) == text
            &&& forall|i: int| 0 <= i < added ==> #[trigger] aligned[i] == ' '
        }),
{
    let aligned = right_aligned(text, width);
    assert(aligned.skip(aligned.len() - text.len()) =~= text);
}

} // verus!
