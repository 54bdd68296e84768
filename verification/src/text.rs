//! Numbers in messages, and the comparison of names.

use vstd::prelude::*;
use vstd::string::*;

verus! {

/// The character of a decimal digit.
pub open spec fn digit(n: nat) -> char {
    (n + 0x30) as u8 as char
}

/// `n` in decimal, without leading zeros.
pub open spec fn decimal(n: nat) -> Seq<char>
    decreases n,
{
    if n < 10 {
        seq![digit(n)]
    } else {
        decimal(n / 10).push(digit(n % 10))
    }
}

fn digit_text(n: u64) -> (text: &'static str)
    requires
        n < 10,
    ensures
        text@ == seq![digit(n as nat)],
{
    proof {
        reveal_strlit("0");
        reveal_strlit("1");
        reveal_strlit("2");
        reveal_strlit("3");
        reveal_strlit("4");
        reveal_strlit("5");
        reveal_strlit("6");
        reveal_strlit("7");
        reveal_strlit("8");
        reveal_strlit("9");
    }
    if n == 0 {
        "0"
    } else if n == 1 {
        "1"
    } else if n == 2 {
        "2"
    } else if n == 3 {
        "3"
    } else if n == 4 {
        "4"
    } else if n == 5 {
        "5"
    } else if n == 6 {
        "6"
    } else if n == 7 {
        "7"
    } else if n == 8 {
        "8"
    } else {
        "9"
    }
}

/// Appends `n` in decimal.
fn append_decimal(text: &mut String, n: u64)
    ensures
        final(text)@ == old(text)@ + decimal(n as nat),
    decreases n,
{
    if n >= 10 {
        append_decimal(text, n / 10);
    }
    text.append(digit_text(n % 10));
}

/// `prefix` followed by `n` in decimal.
pub fn numbered(prefix: &str, n: u64) -> (text: String)
    ensures
        text@ == prefix@ + decimal(n as nat),
{
    let mut text: String = prefix.to_owned();
    append_decimal(&mut text, n);
    text
}

/// Whether two texts are the same.
pub fn same_text(a: &str, b: &str) -> (same: bool)
    ensures
        same == (a@ == b@),
{
    let a_bytes: &[u8] = a.as_bytes();
    let b_bytes: &[u8] = b.as_bytes();
    proof {
        vstd::utf8::encode_utf8_decode_utf8(a@);
        vstd::utf8::encode_utf8_decode_utf8(b@);
    }
    if a_bytes.len() != b_bytes.len() {
        return false;
    }
    let mut index: usize = 0;
    while index < a_bytes.len()
        invariant
            index <= a_bytes@.len() == b_bytes@.len(),
            a_bytes@ == a.spec_bytes(),
            b_bytes@ == b.spec_bytes(),
            forall|i: int| 0 <= i < index ==> a_bytes@[i] == b_bytes@[i],
        decreases a_bytes@.len() - index,
    {
        if a_bytes[index] != b_bytes[index] {
            return false;
        }
        index = index + 1;
    }
    assert(a_bytes@ == b_bytes@);
    true
}

/// The number that decimal digits spell.
pub open spec fn spelled(digits: Seq<char>) -> int
    decreases digits.len(),
{
    if digits.len() == 0 {
        0
    } else {
        10 * spelled(digits.drop_last()) + (digits.last() as int - '0' as int)
    }
}

/// A number in decimal is spelled by digits, and starts with a zero only if it is
/// zero.
pub proof fn lemma_decimal(n: nat)
    ensures
        spelled(decimal(n)) == n,
        decimal(n).len() > 0,
        forall|i: int| 0 <= i < decimal(n).len() ==> '0' <= #[trigger] decimal(n)[i] <= '9',
        decimal(n)[0] == '0' ==> n == 0 && decimal(n).len() == 1,
    decreases n,
{
    let text = decimal(n);
    if n < 10 {
        assert(text.drop_last() == Seq::<char>::empty());
        assert(spelled(text.drop_last()) == 0);
        assert(digit(n) as int == n + '0' as int);
    } else {
        lemma_decimal(n / 10);
        assert(text.drop_last() == decimal(n / 10));
        assert(digit(n % 10) as int == n % 10 + '0' as int);
        assert(text[0] == decimal(n / 10)[0]);
    }
}

/// A numbered text is its prefix and then the number in decimal.
pub proof fn lemma_numbered(prefix: &str, n: u64, text: String)
    requires
        call_ensures(numbered, (prefix, n), text),
    ensures
        ({
            let digits = text@.skip(prefix@.len() as int);
            &&& prefix@.is_prefix_of(text@)
            &&& spelled(digits) == n
            &&& digits.len() > 0
            &&& forall|i: int| 0 <= i < digits.len() ==> '0' <= #[trigger] digits[i] <= '9'
            &&& digits[0] == '0' ==> n == 0 && digits.len() == 1
        }),
{
    lemma_decimal(n as nat);
    assert(text@.skip(prefix@.len() as int) == decimal(n as nat));
}

/// Two texts are the same if they have the same characters.
pub proof fn lemma_same_text(a: &str, b: &str, same: bool)
    requires
        call_ensures(same_text, (a, b), same),
    ensures
        same <==> a@.len() == b@.len() && forall|i: int| 0 <= i < a@.len() ==> a@[i] == b@[i],
{
    if a@.len() == b@.len() && (forall|i: int| 0 <= i < a@.len() ==> a@[i] == b@[i]) {
        assert(a@ =~= b@);
    }
}

} // verus!
