use vstd::prelude::*;

verus! {

/// The value of `c` as a decimal digit, where it is one.
pub open spec fn digit_value(c: char) -> Option<nat> {
    if '0' as int <= c as int <= '9' as int {
        Some((c as int - '0' as int) as nat)
    } else {
        None
    }
}

/// Holds where every character of `text` is a decimal digit.
pub open spec fn all_digits(text: Seq<char>) -> bool {
    forall|i: int| 0 <= i < text.len() ==> digit_value(#[trigger] text[i]) is Some
}

/// The number that `text` writes in decimal; a character that is no digit
/// counts as zero.
pub open spec fn decimal_value(text: Seq<char>) -> nat
    decreases text.len(),
{
    if text.len() == 0 {
        0
    } else {
        decimal_value(text.drop_last()) * 10 + match digit_value(text.last()) {
            Some(d) => d,
            None => 0,
        }
    }
}

/// The index of the last colon of `address`, or -1 where it has none.
pub open spec fn last_colon(address: Seq<char>) -> int
    decreases address.len(),
{
    if address.len() == 0 {
        -1
    } else if address.last() == ':' {
        address.len() - 1
    } else {
        last_colon(address.drop_last())
    }
}

/// The port that the digits `digits` write: there is at least one, each is
/// a decimal digit, and their value is at most 65535.
pub open spec fn digits_value(digits: Seq<char>) -> Option<u16> {
    if digits.len() > 0 && all_digits(digits) && decimal_value(digits) <= u16::MAX {
        Some(decimal_value(digits) as u16)
    } else {
        None
    }
}

/// The port that `text` writes: one or more decimal digits, with or
/// without a plus sign in front of them, whose value is at most 65535.
pub open spec fn port_value(text: Seq<char>) -> Option<u16> {
    if text.len() > 0 && text[0] == '+' {
        digits_value(text.skip(1))
    } else {
        digits_value(text)
    }
}

/// The port of an address of the form `host:port`: what is written after
/// its last colon.  An address without a colon, or with anything but a port
/// after the last one, has none, and no transport can be opened to it.
pub open spec fn port_of(address: Seq<char>) -> Option<u16> {
    let colon = last_colon(address);
    if colon < 0 {
        None
    } else {
        port_value(address.skip(colon + 1))
    }
}

/// The last colon, where there is one, is a colon inside the address, and
/// no colon follows it.
pub proof fn lemma_last_colon(address: Seq<char>)
    ensures
        -1 <= last_colon(address) < address.len(),
        last_colon(address) >= 0 ==> address[last_colon(address)] == ':',
        forall|j: int| last_colon(address) < j < address.len() ==> address[j] != ':',
    decreases address.len(),
{
    if address.len() > 0 && address.last() != ':' {
        lemma_last_colon(address.drop_last());
        assert forall|j: int| last_colon(address) < j < address.len() implies address[j]
            != ':' by {
            if j < address.len() - 1 {
                assert(address.drop_last()[j] == address[j]);
            }
        }
    }
}

/// A number does not get smaller when more characters are written after
/// it.
pub proof fn lemma_value_grows(text: Seq<char>, k: int)
    requires
        0 <= k <= text.len(),
    ensures
        decimal_value(text.take(k)) <= decimal_value(text),
    decreases text.len(),
{
    if k == text.len() {
        assert(text.take(k) =~= text);
    } else {
        lemma_value_grows(text.drop_last(), k);
        assert(text.drop_last().take(k) =~= text.take(k));
    }
}

/// The value of `c` as a decimal digit.
fn digit_of(c: char) -> (d: Option<u32>)
    ensures
        match d {
            Some(v) => digit_value(c) == Some(v as nat),
            None => digit_value(c) is None,
        },
{
    let code: u32 = c as u32;
    if 48 <= code && code <= 57 {
        Some(code - 48)
    } else {
        None
    }
}

/// Finds the last colon of `address`.
fn find_last_colon(address: &str) -> (colon: Option<usize>)
    ensures
        match colon {
            Some(c) => last_colon(address@) == c,
            None => last_colon(address@) == -1,
        },
{
    let n = address.unicode_len();
    let mut colon: Option<usize> = None;
    let mut i: usize = 0;
    while i < n
        invariant
            i <= n,
            n == address@.len(),
            match colon {
                Some(c) => last_colon(address@.take(i as int)) == c,
                None => last_colon(address@.take(i as int)) == -1,
            },
        decreases n - i,
    {
        let c = address.get_char(i);
        assert(address@.take(i + 1).drop_last() =~= address@.take(i as int));
        if c == ':' {
            colon = Some(i);
        }
        i = i + 1;
    }
    assert(address@.take(n as int) =~= address@);
    colon
}

/// Reads the port of an address of the form `host:port`.
pub fn parse_port(address: &str) -> (port: Option<u16>)
    ensures
        port == port_of(address@),
{
    let n = address.unicode_len();
    let colon = match find_last_colon(address) {
        Some(c) => c,
        None => {
            return None;
        },
    };
    proof {
        lemma_last_colon(address@);
    }
    let ghost text = address@.skip(colon + 1);
    let mut start: usize = colon + 1;
    if start < n && address.get_char(start) == '+' {
        start = start + 1;
    }
    let ghost digits = address@.skip(start as int);
    assert(text.len() > 0 ==> text[0] == address@[colon + 1]);
    assert(start == colon + 2 ==> digits =~= text.skip(1));
    assert(port_of(address@) == digits_value(digits));
    if start == n {
        return None;
    }
    let mut value: u32 = 0;
    let mut i: usize = start;
    while i < n
        invariant
            start <= i <= n,
            n == address@.len(),
            digits == address@.skip(start as int),
            port_of(address@) == digits_value(digits),
            all_digits(digits.take(i - start)),
            value == decimal_value(digits.take(i - start)),
            value <= u16::MAX,
        decreases n - i,
    {
        let c = address.get_char(i);
        assert(digits[i - start] == c);
        assert(digits.take(i - start + 1).drop_last() =~= digits.take(i - start));
        assert(digits.take(i - start + 1).last() == c);
        match digit_of(c) {
            None => {
                assert(digit_value(digits[i - start]) is None);
                return None;
            },
            Some(d) => {
                value = value * 10 + d;
                assert(value == decimal_value(digits.take(i - start + 1)));
                if value > 65535 {
                    proof {
                        lemma_value_grows(digits, i - start + 1);
                    }
                    return None;
                }
            },
        }
        i = i + 1;
    }
    assert(digits.take(n - start) =~= digits);
    Some(value as u16)
}

} // verus!
