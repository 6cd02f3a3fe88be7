use vstd::prelude::*;

verus! {

/// The sixteen lowercase digit characters, in order of value.
pub open spec fn digit_chars() -> Seq<char> {
    seq!['0', '1', '2', '3', '4', '5', '6', '7', '8', '9', 'a', 'b', 'c', 'd', 'e', 'f']
}

/// The decimal form of `n`, without leading zeros.
pub open spec fn decimal_of(n: nat) -> Seq<char>
    decreases n,
{
    if n < 10 {
        seq![digit_chars()[n as int]]
    } else {
        decimal_of(n / 10) + seq![digit_chars()[(n % 10) as int]]
    }
}

/// The lowercase hexadecimal form of `n`, without leading zeros.
pub open spec fn hex_of(n: nat) -> Seq<char>
    decreases n,
{
    if n < 16 {
        seq![digit_chars()[n as int]]
    } else {
        hex_of(n / 16) + seq![digit_chars()[(n % 16) as int]]
    }
}

/// The hexadecimal form of `n`, padded with zeros on the left to 8 digits at
/// least; a longer form is kept whole.
pub open spec fn hex8_of(n: nat) -> Seq<char> {
    let h = hex_of(n);
    if h.len() < 8 {
        Seq::new((8 - h.len()) as nat, |i: int| '0') + h
    } else {
        h
    }
}

fn digit_text(d: u64) -> (r: &'static str)
    requires
        d < 16,
    ensures
        r@ == seq![digit_chars()[d as int]],
{
    let r = match d {
        0 => "0",
        1 => "1",
        2 => "2",
        3 => "3",
        4 => "4",
        5 => "5",
        6 => "6",
        7 => "7",
        8 => "8",
        9 => "9",
        10 => "a",
        11 => "b",
        12 => "c",
        13 => "d",
        14 => "e",
        _ => "f",
    };
    proof {
        reveal_strlit("0");
        reveal_strlit("1");
        reveal_strlit("2");
        reveal_strlit("3");
        reveal_strlit("4");
        reveal_strlit("5");
        reveal_strlit("6");
        reveal_strlit("7");
        reveal_strlit("8");
        reveal_strlit("9");
        reveal_strlit("a");
        reveal_strlit("b");
        reveal_strlit("c");
        reveal_strlit("d");
        reveal_strlit("e");
        reveal_strlit("f");
        assert(r@ =~= seq![digit_chars()[d as int]]);
    }
    r
}

/// The decimal form of `n`.
pub fn to_decimal(n: usize) -> (r: String)
    ensures
        r@ == decimal_of(n as nat),
    decreases n,
{
    if n < 10 {
        String::from_str(digit_text(n as u64))
    } else {
        let mut r = to_decimal(n / 10);
        r.append(digit_text((n % 10) as u64));
        r
    }
}

/// The lowercase hexadecimal form of `n`.
pub fn to_hex(n: u64) -> (r: String)
    ensures
        r@ == hex_of(n as nat),
    decreases n,
{
    if n < 16 {
        String::from_str(digit_text(n))
    } else {
        let mut r = to_hex(n / 16);
        r.append(digit_text(n % 16));
        r
    }
}

/// The lowercase hexadecimal form of `n`, zero-padded to 8 digits at least.
pub fn to_hex8(n: u64) -> (r: String)
    ensures
        r@ == hex8_of(n as nat),
{
    let h = to_hex(n);
    let len = h.as_str().unicode_len();
    if len >= 8 {
        return h;
    }
    let mut r = String::new();
    let mut k: usize = 0;
    while k + len < 8
        invariant
            len == h@.len(),
            len < 8,
            k + len <= 8,
            r@ == Seq::new(k as nat, |i: int| '0'),
        decreases 8 - k - len,
    {
        proof {
            reveal_strlit("0");
        }
        r.append("0");
        assert(r@ =~= Seq::new((k + 1) as nat, |i: int| '0'));
        k = k + 1;
    }
    r.append(h.as_str());
    r
}

} // verus!
