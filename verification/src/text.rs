//! Verified text rendering: decimal and hexadecimal numbers, address
//! literals, and hardware-address parsing.

use vstd::prelude::*;
use vstd::string::StringExecFns;
use crate::frame::Addr;

verus! {

/// The character for one digit value (decimal or lower-case hexadecimal).
pub open spec fn spec_digit(d: nat) -> char {
    if d == 0 {
        '0'
    } else if d == 1 {
        '1'
    } else if d == 2 {
        '2'
    } else if d == 3 {
        '3'
    } else if d == 4 {
        '4'
    } else if d == 5 {
        '5'
    } else if d == 6 {
        '6'
    } else if d == 7 {
        '7'
    } else if d == 8 {
        '8'
    } else if d == 9 {
        '9'
    } else if d == 10 {
        'a'
    } else if d == 11 {
        'b'
    } else if d == 12 {
        'c'
    } else if d == 13 {
        'd'
    } else if d == 14 {
        'e'
    } else {
        'f'
    }
}

/// The decimal rendering of a number, most significant digit first,
/// without leading zeros (zero itself renders as one digit).
pub open spec fn spec_dec(n: nat) -> Seq<char>
    decreases n,
{
    if n < 10 {
        seq![spec_digit(n)]
    } else {
        spec_dec(n / 10).push(spec_digit(n % 10))
    }
}

/// The lower-case hexadecimal rendering of a number, without leading zeros.
pub open spec fn spec_hex(n: nat) -> Seq<char>
    decreases n,
{
    if n < 16 {
        seq![spec_digit(n)]
    } else {
        spec_hex(n / 16).push(spec_digit(n % 16))
    }
}

/// One digit as a string slice.
pub fn digit_str(d: u64) -> (r: &'static str)
    requires
        d < 16,
    ensures
        r@ == seq![spec_digit(d as nat)],
{
    if d == 0 {
        proof {
            reveal_strlit("0");
        }
        "0"
    } else if d == 1 {
        proof {
            reveal_strlit("1");
        }
        "1"
    } else if d == 2 {
        proof {
            reveal_strlit("2");
        }
        "2"
    } else if d == 3 {
        proof {
            reveal_strlit("3");
        }
        "3"
    } else if d == 4 {
        proof {
            reveal_strlit("4");
        }
        "4"
    } else if d == 5 {
        proof {
            reveal_strlit("5");
        }
        "5"
    } else if d == 6 {
        proof {
            reveal_strlit("6");
        }
        "6"
    } else if d == 7 {
        proof {
            reveal_strlit("7");
        }
        "7"
    } else if d == 8 {
        proof {
            reveal_strlit("8");
        }
        "8"
    } else if d == 9 {
        proof {
            reveal_strlit("9");
        }
        "9"
    } else if d == 10 {
        proof {
            reveal_strlit("a");
        }
        "a"
    } else if d == 11 {
        proof {
            reveal_strlit("b");
        }
        "b"
    } else if d == 12 {
        proof {
            reveal_strlit("c");
        }
        "c"
    } else if d == 13 {
        proof {
            reveal_strlit("d");
        }
        "d"
    } else if d == 14 {
        proof {
            reveal_strlit("e");
        }
        "e"
    } else {
        proof {
            reveal_strlit("f");
        }
        "f"
    }
}

/// Append the decimal rendering of `n` to `s`.
pub fn push_dec(s: &mut String, n: u64)
    ensures
        final(s)@ == old(s)@ + spec_dec(n as nat),
    decreases n,
{
    if n >= 10 {
        assert(n / 10 < n);
        push_dec(s, n / 10);
    }
    let d = digit_str(n % 10);
    s.append(d);
    proof {
        assert(s@ =~= old(s)@ + spec_dec(n as nat));
    }
}

/// Append the lower-case hexadecimal rendering of `n` to `s`.
pub fn push_hex(s: &mut String, n: u64)
    ensures
        final(s)@ == old(s)@ + spec_hex(n as nat),
    decreases n,
{
    if n >= 16 {
        assert(n / 16 < n);
        push_hex(s, n / 16);
    }
    let d = digit_str(n % 16);
    s.append(d);
    proof {
        assert(s@ =~= old(s)@ + spec_hex(n as nat));
    }
}

/// The decimal rendering of `n` as an owned string.
pub fn u64_to_dec(n: u64) -> (s: String)
    ensures
        s@ == spec_dec(n as nat),
{
    let mut s = String::new();
    push_dec(&mut s, n);
    proof {
        assert(s@ =~= spec_dec(n as nat));
    }
    s
}

/// The dotted-decimal form of an IPv4 address.
pub open spec fn spec_ipv4_str(b: [u8; 4]) -> Seq<char> {
    spec_dec(b[0] as nat) + "."@ + spec_dec(b[1] as nat) + "."@ + spec_dec(b[2] as nat) + "."@
        + spec_dec(b[3] as nat)
}

/// One 16-bit group of an IPv6 address, from its two bytes.
pub open spec fn spec_ipv6_group(b: [u8; 16], g: int) -> nat {
    (b[2 * g] as nat) * 256 + (b[2 * g + 1] as nat)
}

/// The first `count` groups of an IPv6 address, in hexadecimal,
/// separated by colons.
pub open spec fn spec_ipv6_prefix(b: [u8; 16], count: int) -> Seq<char>
    decreases count,
{
    if count <= 0 {
        Seq::empty()
    } else if count == 1 {
        spec_hex(spec_ipv6_group(b, 0))
    } else {
        spec_ipv6_prefix(b, count - 1) + ":"@ + spec_hex(spec_ipv6_group(b, count - 1))
    }
}

/// The textual form of an IPv6 address: eight hexadecimal groups without
/// leading zeros, separated by colons, no group elision.
pub open spec fn spec_ipv6_str(b: [u8; 16]) -> Seq<char> {
    spec_ipv6_prefix(b, 8)
}

/// The literal textual form of an address.
pub open spec fn spec_addr_str(a: Addr) -> Seq<char> {
    match a {
        Addr::V4(b) => spec_ipv4_str(b),
        Addr::V6(b) => spec_ipv6_str(b),
    }
}

/// Render an IPv4 address in dotted-decimal form.
pub fn ipv4_to_string(b: &[u8; 4]) -> (s: String)
    ensures
        s@ == spec_ipv4_str(*b),
{
    let mut s = String::new();
    push_dec(&mut s, b[0] as u64);
    s.append(".");
    push_dec(&mut s, b[1] as u64);
    s.append(".");
    push_dec(&mut s, b[2] as u64);
    s.append(".");
    push_dec(&mut s, b[3] as u64);
    proof {
        assert(s@ =~= spec_ipv4_str(*b));
    }
    s
}

/// Render an IPv6 address as eight colon-separated hexadecimal groups.
pub fn ipv6_to_string(b: &[u8; 16]) -> (s: String)
    ensures
        s@ == spec_ipv6_str(*b),
{
    let mut s = String::new();
    let mut g: usize = 0;
    while g < 8
        invariant
            0 <= g <= 8,
            s@ == spec_ipv6_prefix(*b, g as int),
        decreases 8 - g,
    {
        if g > 0 {
            s.append(":");
        }
        let hi = b[2 * g] as u64;
        let lo = b[2 * g + 1] as u64;
        push_hex(&mut s, hi * 256 + lo);
        proof {
            assert(hi * 256 + lo == spec_ipv6_group(*b, g as int));
            assert(s@ =~= spec_ipv6_prefix(*b, g as int + 1));
        }
        g += 1;
    }
    s
}

/// Render an address in its literal textual form.
pub fn addr_to_string(a: &Addr) -> (s: String)
    ensures
        s@ == spec_addr_str(*a),
{
    match a {
        Addr::V4(b) => ipv4_to_string(b),
        Addr::V6(b) => ipv6_to_string(b),
    }
}

/// The value of one hexadecimal digit byte, if it is one.
pub open spec fn spec_hex_val(c: u8) -> Option<u8> {
    if 48 <= c <= 57 {
        Some((c - 48) as u8)
    } else if 97 <= c <= 102 {
        Some((c - 87) as u8)
    } else if 65 <= c <= 70 {
        Some((c - 55) as u8)
    } else {
        None
    }
}

/// Parse one hexadecimal digit byte.
pub fn hex_val(c: u8) -> (r: Option<u8>)
    ensures
        r == spec_hex_val(c),
        r matches Some(v) ==> v < 16,
{
    if 48 <= c && c <= 57 {
        Some(c - 48)
    } else if 97 <= c && c <= 102 {
        Some(c - 87)
    } else if 65 <= c && c <= 70 {
        Some(c - 55)
    } else {
        None
    }
}

/// A well-formed hardware-address text: six two-digit hexadecimal groups
/// separated by colons.
pub open spec fn spec_mac_wf(s: Seq<u8>) -> bool {
    &&& s.len() == 17
    &&& (forall|g: int|
        0 <= g < 6 ==> spec_hex_val(#[trigger] s[3 * g]) is Some && spec_hex_val(s[3 * g + 1])
            is Some)
    &&& (forall|g: int| 0 <= g < 5 ==> #[trigger] s[3 * g + 2] == 58u8)
}

/// The hardware-address byte denoted by group `g` of a well-formed text.
pub open spec fn spec_mac_byte(s: Seq<u8>, g: int) -> u8 {
    ((spec_hex_val(s[3 * g]).unwrap() * 16 + spec_hex_val(s[3 * g + 1]).unwrap()) as u8)
}

/// Parse a hardware address of the form `xx:xx:xx:xx:xx:xx` (hexadecimal,
/// either case). Returns the six bytes exactly when the text is well formed.
pub fn parse_mac(s: &[u8]) -> (r: Option<[u8; 6]>)
    ensures
        r is Some <==> spec_mac_wf(s@),
        r matches Some(m) ==> forall|g: int| 0 <= g < 6 ==> m[g] == spec_mac_byte(s@, g),
{
    if s.len() != 17 {
        return None;
    }
    let mut g: usize = 0;
    while g < 5
        invariant
            s@.len() == 17,
            0 <= g <= 5,
            forall|j: int| 0 <= j < g ==> #[trigger] s@[3 * j + 2] == 58u8,
        decreases 5 - g,
    {
        if s[3 * g + 2] != 58 {
            return None;
        }
        g += 1;
    }
    let mut out: [u8; 6] = [0, 0, 0, 0, 0, 0];
    let mut g: usize = 0;
    while g < 6
        invariant
            s@.len() == 17,
            0 <= g <= 6,
            forall|j: int| 0 <= j < 5 ==> #[trigger] s@[3 * j + 2] == 58u8,
            forall|j: int|
                0 <= j < g ==> spec_hex_val(#[trigger] s@[3 * j]) is Some && spec_hex_val(
                    s@[3 * j + 1],
                ) is Some && out[j] == spec_mac_byte(s@, j),
        decreases 6 - g,
    {
        let hi = match hex_val(s[3 * g]) {
            Some(v) => v,
            None => {
                return None;
            },
        };
        let lo = match hex_val(s[3 * g + 1]) {
            Some(v) => v,
            None => {
                return None;
            },
        };
        let ghost out0 = out;
        out[g] = hi * 16 + lo;
        proof {
            assert(forall|j: int| 0 <= j < g ==> out[j] == out0[j]);
        }
        g += 1;
    }
    Some(out)
}

} // verus!
