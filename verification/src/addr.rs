use vstd::prelude::*;

verus! {

/// An IPv4 socket address as plain values: four octets and a port.
#[derive(Clone, Copy, Debug, PartialEq, Eq, Structural)]
pub struct AddrV4 {
    pub o0: u8,
    pub o1: u8,
    pub o2: u8,
    pub o3: u8,
    pub port: u16,
}

/// An IPv6 socket address as plain values: eight 16-bit segments, a port,
/// and the flow information and scope id that complete the socket address.
#[derive(Clone, Copy, Debug, PartialEq, Eq, Structural)]
pub struct AddrV6 {
    pub s0: u16,
    pub s1: u16,
    pub s2: u16,
    pub s3: u16,
    pub s4: u16,
    pub s5: u16,
    pub s6: u16,
    pub s7: u16,
    pub port: u16,
    pub flowinfo: u32,
    pub scope_id: u32,
}

/// A socket address of either family. Every value of this type is a
/// well-formed address, so code that receives an `Addr` never needs to
/// re-validate it.
#[derive(Clone, Copy, Debug, PartialEq, Eq, Structural)]
pub enum Addr {
    V4(AddrV4),
    V6(AddrV6),
}

/// The decimal digit character for `d` (meaningful for `d < 10`).
pub open spec fn spec_digit(d: nat) -> char {
    if d == 0 {
        '0'
    } else if d == 1 {
        '1'
    } else if d == 2 {
        '2'
    } else if d == 3 {
        '3'
    } else if d == 4 {
        '4'
    } else if d == 5 {
        '5'
    } else if d == 6 {
        '6'
    } else if d == 7 {
        '7'
    } else if d == 8 {
        '8'
    } else {
        '9'
    }
}

/// The hexadecimal digit character for `d` (meaningful for `d < 16`).
pub open spec fn spec_hex_digit(d: nat) -> char {
    if d < 10 {
        spec_digit(d)
    } else if d == 10 {
        'a'
    } else if d == 11 {
        'b'
    } else if d == 12 {
        'c'
    } else if d == 13 {
        'd'
    } else if d == 14 {
        'e'
    } else {
        'f'
    }
}

/// The decimal representation of `n`, most significant digit first,
/// with no leading zeros (`0` alone stands for zero).
pub open spec fn spec_decimal(n: nat) -> Seq<char>
    decreases n,
{
    if n < 10 {
        seq![spec_digit(n)]
    } else {
        spec_decimal(n / 10).push(spec_digit(n % 10))
    }
}

/// The lower-case hexadecimal representation of `n`, most significant
/// digit first, with no leading zeros (`0` alone stands for zero).
pub open spec fn spec_hex(n: nat) -> Seq<char>
    decreases n,
{
    if n < 16 {
        seq![spec_hex_digit(n)]
    } else {
        spec_hex(n / 16).push(spec_hex_digit(n % 16))
    }
}

/// The canonical text of an address: `o0.o1.o2.o3:port` for the IPv4
/// family, and `[s0:s1:s2:s3:s4:s5:s6:s7]:port` with uncompressed
/// hexadecimal segments for the IPv6 family.
pub open spec fn spec_addr_text(a: Addr) -> Seq<char> {
    match a {
        Addr::V4(v) => spec_decimal(v.o0 as nat) + seq!['.'] + spec_decimal(v.o1 as nat)
            + seq!['.'] + spec_decimal(v.o2 as nat) + seq!['.'] + spec_decimal(v.o3 as nat)
            + seq![':'] + spec_decimal(v.port as nat),
        Addr::V6(v) => seq!['['] + spec_hex(v.s0 as nat) + seq![':'] + spec_hex(v.s1 as nat)
            + seq![':'] + spec_hex(v.s2 as nat) + seq![':'] + spec_hex(v.s3 as nat) + seq![':']
            + spec_hex(v.s4 as nat) + seq![':'] + spec_hex(v.s5 as nat) + seq![':'] + spec_hex(
            v.s6 as nat,
        ) + seq![':'] + spec_hex(v.s7 as nat) + seq![']'] + seq![':'] + spec_decimal(
            v.port as nat,
        ),
    }
}

/// The one-character string for the decimal digit `d`.
fn digit_str(d: u16) -> (r: &'static str)
    requires
        d < 10,
    ensures
        r@ == seq![spec_digit(d as nat)],
{
    if d == 0 {
        proof {
            reveal_strlit("0");
            assert("0"@ =~= seq![spec_digit(0)]);
        }
        "0"
    } else if d == 1 {
        proof {
            reveal_strlit("1");
            assert("1"@ =~= seq![spec_digit(1)]);
        }
        "1"
    } else if d == 2 {
        proof {
            reveal_strlit("2");
            assert("2"@ =~= seq![spec_digit(2)]);
        }
        "2"
    } else if d == 3 {
        proof {
            reveal_strlit("3");
            assert("3"@ =~= seq![spec_digit(3)]);
        }
        "3"
    } else if d == 4 {
        proof {
            reveal_strlit("4");
            assert("4"@ =~= seq![spec_digit(4)]);
        }
        "4"
    } else if d == 5 {
        proof {
            reveal_strlit("5");
            assert("5"@ =~= seq![spec_digit(5)]);
        }
        "5"
    } else if d == 6 {
        proof {
            reveal_strlit("6");
            assert("6"@ =~= seq![spec_digit(6)]);
        }
        "6"
    } else if d == 7 {
        proof {
            reveal_strlit("7");
            assert("7"@ =~= seq![spec_digit(7)]);
        }
        "7"
    } else if d == 8 {
        proof {
            reveal_strlit("8");
            assert("8"@ =~= seq![spec_digit(8)]);
        }
        "8"
    } else {
        proof {
            reveal_strlit("9");
            assert("9"@ =~= seq![spec_digit(9)]);
        }
        "9"
    }
}

/// The one-character string for the hexadecimal digit `d`.
fn hex_digit_str(d: u16) -> (r: &'static str)
    requires
        d < 16,
    ensures
        r@ == seq![spec_hex_digit(d as nat)],
{
    if d < 10 {
        digit_str(d)
    } else if d == 10 {
        proof {
            reveal_strlit("a");
            assert("a"@ =~= seq![spec_hex_digit(10)]);
        }
        "a"
    } else if d == 11 {
        proof {
            reveal_strlit("b");
            assert("b"@ =~= seq![spec_hex_digit(11)]);
        }
        "b"
    } else if d == 12 {
        proof {
            reveal_strlit("c");
            assert("c"@ =~= seq![spec_hex_digit(12)]);
        }
        "c"
    } else if d == 13 {
        proof {
            reveal_strlit("d");
            assert("d"@ =~= seq![spec_hex_digit(13)]);
        }
        "d"
    } else if d == 14 {
        proof {
            reveal_strlit("e");
            assert("e"@ =~= seq![spec_hex_digit(14)]);
        }
        "e"
    } else {
        proof {
            reveal_strlit("f");
            assert("f"@ =~= seq![spec_hex_digit(15)]);
        }
        "f"
    }
}

/// The decimal text of `n`, exactly as `spec_decimal` describes it.
pub fn decimal(n: u16) -> (s: String)
    ensures
        s@ == spec_decimal(n as nat),
    decreases n,
{
    if n < 10 {
        String::from_str(digit_str(n))
    } else {
        let mut s = decimal(n / 10);
        s.append(digit_str(n % 10));
        proof {
            assert(s@ =~= spec_decimal(n as nat));
        }
        s
    }
}

/// The lower-case hexadecimal text of `n`, exactly as `spec_hex`
/// describes it.
pub fn hexadecimal(n: u16) -> (s: String)
    ensures
        s@ == spec_hex(n as nat),
    decreases n,
{
    if n < 16 {
        String::from_str(hex_digit_str(n))
    } else {
        let mut s = hexadecimal(n / 16);
        s.append(hex_digit_str(n % 16));
        proof {
            assert(s@ =~= spec_hex(n as nat));
        }
        s
    }
}

impl Addr {
    /// An IPv4 address from its four octets and its port.
    pub fn v4(o0: u8, o1: u8, o2: u8, o3: u8, port: u16) -> (a: Addr)
        ensures
            a == Addr::V4(AddrV4 { o0, o1, o2, o3, port }),
    {
        Addr::V4(AddrV4 { o0, o1, o2, o3, port })
    }

    /// An IPv6 address from its eight segments and its port, with no flow
    /// information and the default scope.
    pub fn v6(s0: u16, s1: u16, s2: u16, s3: u16, s4: u16, s5: u16, s6: u16, s7: u16, port: u16) -> (a: Addr)
        ensures
            a == Addr::V6(
                AddrV6 { s0, s1, s2, s3, s4, s5, s6, s7, port, flowinfo: 0, scope_id: 0 },
            ),
    {
        Addr::V6(AddrV6 { s0, s1, s2, s3, s4, s5, s6, s7, port, flowinfo: 0, scope_id: 0 })
    }

    /// The canonical text of this address, as `spec_addr_text` gives it.
    pub fn to_text(&self) -> (s: String)
        ensures
            s@ == spec_addr_text(*self),
    {
        proof {
            reveal_strlit(".");
            reveal_strlit(":");
            reveal_strlit("[");
            reveal_strlit("]");
        }
        match self {
            Addr::V4(v) => {
                let mut s = decimal(v.o0 as u16);
                s.append(".");
                let o1 = decimal(v.o1 as u16);
                s.append(o1.as_str());
                s.append(".");
                let o2 = decimal(v.o2 as u16);
                s.append(o2.as_str());
                s.append(".");
                let o3 = decimal(v.o3 as u16);
                s.append(o3.as_str());
                s.append(":");
                let p = decimal(v.port);
                s.append(p.as_str());
                proof {
                    assert(s@ =~= spec_addr_text(*self));
                }
                s
            },
            Addr::V6(v) => {
                let mut s = String::from_str("[");
                let h0 = hexadecimal(v.s0);
                s.append(h0.as_str());
                s.append(":");
                let h1 = hexadecimal(v.s1);
                s.append(h1.as_str());
                s.append(":");
                let h2 = hexadecimal(v.s2);
                s.append(h2.as_str());
                s.append(":");
                let h3 = hexadecimal(v.s3);
                s.append(h3.as_str());
                s.append(":");
                let h4 = hexadecimal(v.s4);
                s.append(h4.as_str());
                s.append(":");
                let h5 = hexadecimal(v.s5);
                s.append(h5.as_str());
                s.append(":");
                let h6 = hexadecimal(v.s6);
                s.append(h6.as_str());
                s.append(":");
                let h7 = hexadecimal(v.s7);
                s.append(h7.as_str());
                s.append("]");
                s.append(":");
                let p = decimal(v.port);
                s.append(p.as_str());
                proof {
                    assert(s@ =~= spec_addr_text(*self));
                }
                s
            },
        }
    }
}

} // verus!
