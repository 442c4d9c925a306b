//! IPv4 addresses of the tunnel network.

use vstd::prelude::*;
use crate::text::{
    chars_of, decimal_string, decimal_text, find_from, is_digit, lemma_canonical_digits,
    lemma_decimal_text, parse_decimal,
};

verus! {

/// An IPv4 address, most significant octet first.
#[derive(Debug, Clone, Copy, PartialEq, Eq, Structural)]
pub struct Ipv4 {
    pub a: u8,
    pub b: u8,
    pub c: u8,
    pub d: u8,
}

/// The dotted-quad text of `ip`: its four octets in decimal, joined by dots.
pub open spec fn ipv4_text(ip: Ipv4) -> Seq<char> {
    decimal_text(ip.a as nat) + seq!['.'] + decimal_text(ip.b as nat) + seq!['.'] + decimal_text(
        ip.c as nat,
    ) + seq!['.'] + decimal_text(ip.d as nat)
}

impl Ipv4 {
    /// The address `a.b.c.d`.
    pub fn new(a: u8, b: u8, c: u8, d: u8) -> (ip: Ipv4)
        ensures
            ip == (Ipv4 { a, b, c, d }),
    {
        Ipv4 { a, b, c, d }
    }

    /// The four octets, most significant first.
    pub fn octets(&self) -> (o: [u8; 4])
        ensures
            o@ == seq![self.a, self.b, self.c, self.d],
    {
        [self.a, self.b, self.c, self.d]
    }

    /// The address in dotted-quad notation.
    pub fn to_string(&self) -> (s: String)
        ensures
            s@ == ipv4_text(*self),
    {
        proof {
            reveal_strlit(".");
        }
        assert("."@ =~= seq!['.']);
        let mut s = decimal_string(self.a as u32);
        s.append(".");
        s.append(decimal_string(self.b as u32).as_str());
        s.append(".");
        s.append(decimal_string(self.c as u32).as_str());
        s.append(".");
        s.append(decimal_string(self.d as u32).as_str());
        s
    }
}

/// Whether the dots of `s` are the three at `at1`, `at2` and `at3`, in this
/// order, and no others.
pub open spec fn dots_at(s: Seq<char>, at1: int, at2: int, at3: int) -> bool {
    &&& 0 <= at1 < at2 < at3 < s.len()
    &&& s[at1] == '.'
    &&& s[at2] == '.'
    &&& s[at3] == '.'
    &&& forall|k: int| 0 <= k < s.len() && s[k] == '.' ==> k == at1 || k == at2 || k == at3
}

/// Where the four octets of `ip` stand in its text: between and around
/// three dots, which are the only ones.
pub proof fn lemma_ipv4_text_parts(ip: Ipv4)
    ensures
        ({
            let t = ipv4_text(ip);
            let a = decimal_text(ip.a as nat);
            let b = decimal_text(ip.b as nat);
            let c = decimal_text(ip.c as nat);
            let d = decimal_text(ip.d as nat);
            let at1 = a.len() as int;
            let at2 = at1 + 1 + b.len();
            let at3 = at2 + 1 + c.len();
            &&& t.len() == at3 + 1 + d.len()
            &&& dots_at(t, at1, at2, at3)
            &&& t.subrange(0, at1) == a
            &&& t.subrange(at1 + 1, at2) == b
            &&& t.subrange(at2 + 1, at3) == c
            &&& t.subrange(at3 + 1, t.len() as int) == d
        }),
{
    let t = ipv4_text(ip);
    let a = decimal_text(ip.a as nat);
    let b = decimal_text(ip.b as nat);
    let c = decimal_text(ip.c as nat);
    let d = decimal_text(ip.d as nat);
    let at1 = a.len() as int;
    let at2 = at1 + 1 + b.len();
    let at3 = at2 + 1 + c.len();
    lemma_decimal_text(ip.a as nat);
    lemma_decimal_text(ip.b as nat);
    lemma_decimal_text(ip.c as nat);
    lemma_decimal_text(ip.d as nat);
    assert(t.subrange(0, at1) =~= a);
    assert(t.subrange(at1 + 1, at2) =~= b);
    assert(t.subrange(at2 + 1, at3) =~= c);
    assert(t.subrange(at3 + 1, t.len() as int) =~= d);
    assert forall|k: int| 0 <= k < t.len() && t[k] == '.' implies k == at1 || k == at2 || k
        == at3 by {
        if k < at1 {
            assert(is_digit(a[k]));
        } else if at1 < k < at2 {
            assert(is_digit(b[k - at1 - 1]));
        } else if at2 < k < at3 {
            assert(is_digit(c[k - at2 - 1]));
        } else if at3 < k {
            assert(is_digit(d[k - at3 - 1]));
        }
    }
}

/// A text has its dots in one place only.
pub proof fn lemma_dots_at_unique(
    s: Seq<char>,
    at1: int,
    at2: int,
    at3: int,
    to1: int,
    to2: int,
    to3: int,
)
    requires
        dots_at(s, at1, at2, at3),
        dots_at(s, to1, to2, to3),
    ensures
        at1 == to1,
        at2 == to2,
        at3 == to3,
{
}

/// The text of an address is digits and dots, and so holds no line feed.
pub proof fn lemma_ipv4_text_one_line(ip: Ipv4)
    ensures
        forall|k: int| 0 <= k < ipv4_text(ip).len() ==> ipv4_text(ip)[k] != '\n',
{
    let t = ipv4_text(ip);
    let a = decimal_text(ip.a as nat);
    let b = decimal_text(ip.b as nat);
    let c = decimal_text(ip.c as nat);
    let d = decimal_text(ip.d as nat);
    lemma_decimal_text(ip.a as nat);
    lemma_decimal_text(ip.b as nat);
    lemma_decimal_text(ip.c as nat);
    lemma_decimal_text(ip.d as nat);
    let at1 = a.len() as int;
    let at2 = at1 + 1 + b.len();
    let at3 = at2 + 1 + c.len();
    assert forall|k: int| 0 <= k < t.len() implies t[k] != '\n' by {
        if k < at1 {
            assert(is_digit(a[k]));
        } else if k == at1 {
        } else if k < at2 {
            assert(is_digit(b[k - at1 - 1]));
        } else if k == at2 {
        } else if k < at3 {
            assert(is_digit(c[k - at2 - 1]));
        } else if k == at3 {
        } else {
            assert(is_digit(d[k - at3 - 1]));
        }
    }
}

/// Two addresses with the same text are the same address.
pub proof fn lemma_ipv4_text_injective(x: Ipv4, y: Ipv4)
    requires
        ipv4_text(x) == ipv4_text(y),
    ensures
        x == y,
{
    lemma_ipv4_text_parts(x);
    lemma_ipv4_text_parts(y);
    let at1 = decimal_text(x.a as nat).len() as int;
    let at2 = at1 + 1 + decimal_text(x.b as nat).len();
    let at3 = at2 + 1 + decimal_text(x.c as nat).len();
    let to1 = decimal_text(y.a as nat).len() as int;
    let to2 = to1 + 1 + decimal_text(y.b as nat).len();
    let to3 = to2 + 1 + decimal_text(y.c as nat).len();
    lemma_dots_at_unique(ipv4_text(x), at1, at2, at3, to1, to2, to3);
    lemma_decimal_text(x.a as nat);
    lemma_decimal_text(x.b as nat);
    lemma_decimal_text(x.c as nat);
    lemma_decimal_text(x.d as nat);
    lemma_decimal_text(y.a as nat);
    lemma_decimal_text(y.b as nat);
    lemma_decimal_text(y.c as nat);
    lemma_decimal_text(y.d as nat);
}

/// The address that `text` is the dotted-quad notation of.
pub open spec fn ipv4_of(text: Seq<char>) -> Option<Ipv4> {
    if exists|ip: Ipv4| text == #[trigger] ipv4_text(ip) {
        Some(choose|ip: Ipv4| text == #[trigger] ipv4_text(ip))
    } else {
        None
    }
}

/// An address is read back from its text.
pub proof fn lemma_ipv4_of_text(ip: Ipv4)
    ensures
        ipv4_of(ipv4_text(ip)) == Some(ip),
{
    let found = choose|other: Ipv4| ipv4_text(ip) == #[trigger] ipv4_text(other);
    lemma_ipv4_text_injective(ip, found);
}

/// Reads one octet: the number whose decimal text `t` is.
///
/// Returns `None` for whatever is not the decimal text of a number up to
/// 255: no digits, other characters, a needless zero in front, a larger
/// number.
pub fn parse_octet(t: &[char]) -> (r: Option<u8>)
    ensures
        match r {
            Some(o) => t@ == decimal_text(o as nat),
            None => forall|o: u8| t@ != #[trigger] decimal_text(o as nat),
        },
{
    if t.len() > 1 && t[0] == '0' {
        assert forall|o: u8| t@ != #[trigger] decimal_text(o as nat) by {
            lemma_decimal_text(o as nat);
        }
        return None;
    }
    match parse_decimal(t) {
        Some(n) => {
            if n <= 255 {
                proof {
                    lemma_canonical_digits(t@);
                }
                Some(n as u8)
            } else {
                assert forall|o: u8| t@ != #[trigger] decimal_text(o as nat) by {
                    lemma_decimal_text(o as nat);
                }
                None
            }
        },
        None => {
            assert forall|o: u8| t@ != #[trigger] decimal_text(o as nat) by {
                lemma_decimal_text(o as nat);
            }
            None
        },
    }
}

/// Finds the dots of a text that holds exactly three.
fn dot_positions(v: &[char]) -> (r: Option<(usize, usize, usize)>)
    ensures
        match r {
            Some((at1, at2, at3)) => dots_at(v@, at1 as int, at2 as int, at3 as int),
            None => forall|to1: int, to2: int, to3: int| !dots_at(v@, to1, to2, to3),
        },
{
    let n = v.len();
    let at1 = find_from(v, 0, '.');
    if at1 >= n {
        return None;
    }
    let at2 = find_from(v, at1 + 1, '.');
    if at2 >= n {
        return None;
    }
    let at3 = find_from(v, at2 + 1, '.');
    if at3 >= n {
        return None;
    }
    let at4 = find_from(v, at3 + 1, '.');
    if at4 < n {
        return None;
    }
    Some((at1, at2, at3))
}

/// Reads an address in dotted-quad notation.
///
/// Returns the address whose text `s` is, and `None` where `s` is the text
/// of no address: the notation is exact, with four decimal octets, three
/// dots, and nothing before, between or behind them.
pub fn parse_ipv4(s: &str) -> (r: Option<Ipv4>)
    ensures
        r == ipv4_of(s@),
        match r {
            Some(ip) => s@ == ipv4_text(ip),
            None => forall|ip: Ipv4| s@ != #[trigger] ipv4_text(ip),
        },
{
    let chars = chars_of(s);
    let v = chars.as_slice();
    let n = v.len();
    let (at1, at2, at3) = match dot_positions(v) {
        Some(found) => found,
        None => {
            assert forall|ip: Ipv4| s@ != #[trigger] ipv4_text(ip) by {
                lemma_ipv4_text_parts(ip);
            }
            return None;
        },
    };
    proof {
        assert forall|ip: Ipv4| s@ == #[trigger] ipv4_text(ip) implies {
            &&& v@.subrange(0, at1 as int) == decimal_text(ip.a as nat)
            &&& v@.subrange(at1 + 1, at2 as int) == decimal_text(ip.b as nat)
            &&& v@.subrange(at2 + 1, at3 as int) == decimal_text(ip.c as nat)
            &&& v@.subrange(at3 + 1, n as int) == decimal_text(ip.d as nat)
        } by {
            lemma_ipv4_text_parts(ip);
            let to1 = decimal_text(ip.a as nat).len() as int;
            let to2 = to1 + 1 + decimal_text(ip.b as nat).len();
            let to3 = to2 + 1 + decimal_text(ip.c as nat).len();
            lemma_dots_at_unique(v@, at1 as int, at2 as int, at3 as int, to1, to2, to3);
        }
    }
    let a = match parse_octet(&v[0..at1]) {
        Some(o) => o,
        None => { return None; },
    };
    let b = match parse_octet(&v[at1 + 1..at2]) {
        Some(o) => o,
        None => { return None; },
    };
    let c = match parse_octet(&v[at2 + 1..at3]) {
        Some(o) => o,
        None => { return None; },
    };
    let d = match parse_octet(&v[at3 + 1..n]) {
        Some(o) => o,
        None => { return None; },
    };
    let ip = Ipv4 { a, b, c, d };
    assert(s@ =~= ipv4_text(ip));
    proof {
        lemma_ipv4_of_text(ip);
    }
    Some(ip)
}

} // verus!
