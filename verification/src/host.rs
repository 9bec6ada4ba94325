//! The backend host configuration: a `host:port` base computed once at
//! startup and passed by reference into resolution, plus the parser that
//! validates the configured port.

use vstd::prelude::*;
use crate::digits::spec_udec;
use crate::digits::u16_dec;

verus! {

/// The base `host:port` prefix of every backend URL, constructed once at
/// startup and read-only afterwards.
pub struct HostConfig {
    base: String,
}

impl View for HostConfig {
    type V = Seq<char>;

    closed spec fn view(&self) -> Seq<char> {
        self.base@
    }
}

impl HostConfig {
    /// Build the base as `host`, a colon, and the decimal rendering of
    /// `port`.
    pub fn new(host: &str, port: u16) -> (r: HostConfig)
        ensures
            r@ == host@ + ":"@ + spec_udec(port as nat),
    {
        let mut base = host.to_owned();
        base.append(":");
        let p = u16_dec(port);
        base.append(p.as_str());
        HostConfig { base }
    }

    /// The base as an owned string.
    pub fn base(&self) -> (r: String)
        ensures
            r@ == self@,
    {
        self.base.clone()
    }

}

/// Whether `c` is an ASCII decimal digit.
pub open spec fn is_dec_digit(c: char) -> bool {
    48 <= c as int && c as int <= 57
}

/// Whether every character of `s` is an ASCII decimal digit.
pub open spec fn all_dec_digits(s: Seq<char>) -> bool {
    forall|i: int| 0 <= i < s.len() ==> is_dec_digit(#[trigger] s[i])
}

/// The numeric value of the digit character `c`.
pub open spec fn digit_val(c: char) -> nat {
    (c as int - 48) as nat
}

/// The value of the digit string `s` read in base ten.
pub open spec fn dec_val(s: Seq<char>) -> nat
    decreases s.len(),
{
    if s.len() == 0 {
        0
    } else {
        dec_val(s.drop_last()) * 10 + digit_val(s.last())
    }
}

/// The part of `s` that carries the digits: everything after one optional
/// leading plus sign.
pub open spec fn port_body(s: Seq<char>) -> Seq<char> {
    if s.len() > 0 && s[0] == '+' {
        s.skip(1)
    } else {
        s
    }
}

proof fn lemma_dec_val_grows(s: Seq<char>, c: char)
    requires
        dec_val(s) > 0xffff,
    ensures
        dec_val(s.push(c)) > 0xffff,
{
    assert(s.push(c).drop_last() =~= s);
    assert(s.push(c).last() == c);
}

/// Parse a configured port: one optional leading plus sign, then at least
/// one decimal digit, with a value that fits in sixteen bits. Anything else
/// is rejected.
pub fn parse_port(s: &str) -> (r: Option<u16>)
    ensures
        (r is Some <==> (port_body(s@).len() > 0 && all_dec_digits(port_body(s@)) && dec_val(
            port_body(s@),
        ) <= 0xffff)),
        (r matches Some(p) ==> p as nat == dec_val(port_body(s@))),
{
    let len = s.unicode_len();
    let start: usize = if len > 0 && s.get_char(0) == '+' {
        1
    } else {
        0
    };
    proof {
        reveal_strlit("+");
        assert("+"@[0] == '+');
        if start == 1 {
            assert(port_body(s@) =~= s@.skip(1));
        } else {
            assert(port_body(s@) =~= s@);
        }
    }
    if start == len {
        return None;
    }
    let mut i: usize = start;
    let mut val: u32 = 0;
    let mut over: bool = false;
    while i < len
        invariant
            start <= i <= len,
            len == s@.len(),
            start <= 1,
            port_body(s@) == s@.skip(start as int),
            all_dec_digits(s@.subrange(start as int, i as int)),
            !over ==> val as nat == dec_val(s@.subrange(start as int, i as int)) && val <= 0xffff,
            over ==> dec_val(s@.subrange(start as int, i as int)) > 0xffff,
        decreases len - i,
    {
        let c = s.get_char(i);
        let cu = c as u32;
        if cu < 48 || cu > 57 {
            proof {
                assert(port_body(s@)[i - start] == s@[i as int]);
                assert(!is_dec_digit(port_body(s@)[i - start]));
            }
            return None;
        }
        let d = cu - 48;
        proof {
            assert(s@.subrange(start as int, i + 1).drop_last() =~= s@.subrange(
                start as int,
                i as int,
            ));
            assert(s@.subrange(start as int, i + 1).last() == s@[i as int]);
            if over {
                lemma_dec_val_grows(s@.subrange(start as int, i as int), s@[i as int]);
                assert(s@.subrange(start as int, i as int).push(s@[i as int]) =~= s@.subrange(
                    start as int,
                    i + 1,
                ));
            }
        }
        if !over {
            val = val * 10 + d;
            if val > 0xffff {
                over = true;
            }
        }
        i = i + 1;
    }
    proof {
        assert(s@.subrange(start as int, len as int) =~= s@.skip(start as int));
    }
    if over {
        None
    } else {
        Some(val as u16)
    }
}

} // verus!
