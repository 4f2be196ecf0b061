//! BGP community values, as carried in extended gateway records.

use vstd::prelude::*;

use crate::error::Error;
use crate::types::ByteCursor;
use crate::utils::ascii_chars;
use crate::utils::lemma_ascii_decode;
use crate::utils::Decodeable;
use crate::utils::ReadBytesLocal;
use crate::wire::step_bind;
use crate::wire::Step;

verus! {

/// A BGP community. While normally a community is a 32-bit value with the
/// first half being the ASN and the second half a tag, the ASN is stored
/// widened to 32 bits in order to support extended ASNs.
#[derive(Debug, Clone, Copy, PartialEq, Eq, Structural, Default)]
pub struct Community {
    pub asn: u32,
    pub tag: u16,
}

impl DeepView for Community {
    type V = Community;

    open spec fn deep_view(&self) -> Community {
        *self
    }
}

/// The decimal digits of `n`, most significant first, as ASCII bytes.
pub open spec fn dec_digits(n: nat) -> Seq<u8>
    decreases n,
{
    if n < 10 {
        seq![(0x30 + n) as u8]
    } else {
        dec_digits(n / 10).push((0x30 + n % 10) as u8)
    }
}

/// Every byte of a decimal rendering is an ASCII digit.
proof fn lemma_dec_digits_ascii(n: nat)
    ensures
        forall|i: int| 0 <= i < dec_digits(n).len() ==> 0x30 <= #[trigger] dec_digits(n)[i]
            <= 0x39,
    decreases n,
{
    if n >= 10 {
        lemma_dec_digits_ascii(n / 10);
        assert forall|i: int|
            0 <= i < dec_digits(n).len() implies 0x30 <= #[trigger] dec_digits(n)[i]
            <= 0x39 by {
            let prefix = dec_digits(n / 10);
            if i < prefix.len() {
                assert(dec_digits(n)[i] == prefix[i]);
            }
        }
    }
}

/// The text form of a community: the ASN in decimal, a colon, the tag in
/// decimal.
pub open spec fn community_text(c: Community) -> Seq<char> {
    ascii_chars(dec_digits(c.asn as nat) + seq![0x3au8] + dec_digits(c.tag as nat))
}

/// Append the decimal digits of `n`, most significant first.
fn push_decimal(buf: &mut Vec<u8>, n: u32)
    ensures
        final(buf)@ == old(buf)@ + dec_digits(n as nat),
{
    let mut rev: Vec<u8> = Vec::new();
    let mut m: u32 = n;
    loop
        invariant_except_break
            dec_digits(n as nat) == dec_digits(m as nat) + rev@.reverse(),
        ensures
            dec_digits(n as nat) == rev@.reverse(),
        decreases m,
    {
        let ghost rev_old = rev@;
        let ghost m_old = m as nat;
        rev.push(0x30 + (m % 10) as u8);
        m = m / 10;
        proof {
            assert(rev@.reverse() =~= seq![(0x30 + m_old % 10) as u8] + rev_old.reverse());
            if m_old >= 10 {
                assert(dec_digits(m_old) == dec_digits(m_old / 10).push(
                    (0x30 + m_old % 10) as u8,
                ));
                assert(dec_digits(m_old) + rev_old.reverse() =~= dec_digits(m as nat)
                    + rev@.reverse());
            } else {
                assert(dec_digits(m_old) + rev_old.reverse() =~= rev@.reverse());
            }
        }
        if m == 0 {
            break ;
        }
    }
    let ghost buf_old = buf@;
    let count = rev.len();
    let mut i: usize = 0;
    while i < count
        invariant
            count == rev@.len(),
            0 <= i <= count,
            buf@ == buf_old + rev@.reverse().subrange(0, i as int),
        decreases count - i,
    {
        buf.push(rev[count - 1 - i]);
        proof {
            assert(rev@.reverse().subrange(0, i + 1) =~= rev@.reverse().subrange(0, i as int)
                + seq![rev@[count - 1 - i]]);
        }
        i = i + 1;
    }
    proof {
        assert(rev@.reverse().subrange(0, rev@.len() as int) =~= rev@.reverse());
    }
}

impl Community {
    /// The canonical text of this community, `"<asn>:<tag>"` with both
    /// halves in decimal.
    pub fn display_string(&self) -> (s: String)
        ensures
            s@ == community_text(*self),
    {
        let mut buf: Vec<u8> = Vec::new();
        push_decimal(&mut buf, self.asn);
        buf.push(0x3a);
        push_decimal(&mut buf, self.tag as u32);
        proof {
            lemma_dec_digits_ascii(self.asn as nat);
            lemma_dec_digits_ascii(self.tag as nat);
            assert(buf@ =~= dec_digits(self.asn as nat) + seq![0x3au8] + dec_digits(
                self.tag as nat,
            ));
            lemma_ascii_decode(buf@);
        }
        match crate::utils::utf8_to_string(buf) {
            Some(s) => s,
            None => {
                proof {
                    assert(false);
                }
                String::new()
            },
        }
    }
}

impl Decodeable for Community {
    open spec fn sdecode(b: Seq<u8>, p: int) -> Step<Community> {
        step_bind(
            u16::sdecode(b, p),
            |asn: u16, p1: int|
                step_bind(
                    u16::sdecode(b, p1),
                    |tag: u16, p2: int|
                        (Step::Done { v: Community { asn: asn as u32, tag }, next: p2 }),
                ),
        )
    }

    open spec fn spec_wire_unit() -> int {
        4
    }

    fn wire_unit() -> (u: usize) {
        4
    }

    fn read_and_decode(stream: &mut ByteCursor) -> (r: Result<Community, Error>) {
        let asn = match stream.be_read_u16() {
            Ok(v) => v,
            Err(e) => return Err(e),
        };
        let tag = match stream.be_read_u16() {
            Ok(v) => v,
            Err(e) => return Err(e),
        };
        Ok(Community { asn: asn as u32, tag })
    }
}

} // verus!
