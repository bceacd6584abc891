//! Bluetooth device addresses.
use crate::text::{
    a_hex_digit_reads_back, hex_below, hex_digit, hex_number, push_hex_digit, split_at_mark,
};
use std::str::FromStr;
use vstd::prelude::*;
use vstd::string::*;

verus! {

/// A BD_ADDR, most significant octet first, as it is written.
#[derive(Debug, Clone, Copy, Eq)]
pub struct Address(pub [u8; 6]);

impl PartialEq for Address {
    fn eq(&self, other: &Self) -> (r: bool) {
        let same = self.0[0] == other.0[0] && self.0[1] == other.0[1] && self.0[2] == other.0[2]
            && self.0[3] == other.0[3] && self.0[4] == other.0[4] && self.0[5] == other.0[5];
        proof {
            if same {
                assert(self.0 =~= other.0);
            }
        }
        same
    }
}

impl vstd::std_specs::cmp::PartialEqSpecImpl for Address {
    open spec fn obeys_eq_spec() -> bool {
        true
    }

    open spec fn eq_spec(&self, other: &Self) -> bool {
        *self == *other
    }
}

/// The two upper-case hexadecimal digits of a byte.
pub open spec fn hex_byte(b: u8) -> Seq<char> {
    seq![hex_digit(b as int / 16), hex_digit(b as int % 16)]
}

/// The first `n` octets in hexadecimal, separated by colons.
pub open spec fn octets_text(octets: Seq<u8>) -> Seq<char>
    decreases octets.len(),
{
    if octets.len() == 0 {
        Seq::empty()
    } else if octets.len() == 1 {
        hex_byte(octets[0])
    } else {
        octets_text(octets.drop_last()).push(':') + hex_byte(octets.last())
    }
}

/// The octets an address text names: six parts between colons, each of them a
/// hexadecimal number below 256.
pub open spec fn address_from_text(text: Seq<char>) -> Option<Seq<u8>> {
    let parts = split_at_mark(text, ':');
    if parts.len() == 6 && (forall|i: int|
        0 <= i < 6 ==> hex_below(#[trigger] parts[i], 256) is Some) {
        Some(Seq::new(6, |i: int| hex_below(parts[i], 256)->0 as u8))
    } else {
        None
    }
}

/// `bluer::Address::from_str`, on and back to plain octets. The text is split
/// at its colons and each part read by `u8::from_str_radix` in base sixteen,
/// which allows one plus sign in front of the digits; six octets make an
/// address and anything else does not.
#[verifier::external_body]
fn octets_from_text(text: &str) -> (r: Option<[u8; 6]>)
    ensures
        match r {
            Some(octets) => address_from_text(text@) == Some(octets@),
            None => address_from_text(text@) is None,
        },
{
    bluer::Address::from_str(text).ok().map(|a| a.0)
}

proof fn lemma_hex_byte(b: u8)
    ensures
        hex_below(hex_byte(b), 256) == Some(b as int),
        hex_byte(b).len() == 2,
        hex_byte(b)[0] != ':',
        hex_byte(b)[1] != ':',
{
    let text = hex_byte(b);
    a_hex_digit_reads_back(b as int / 16);
    a_hex_digit_reads_back(b as int % 16);
    reveal_with_fuel(hex_number, 3);
    assert(text.drop_last() =~= seq![text[0]]);
    assert(text.drop_last().drop_last() =~= Seq::empty());
}

proof fn lemma_octets_split(octets: Seq<u8>)
    requires
        octets.len() > 0,
    ensures
        split_at_mark(octets_text(octets), ':') == Seq::new(
            octets.len(),
            |i: int| hex_byte(octets[i]),
        ),
    decreases octets.len(),
{
    let text = octets_text(octets);
    let last = hex_byte(octets.last());
    let front = text.take(text.len() - 2);
    lemma_hex_byte(octets.last());
    if octets.len() == 1 {
        assert(front =~= Seq::empty());
    } else {
        let head = octets_text(octets.drop_last());
        lemma_octets_split(octets.drop_last());
        assert(front =~= head.push(':'));
        assert(front.drop_last() =~= head);
    }
    let parts = split_at_mark(front, ':');
    assert(parts.last() == Seq::<char>::empty());
    let one = text.drop_last();
    assert(one.drop_last() =~= front);
    assert(one.last() == last[0]);
    assert(text.last() == last[1]);
    assert(split_at_mark(one, ':') == parts.drop_last().push(seq![last[0]])) by {
        assert(Seq::<char>::empty().push(last[0]) =~= seq![last[0]]);
    }
    assert(seq![last[0]].push(last[1]) =~= last);
    assert(parts.drop_last().push(seq![last[0]]).drop_last() =~= parts.drop_last());
    assert(split_at_mark(text, ':') == parts.drop_last().push(last));
    assert(parts.drop_last() =~= Seq::new(
        (octets.len() - 1) as nat,
        |i: int| hex_byte(octets.drop_last()[i]),
    ));
    assert(split_at_mark(text, ':') =~= Seq::new(octets.len(), |i: int| hex_byte(octets[i])));
}

/// An address in its written form reads back as itself.
pub proof fn the_written_form_reads_back(a: Address)
    ensures
        address_from_text(a.text()) == Some(a.0@),
{
    lemma_octets_split(a.0@);
    let parts = split_at_mark(a.text(), ':');
    assert forall|i: int| 0 <= i < 6 implies hex_below(#[trigger] parts[i], 256) == Some(
        a.0@[i] as int,
    ) by {
        lemma_hex_byte(a.0@[i]);
    }
    assert(Seq::new(6, |i: int| hex_below(parts[i], 256)->0 as u8) =~= a.0@);
}

impl Address {
    /// The written form: six upper-case hexadecimal octets and colons.
    pub open spec fn text(self) -> Seq<char> {
        octets_text(self.0@)
    }

    /// The address `AA:BB:CC:DD:EE:FF` is written as, if `text` is one.
    pub fn parse(text: &str) -> (r: Option<Address>)
        ensures
            match r {
                Some(a) => address_from_text(text@) == Some(a.0@),
                None => address_from_text(text@) is None,
            },
            forall|a: Address| text@ == #[trigger] a.text() ==> r == Some(a),
    {
        let r = match octets_from_text(text) {
            Some(octets) => Some(Address(octets)),
            None => None,
        };
        proof {
            assert forall|a: Address| text@ == #[trigger] a.text() implies r == Some(a) by {
                the_written_form_reads_back(a);
                let read = r->Some_0;
                assert(read.0 =~= a.0);
            }
        }
        r
    }

    /// The written form.
    pub fn to_string(&self) -> (r: String)
        ensures
            r@ == self.text(),
    {
        let mut out: String = String::new();
        let mut i: usize = 0;
        while i < 6
            invariant
                i <= 6,
                self.0@.len() == 6,
                out@ == octets_text(self.0@.take(i as int)),
            decreases 6 - i,
        {
            let b: u8 = self.0[i];
            let ghost before = out@;
            if i > 0 {
                out.push(':');
            }
            push_hex_digit(&mut out, b / 16, true);
            push_hex_digit(&mut out, b % 16, true);
            proof {
                let next = self.0@.take(i as int + 1);
                assert(next.drop_last() =~= self.0@.take(i as int));
                assert(next.last() == b);
                if i == 0 {
                    assert(out@ =~= hex_byte(b));
                } else {
                    assert(out@ =~= before.push(':') + hex_byte(b));
                }
            }
            i = i + 1;
        }
        proof {
            assert(self.0@.take(6) =~= self.0@);
        }
        out
    }
}

} // verus!
