//! Apple product-id to human model name. Ids are the DID/advert product id in
//! upper-case hexadecimal, at least four digits.
use crate::text::{
    a_hex_digit_reads_back, ascii_upper, chars_of, hex_digit, hex_number, push_hex_digit, same_text,
    string_of, trim, trimmed, upper_char,
};
use vstd::prelude::*;
use vstd::string::*;

verus! {

/// Apple's Bluetooth SIG vendor id, as it appears in a DID modalias.
pub const APPLE_VENDOR_ID: u32 = 0x004C;

/// A number in upper-case hexadecimal, padded with zeros to `width` digits.
pub open spec fn hex_padded(n: nat, width: nat) -> Seq<char>
    decreases n, width,
{
    if n == 0 && width == 0 {
        Seq::empty()
    } else if n == 0 {
        hex_padded(0, (width - 1) as nat).push('0')
    } else {
        hex_padded(n / 16, if width > 0 { (width - 1) as nat } else { 0 }).push(
            hex_digit((n % 16) as int),
        )
    }
}

/// A number written in hexadecimal, with leading zeros or without, reads back
/// as itself.
pub proof fn a_padded_number_reads_back(n: nat, width: nat)
    ensures
        hex_number(hex_padded(n, width)) == Some(n as int),
        hex_padded(n, width).len() >= width,
    decreases n, width,
{
    if n == 0 && width == 0 {
    } else if n == 0 {
        a_padded_number_reads_back(0, (width - 1) as nat);
        assert(hex_padded(0, width).drop_last() =~= hex_padded(0, (width - 1) as nat));
        assert(hex_padded(0, width).last() == '0');
    } else {
        let rest = if width > 0 {
            (width - 1) as nat
        } else {
            0
        };
        a_padded_number_reads_back(n / 16, rest);
        a_hex_digit_reads_back((n % 16) as int);
        assert(hex_padded(n, width).drop_last() =~= hex_padded(n / 16, rest));
        assert(hex_padded(n, width).last() == hex_digit((n % 16) as int));
    }
}

fn push_hex_padded(out: &mut String, n: u32, width: u8)
    ensures
        final(out)@ == old(out)@ + hex_padded(n as nat, width as nat),
    decreases n, width,
{
    if n == 0 && width == 0 {
        proof {
            assert(old(out)@ =~= old(out)@ + hex_padded(0, 0));
        }
        return ;
    }
    let rest: u8 = if width > 0 {
        width - 1
    } else {
        0
    };
    push_hex_padded(out, n / 16, rest);
    push_hex_digit(out, (n % 16) as u8, true);
    proof {
        let head = hex_padded((n / 16) as nat, rest as nat);
        let digit = hex_digit((n % 16) as int);
        assert(hex_padded(n as nat, width as nat) == head.push(digit));
        assert((old(out)@ + head).push(digit) =~= old(out)@ + head.push(digit));
    }
}

/// Format a DID product id: upper-case hexadecimal, at least four digits.
pub fn model_id(product: u32) -> (r: String)
    ensures
        r@ == hex_padded(product as nat, 4),
{
    let mut out: String = String::new();
    push_hex_padded(&mut out, product, 4);
    proof {
        assert(Seq::<char>::empty() + hex_padded(product as nat, 4) =~= hex_padded(
            product as nat,
            4,
        ));
    }
    out
}

/// The model sold under a product id, given in upper case.
pub open spec fn known_model(id: Seq<char>) -> Option<Seq<char>> {
    if id == "2002"@ {
        Some("AirPods"@)
    } else if id == "200F"@ {
        Some("AirPods 2"@)
    } else if id == "2013"@ {
        Some("AirPods 3"@)
    } else if id == "2019"@ {
        Some("AirPods 4"@)
    } else if id == "201B"@ {
        Some("AirPods 4 (ANC)"@)
    } else if id == "200E"@ {
        Some("AirPods Pro"@)
    } else if id == "2014"@ {
        Some("AirPods Pro 2"@)
    } else if id == "2024"@ {
        Some("AirPods Pro 2 (USB-C)"@)
    } else if id == "200A"@ {
        Some("AirPods Max"@)
    } else if id == "201F"@ {
        Some("AirPods Max (USB-C)"@)
    } else {
        None
    }
}

/// The id as it is looked up: trimmed, ASCII letters in upper case.
pub open spec fn lookup_key(id: Seq<char>) -> Seq<char> {
    trimmed(id).map_values(|c: char| upper_char(c))
}

fn upper_text(chars: &Vec<char>) -> (r: String)
    ensures
        r@ == chars@.map_values(|c: char| upper_char(c)),
{
    let mut out: Vec<char> = Vec::new();
    let mut i: usize = 0;
    while i < chars.len()
        invariant
            i <= chars.len(),
            out@.len() == i,
            forall|k: int| 0 <= k < i ==> out@[k] == upper_char(chars@[k]),
        decreases chars.len() - i,
    {
        out.push(ascii_upper(chars[i]));
        i = i + 1;
    }
    proof {
        assert(out@ =~= chars@.map_values(|c: char| upper_char(c)));
    }
    string_of(out.as_slice())
}

/// Look up a human model name. `None` for anything not in the table.
pub fn model_name(id: &str) -> (r: Option<&'static str>)
    ensures
        match r {
            Some(name) => known_model(lookup_key(id@)) == Some(name@),
            None => known_model(lookup_key(id@)) is None,
        },
{
    let key: String = upper_text(&trim(&chars_of(id)));
    let k: &str = key.as_str();
    if same_text(k, "2002") {
        Some("AirPods")
    } else if same_text(k, "200F") {
        Some("AirPods 2")
    } else if same_text(k, "2013") {
        Some("AirPods 3")
    } else if same_text(k, "2019") {
        Some("AirPods 4")
    } else if same_text(k, "201B") {
        Some("AirPods 4 (ANC)")
    } else if same_text(k, "200E") {
        Some("AirPods Pro")
    } else if same_text(k, "2014") {
        Some("AirPods Pro 2")
    } else if same_text(k, "2024") {
        Some("AirPods Pro 2 (USB-C)")
    } else if same_text(k, "200A") {
        Some("AirPods Max")
    } else if same_text(k, "201F") {
        Some("AirPods Max (USB-C)")
    } else {
        None
    }
}

} // verus!
