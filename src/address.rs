use vstd::prelude::*;
use crate::hex::{hex_value, parse_hex_digit, upper_digit, upper_hex_digit};
use crate::text::string_from_chars;
use vstd::string::StrSliceExecFns;

verus! {

/// A Bluetooth device address: six bytes, in display (network) order unless
/// it was converted with [`BtAddr::convert_host_byteorder`].
#[derive(Debug, Copy, Clone)]
pub struct BtAddr(pub [u8; 6]);

impl PartialEq for BtAddr {
    fn eq(&self, o: &BtAddr) -> (r: bool) {
        let mut i: usize = 0;
        while i < 6
            invariant
                0 <= i <= 6,
                forall|j: int| 0 <= j < i ==> self.0[j] == o.0[j],
            decreases 6 - i,
        {
            if self.0[i] != o.0[i] {
                return false;
            }
            i = i + 1;
        }
        assert(self.0@ =~= o.0@);
        true
    }
}

impl vstd::std_specs::cmp::PartialEqSpecImpl for BtAddr {
    open spec fn obeys_eq_spec() -> bool {
        true
    }

    open spec fn eq_spec(&self, o: &BtAddr) -> bool {
        self.0@ == o.0@
    }
}

impl Eq for BtAddr {
}

/// Why a textual address was not accepted.
#[derive(Debug, Copy, Clone, PartialEq, Eq, Structural)]
pub enum AddrParseError {
    /// The text ends before the sixth byte's two digits.
    TooShort,
    /// A byte's two characters are not a base-16 number.
    InvalidDigit,
}

/// The byte written by the two characters `hi`, `lo`, read in base 16. As for
/// an unsigned integer, a leading `+` sign may take the place of the first digit.
pub open spec fn pair_value(hi: char, lo: char) -> Option<u8> {
    if hi == '+' {
        hex_value(lo)
    } else {
        match (hex_value(hi), hex_value(lo)) {
            (Some(h), Some(l)) => Some((h * 16 + l) as u8),
            _ => None,
        }
    }
}

/// Field `i` of an address text `XX:XX:XX:XX:XX:XX`: the two characters at `3 * i`.
pub open spec fn addr_field(b: Seq<char>, i: int) -> Option<u8> {
    pair_value(b[3 * i], b[3 * i + 1])
}

pub open spec fn addr_text_long_enough(b: Seq<char>) -> bool {
    b.len() >= 17
}

pub open spec fn addr_text_valid(b: Seq<char>) -> bool {
    addr_text_long_enough(b) && forall|i: int| 0 <= i < 6 ==> (#[trigger] addr_field(b, i)) is Some
}

/// The address that a valid text denotes.
pub open spec fn addr_of_text(b: Seq<char>) -> Seq<u8> {
    Seq::new(6, |i: int| addr_field(b, i)->Some_0)
}

/// The six bytes in the opposite order.
pub open spec fn reversed(a: Seq<u8>) -> Seq<u8> {
    Seq::new(6, |i: int| a[5 - i])
}

/// The text `XX:XX:XX:XX:XX:XX` in upper-case hexadecimal.
pub open spec fn display_text(a: Seq<u8>) -> Seq<char> {
    Seq::new(17, |k: int|
        if k % 3 == 2 {
            ':'
        } else if k % 3 == 0 {
            upper_digit((a[k / 3] / 16) as u8)
        } else {
            upper_digit((a[k / 3] % 16) as u8)
        })
}

fn parse_pair(hi: char, lo: char) -> (r: Option<u8>)
    ensures
        r == pair_value(hi, lo),
{
    if hi == '+' {
        parse_hex_digit(lo)
    } else {
        match (parse_hex_digit(hi), parse_hex_digit(lo)) {
            (Some(h), Some(l)) => Some(h * 16 + l),
            _ => None,
        }
    }
}

impl BtAddr {
    /// Reads an address written `XX:XX:XX:XX:XX:XX` in base 16. Only the two
    /// characters of each field are read; the separators are not looked at,
    /// and text after the sixth field is ignored.
    pub fn from_str(addr_str: &str) -> (r: Result<BtAddr, AddrParseError>)
        ensures
            !addr_text_long_enough(addr_str@) ==> r == Err::<BtAddr, AddrParseError>(
                AddrParseError::TooShort,
            ),
            addr_text_long_enough(addr_str@) && !addr_text_valid(addr_str@)
                ==> r == Err::<BtAddr, AddrParseError>(AddrParseError::InvalidDigit),
            addr_text_valid(addr_str@) ==> (r matches Ok(a) && a.0@ == addr_of_text(
                addr_str@,
            )),
    {
        let n = addr_str.unicode_len();
        if n < 17 {
            return Err(AddrParseError::TooShort);
        }
        let mut addr: [u8; 6] = [0; 6];
        let mut i: usize = 0;
        while i < 6
            invariant
                addr_str@.len() >= 17,
                0 <= i <= 6,
                forall|j: int| 0 <= j < i ==> (#[trigger] addr_field(addr_str@, j)) is Some && addr[j]
                    == addr_field(addr_str@, j)->Some_0,
            decreases 6 - i,
        {
            match parse_pair(addr_str.get_char(3 * i), addr_str.get_char(3 * i + 1)) {
                Some(v) => {
                    addr[i] = v;
                },
                None => {
                    assert(addr_field(addr_str@, i as int) is None);
                    return Err(AddrParseError::InvalidDigit);
                },
            }
            i = i + 1;
        }
        assert(addr@ =~= addr_of_text(addr_str@));
        Ok(BtAddr(addr))
    }

    /// The address in the byte order that kernel address structures hold on
    /// a little-endian host: the six bytes reversed. Applying it twice gives
    /// the address back (see [`lemma_host_byteorder_involution`]).
    pub fn convert_host_byteorder(self) -> (r: BtAddr)
        ensures
            r.0@ == reversed(self.0@),
    {
        let a = self.0;
        let r = BtAddr([a[5], a[4], a[3], a[2], a[1], a[0]]);
        assert(r.0@ =~= reversed(self.0@));
        r
    }

    /// The address as text: six upper-case hexadecimal pairs separated by `:`.
    pub fn to_display_string(&self) -> (r: String)
        ensures
            r@ == display_text(self.0@),
    {
        let mut out: Vec<char> = Vec::new();
        let mut i: usize = 0;
        while i < 6
            invariant
                0 <= i <= 6,
                out@.len() == if i == 0 { 0 } else { 3 * i - 1 },
                forall|k: int| 0 <= k < out@.len() ==> out@[k] == display_text(self.0@)[k],
            decreases 6 - i,
        {
            if i > 0 {
                out.push(':');
            }
            out.push(upper_hex_digit(self.0[i] / 16));
            out.push(upper_hex_digit(self.0[i] % 16));
            i = i + 1;
        }
        assert(out@ =~= display_text(self.0@));
        string_from_chars(&out)
    }
}

/// Converting an address to host byte order twice gives the address back.
pub proof fn lemma_host_byteorder_involution(a: BtAddr)
    ensures
        reversed(reversed(a.0@)) == a.0@,
{
    assert(reversed(reversed(a.0@)) =~= a.0@);
}

} // verus!
