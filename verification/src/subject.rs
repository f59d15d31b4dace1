//! Certificate subject attributes: the ordered list of `(name, value)` pairs
//! read from an X.509 subject name, the diagnostic rendering of that list,
//! and the one policy lookup made on it: does the subject carry the
//! organizational-unit marker `OU=TrustedDevices`, matched exactly?

use vstd::prelude::*;

verus! {

/// The exact subject value that authorizes a device.
pub const TRUST_DEVICES: &'static str = "TrustedDevices";

/// The value of one subject attribute: valid text, or the raw bytes of a
/// value that could not be decoded as text. Raw bytes are never dropped;
/// they are rendered in hexadecimal for diagnostics.
#[derive(Clone, Debug)]
pub enum AttrValue {
    Text(String),
    Raw(Vec<u8>),
}

/// One `(attribute-name, value)` pair of a certificate's subject name,
/// keyed by the attribute's short name (`CN`, `OU`, ...).
#[derive(Clone, Debug)]
pub struct SubjectEntry {
    pub key: String,
    pub value: AttrValue,
}

/// An entry is the trusted-device marker exactly when its key is `OU` and
/// its value is the text `TrustedDevices`: no prefix or substring match,
/// no case folding, and a non-text value never matches.
pub open spec fn entry_is_trusted_marker(e: SubjectEntry) -> bool {
    &&& e.key@ == "OU"@
    &&& match e.value {
        AttrValue::Text(s) => s@ == TRUST_DEVICES@,
        AttrValue::Raw(_) => false,
    }
}

/// A subject carries the marker when some entry of it is the marker.
pub open spec fn has_trusted_ou(s: Seq<SubjectEntry>) -> bool {
    exists|i: int| 0 <= i < s.len() && entry_is_trusted_marker(s[i])
}

fn entry_matches_trusted_ou(e: &SubjectEntry) -> (r: bool)
    ensures
        r == entry_is_trusted_marker(*e),
{
    let ou: String = String::from_str("OU");
    if !(e.key == ou) {
        return false;
    }
    match &e.value {
        AttrValue::Text(s) => {
            let marker: String = String::from_str(TRUST_DEVICES);
            *s == marker
        },
        AttrValue::Raw(_) => false,
    }
}

/// Exact lookup of the trusted-device marker in a subject.
pub fn has_trusted_device_ou(entries: &Vec<SubjectEntry>) -> (r: bool)
    ensures
        r == has_trusted_ou(entries@),
{
    let mut i: usize = 0;
    while i < entries.len()
        invariant
            i <= entries@.len(),
            forall|j: int| 0 <= j < i ==> !entry_is_trusted_marker(entries@[j]),
        decreases entries@.len() - i,
    {
        if entry_matches_trusted_ou(&entries[i]) {
            assert(entry_is_trusted_marker(entries@[i as int]));
            return true;
        }
        i += 1;
    }
    false
}

/// The lowercase hexadecimal digit of a nibble.
pub open spec fn spec_hex_digit(n: u8) -> char
    recommends
        n < 16,
{
    if n == 0 {
        '0'
    } else if n == 1 {
        '1'
    } else if n == 2 {
        '2'
    } else if n == 3 {
        '3'
    } else if n == 4 {
        '4'
    } else if n == 5 {
        '5'
    } else if n == 6 {
        '6'
    } else if n == 7 {
        '7'
    } else if n == 8 {
        '8'
    } else if n == 9 {
        '9'
    } else if n == 10 {
        'a'
    } else if n == 11 {
        'b'
    } else if n == 12 {
        'c'
    } else if n == 13 {
        'd'
    } else if n == 14 {
        'e'
    } else {
        'f'
    }
}

/// Lowercase hexadecimal rendering of a byte sequence: two digits per byte,
/// high nibble first.
pub open spec fn spec_hex(b: Seq<u8>) -> Seq<char>
    decreases b.len(),
{
    if b.len() == 0 {
        Seq::<char>::empty()
    } else {
        seq![spec_hex_digit(b[0] / 16), spec_hex_digit(b[0] % 16)] + spec_hex(b.drop_first())
    }
}

/// Relies on hex::encode: renders each byte as two lowercase hexadecimal
/// digits, high nibble first, in input order.
#[verifier::external_body]
fn hex_lower(b: &Vec<u8>) -> (r: String)
    ensures
        r@ == spec_hex(b@),
{
    hex::encode(b)
}

/// The diagnostic text of one subject entry: `key=value`, with a non-text
/// value rendered in hexadecimal.
pub open spec fn spec_entry_text(e: SubjectEntry) -> Seq<char> {
    e.key@ + "="@ + match e.value {
        AttrValue::Text(s) => s@,
        AttrValue::Raw(b) => spec_hex(b@),
    }
}

/// The diagnostic text of a whole subject: its entries' texts joined by `, `.
pub open spec fn spec_subject_text(s: Seq<SubjectEntry>) -> Seq<char>
    decreases s.len(),
{
    if s.len() == 0 {
        Seq::<char>::empty()
    } else if s.len() == 1 {
        spec_entry_text(s[0])
    } else {
        spec_entry_text(s[0]) + ", "@ + spec_subject_text(s.drop_first())
    }
}

proof fn lemma_subject_text_push(s: Seq<SubjectEntry>, e: SubjectEntry)
    ensures
        spec_subject_text(s.push(e)) == if s.len() == 0 {
            spec_entry_text(e)
        } else {
            spec_subject_text(s) + ", "@ + spec_entry_text(e)
        },
    decreases s.len(),
{
    if s.len() == 0 {
        assert(s.push(e).len() == 1);
        assert(s.push(e)[0] == e);
    } else {
        assert(s.push(e).drop_first() =~= s.drop_first().push(e));
        lemma_subject_text_push(s.drop_first(), e);
        assert(spec_subject_text(s.push(e)) =~= spec_subject_text(s) + ", "@ + spec_entry_text(e));
    }
}

fn entry_text(e: &SubjectEntry) -> (r: String)
    ensures
        r@ == spec_entry_text(*e),
{
    let mut out = e.key.clone();
    out.append("=");
    match &e.value {
        AttrValue::Text(t) => {
            out.append(t.as_str());
        },
        AttrValue::Raw(b) => {
            let h = hex_lower(b);
            out.append(h.as_str());
        },
    }
    proof {
        assert(out@ =~= spec_entry_text(*e));
    }
    out
}

/// Renders a subject as its ordered attribute list, `key=value` pairs joined
/// by `, `; values that are not valid text appear as hexadecimal and are
/// never silently dropped.
pub fn x509_name_to_string(entries: &Vec<SubjectEntry>) -> (r: String)
    ensures
        r@ == spec_subject_text(entries@),
{
    let mut out = String::new();
    let mut i: usize = 0;
    while i < entries.len()
        invariant
            i <= entries@.len(),
            out@ == spec_subject_text(entries@.take(i as int)),
        decreases entries@.len() - i,
    {
        if i > 0 {
            out.append(", ");
        }
        let piece = entry_text(&entries[i]);
        out.append(piece.as_str());
        proof {
            lemma_subject_text_push(entries@.take(i as int), entries@[i as int]);
            assert(entries@.take(i as int).push(entries@[i as int]) =~= entries@.take(
                i as int + 1,
            ));
            assert(out@ =~= spec_subject_text(entries@.take(i as int + 1)));
        }
        i += 1;
    }
    proof {
        assert(entries@.take(entries@.len() as int) =~= entries@);
    }
    out
}

} // verus!
