//! The witness as the proof backend's input loader reads it: a map from
//! field names to arrays, field elements written as `0x` followed by the
//! 64 hex digits of their little-endian encoding.
use vstd::prelude::*;
use vstd::string::*;
use crate::encoding::le_bytes;
use crate::field::FieldElement;
use crate::witness::Witness;

verus! {

/// The lower-case hex digit for a number below 16.
pub open spec fn hex_digit(n: int) -> char {
    if n == 0 {
        '0'
    } else if n == 1 {
        '1'
    } else if n == 2 {
        '2'
    } else if n == 3 {
        '3'
    } else if n == 4 {
        '4'
    } else if n == 5 {
        '5'
    } else if n == 6 {
        '6'
    } else if n == 7 {
        '7'
    } else if n == 8 {
        '8'
    } else if n == 9 {
        '9'
    } else if n == 10 {
        'a'
    } else if n == 11 {
        'b'
    } else if n == 12 {
        'c'
    } else if n == 13 {
        'd'
    } else if n == 14 {
        'e'
    } else {
        'f'
    }
}

/// The hex spelling of a byte string: two lower-case digits per byte, the
/// high half first.
pub open spec fn hex_string(bytes: Seq<u8>) -> Seq<char>
    decreases bytes.len(),
{
    if bytes.len() == 0 {
        Seq::empty()
    } else {
        hex_string(bytes.drop_last()).push(hex_digit(bytes.last() as int / 16)).push(
            hex_digit(bytes.last() as int % 16),
        )
    }
}

/// A field element as the input loader reads it.
pub open spec fn field_hex(x: int) -> Seq<char> {
    "0x"@ + hex_string(le_bytes(x as nat, 32))
}

/// Four field elements as the input loader reads them.
pub open spec fn elements_hex(entries: [FieldElement; 4]) -> Seq<Seq<char>> {
    seq![
        field_hex(entries[0]@),
        field_hex(entries[1]@),
        field_hex(entries[2]@),
        field_hex(entries[3]@),
    ]
}

/// The texts of a sequence of strings.
pub open spec fn string_views(strings: Seq<String>) -> Seq<Seq<char>> {
    Seq::new(strings.len(), |i: int| strings[i]@)
}

/// `hex::encode` of the `hex` crate: two lower-case hex digits for every
/// byte, the high half first.
#[verifier::external_body]
fn hex_encode(bytes: &[u8]) -> (r: String)
    ensures
        r@ == hex_string(bytes@),
{
    hex::encode(bytes)
}

/// One value of the input map.
#[derive(Clone, Debug, PartialEq, Eq)]
pub enum CircomValue {
    /// An array of field elements, each as a hex string.
    Elements(Vec<String>),
    /// An array of generator indices.
    Indices(Vec<u8>),
}

/// What a value of the input map holds.
pub ghost enum CircomValueView {
    Elements(Seq<Seq<char>>),
    Indices(Seq<u8>),
}

impl View for CircomValue {
    type V = CircomValueView;

    open spec fn view(&self) -> CircomValueView {
        match self {
            CircomValue::Elements(strings) => CircomValueView::Elements(string_views(strings@)),
            CircomValue::Indices(indices) => CircomValueView::Indices(indices@),
        }
    }
}

/// The input map: its entries in the order of their names.
#[derive(Clone, Debug, PartialEq, Eq)]
pub struct CircomInput {
    pub entries: Vec<(String, CircomValue)>,
}

impl View for CircomInput {
    type V = Seq<(Seq<char>, CircomValueView)>;

    open spec fn view(&self) -> Seq<(Seq<char>, CircomValueView)> {
        Seq::new(self.entries@.len(), |i: int| (self.entries@[i].0@, self.entries@[i].1@))
    }
}

/// The input map of a witness: the four public values as hex strings and
/// the two paths as they are, under the names that the circuit gives them,
/// in the order of the names.
pub open spec fn circom_input_of(w: Witness) -> Seq<(Seq<char>, CircomValueView)> {
    seq![
        ("H_pub"@, CircomValueView::Elements(elements_hex(w.h_pub))),
        ("H_sig"@, CircomValueView::Elements(elements_hex(w.h_sig))),
        ("delta"@, CircomValueView::Indices(w.delta@)),
        ("desc_M"@, CircomValueView::Elements(elements_hex(w.desc_m))),
        ("gamma"@, CircomValueView::Indices(w.gamma@)),
        ("m_hash"@, CircomValueView::Elements(elements_hex(w.m_hash))),
    ]
}

/// A field element as the input loader reads it: `0x`, then the hex
/// spelling of its 32-byte little-endian encoding.
pub fn element_to_hex(element: &FieldElement) -> (r: String)
    ensures
        r@ == field_hex(element@),
{
    let repr = element.to_repr();
    let digits = hex_encode(repr.as_slice());
    String::from_str("0x").concat(digits.as_str())
}

/// Four field elements as the input loader reads them.
pub fn elements_to_hex(entries: &[FieldElement; 4]) -> (r: Vec<String>)
    ensures
        string_views(r@) == elements_hex(*entries),
{
    let mut out: Vec<String> = Vec::new();
    out.push(element_to_hex(&entries[0]));
    out.push(element_to_hex(&entries[1]));
    out.push(element_to_hex(&entries[2]));
    out.push(element_to_hex(&entries[3]));
    assert(string_views(out@) =~= elements_hex(*entries));
    out
}

impl Witness {
    /// The witness in the format of the proof backend's input loader.
    pub fn to_circom_input(&self) -> (r: CircomInput)
        ensures
            r@ == circom_input_of(*self),
    {
        let mut entries: Vec<(String, CircomValue)> = Vec::new();
        entries.push(
            (String::from_str("H_pub"), CircomValue::Elements(elements_to_hex(&self.h_pub))),
        );
        entries.push(
            (String::from_str("H_sig"), CircomValue::Elements(elements_to_hex(&self.h_sig))),
        );
        entries.push((String::from_str("delta"), CircomValue::Indices(self.delta.clone())));
        entries.push(
            (String::from_str("desc_M"), CircomValue::Elements(elements_to_hex(&self.desc_m))),
        );
        entries.push((String::from_str("gamma"), CircomValue::Indices(self.gamma.clone())));
        entries.push(
            (String::from_str("m_hash"), CircomValue::Elements(elements_to_hex(&self.m_hash))),
        );
        let input = CircomInput { entries };
        assert(input@ =~= circom_input_of(*self));
        input
    }
}

} // verus!
