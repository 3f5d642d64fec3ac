use vstd::prelude::*;

use crate::text::{decimal, hex_digit, lemma_hex_digit_injective};

verus! {

/// The signature that names a deployed function: the 16 bytes of a UUID.
#[derive(Clone, Copy, Debug, PartialEq, Eq)]
pub struct FunctionId {
    pub bytes: [u8; 16],
}

/// Two lower-case hexadecimal digits of one byte.
pub open spec fn hex_byte(b: u8) -> Seq<char> {
    seq![hex_digit(b as int / 16), hex_digit(b as int % 16)]
}

/// The lower-case hexadecimal digits of a byte sequence, two per byte.
pub open spec fn hex_bytes(bs: Seq<u8>) -> Seq<char>
    decreases bs.len(),
{
    if bs.len() == 0 {
        seq![]
    } else {
        hex_byte(bs[0]) + hex_bytes(bs.drop_first())
    }
}

/// The hyphenated text of a UUID: groups of 8, 4, 4, 4 and 12 hexadecimal digits
/// joined by hyphens, as in `46ebd0ee-0e6d-43c9-b90d-ccc35a913f3e`.
pub open spec fn hyphenated(bs: Seq<u8>) -> Seq<char> {
    hex_bytes(bs.subrange(0, 4)) + seq!['-'] + hex_bytes(bs.subrange(4, 6)) + seq!['-']
        + hex_bytes(bs.subrange(6, 8)) + seq!['-'] + hex_bytes(bs.subrange(8, 10)) + seq!['-']
        + hex_bytes(bs.subrange(10, 16))
}

/// The decimal numbers of a byte sequence separated by `", "`.
pub open spec fn decimal_list(bs: Seq<u8>) -> Seq<char>
    decreases bs.len(),
{
    if bs.len() == 0 {
        seq![]
    } else if bs.len() == 1 {
        decimal(bs[0] as nat)
    } else {
        decimal(bs[0] as nat) + ", "@ + decimal_list(bs.drop_first())
    }
}

/// The debug text of a UUID: `Uuid { bytes: [70, 235, ...] }`.
pub open spec fn uuid_debug(bs: Seq<u8>) -> Seq<char> {
    "Uuid { bytes: ["@ + decimal_list(bs) + "] }"@
}

impl View for FunctionId {
    type V = Seq<u8>;

    open spec fn view(&self) -> Seq<u8> {
        self.bytes@
    }
}

impl FunctionId {
    /// A version 4 (random) UUID of the RFC 4122 variant.
    pub open spec fn is_random_v4(&self) -> bool {
        &&& self.bytes@[6] as int / 16 == 4
        &&& self.bytes@[8] as int / 64 == 2
    }

    /// The hyphenated text of this signature.
    pub fn to_text(&self) -> (text: String)
        ensures
            text@ == hyphenated(self@),
    {
        uuid_text(self.bytes)
    }

    /// The debug text of this signature.
    pub fn debug_text(&self) -> (text: String)
        ensures
            text@ == uuid_debug(self@),
    {
        uuid_debug_text(self.bytes)
    }

    /// Whether two signatures hold the same bytes.
    pub fn same(&self, other: &FunctionId) -> (eq: bool)
        ensures
            eq == (self@ == other@),
    {
        let mut i: usize = 0;
        while i < 16
            invariant
                i <= 16,
                self@.len() == 16,
                other@.len() == 16,
                forall|j: int| 0 <= j < i ==> self@[j] == other@[j],
            decreases 16 - i,
        {
            if self.bytes[i] != other.bytes[i] {
                return false;
            }
            i = i + 1;
        }
        assert(self@ =~= other@);
        true
    }
}

/// Calls `uuid::Uuid::new_v4`. The uuid crate fills 16 bytes from the thread's
/// random generator, then sets the version nibble of byte 6 to 4 and the two top
/// bits of byte 8 to `10`; the contract claims those two facts and nothing of the
/// other bits.
#[verifier::external_body]
fn random_uuid_bytes() -> (bytes: [u8; 16])
    ensures
        bytes@[6] as int / 16 == 4,
        bytes@[8] as int / 64 == 2,
{
    *uuid::Uuid::new_v4().as_bytes()
}

/// Calls `uuid::Uuid::from_uuid_bytes` and its `Display`, which writes the
/// lower-case hyphenated form; the contract claims exactly that text.
#[verifier::external_body]
fn uuid_text(bytes: [u8; 16]) -> (text: String)
    ensures
        text@ == hyphenated(bytes@),
{
    uuid::Uuid::from_uuid_bytes(bytes).to_string()
}

/// Calls the derived `Debug` of `uuid::Uuid` (a struct with one field `bytes`
/// holding a `[u8; 16]`); the contract claims the text that derive writes.
#[verifier::external_body]
fn uuid_debug_text(bytes: [u8; 16]) -> (text: String)
    ensures
        text@ == uuid_debug(bytes@),
{
    format!("{:?}", uuid::Uuid::from_uuid_bytes(bytes))
}

/// The 64-bit counter that bytes 0 to 5, 9 and 10 of a signature spell, lowest
/// byte first; the version and variant bytes 6 and 8 are not part of it.
pub open spec fn signature_counter(b: Seq<u8>) -> u64 {
    (b[0] as u64) | ((b[1] as u64) << 8u64) | ((b[2] as u64) << 16u64) | ((b[3] as u64) << 24u64)
        | ((b[4] as u64) << 32u64) | ((b[5] as u64) << 40u64) | ((b[9] as u64) << 48u64)
        | ((b[10] as u64) << 56u64)
}

impl FunctionId {
    /// This signature with its counter bytes set to `counter`, the other bytes kept.
    pub(crate) fn with_counter(&self, counter: u64) -> (id: FunctionId)
        ensures
            signature_counter(id@) == counter,
            forall|i: int| 0 <= i < 16 && !(0 <= i < 6 || i == 9 || i == 10) ==> id@[i] == self@[i],
            self.is_random_v4() ==> id.is_random_v4(),
    {
        let c = self.bytes;
        let b0 = counter as u8;
        let b1 = (counter >> 8u64) as u8;
        let b2 = (counter >> 16u64) as u8;
        let b3 = (counter >> 24u64) as u8;
        let b4 = (counter >> 32u64) as u8;
        let b5 = (counter >> 40u64) as u8;
        let b9 = (counter >> 48u64) as u8;
        let b10 = (counter >> 56u64) as u8;
        let id = FunctionId { bytes: [b0, b1, b2, b3, b4, b5, c[6], c[7], c[8], b9, b10, c[11], c[12], c[13], c[14], c[15]] };
        assert(((b0 as u64) | ((b1 as u64) << 8u64) | ((b2 as u64) << 16u64) | ((b3 as u64) << 24u64)
            | ((b4 as u64) << 32u64) | ((b5 as u64) << 40u64) | ((b9 as u64) << 48u64)
            | ((b10 as u64) << 56u64)) == counter) by (bit_vector)
            requires
                b0 == counter as u8,
                b1 == (counter >> 8u64) as u8,
                b2 == (counter >> 16u64) as u8,
                b3 == (counter >> 24u64) as u8,
                b4 == (counter >> 32u64) as u8,
                b5 == (counter >> 40u64) as u8,
                b9 == (counter >> 48u64) as u8,
                b10 == (counter >> 56u64) as u8,
        ;
        id
    }
}

/// Creates the signature of a newly deployed function: a random version 4 UUID.
pub fn new_signature() -> (id: FunctionId)
    ensures
        id.is_random_v4(),
{
    FunctionId { bytes: random_uuid_bytes() }
}

pub proof fn lemma_hex_bytes_len(bs: Seq<u8>)
    ensures
        hex_bytes(bs).len() == 2 * bs.len(),
    decreases bs.len(),
{
    if bs.len() > 0 {
        lemma_hex_bytes_len(bs.drop_first());
    }
}

/// Equal hexadecimal texts of equally long byte sequences come from equal bytes.
pub proof fn lemma_hex_bytes_injective(a: Seq<u8>, b: Seq<u8>)
    requires
        a.len() == b.len(),
        hex_bytes(a) == hex_bytes(b),
    ensures
        a == b,
    decreases a.len(),
{
    if a.len() > 0 {
        let ha = hex_bytes(a);
        let hb = hex_bytes(b);
        assert(ha[0] == hb[0]);
        assert(ha[1] == hb[1]);
        lemma_hex_digit_injective(a[0] as int / 16, b[0] as int / 16);
        lemma_hex_digit_injective(a[0] as int % 16, b[0] as int % 16);
        assert(a[0] == b[0]);
        lemma_hex_bytes_len(a.drop_first());
        lemma_hex_bytes_len(b.drop_first());
        assert(hex_bytes(a.drop_first()) =~= ha.subrange(2, ha.len() as int));
        assert(hex_bytes(b.drop_first()) =~= hb.subrange(2, hb.len() as int));
        lemma_hex_bytes_injective(a.drop_first(), b.drop_first());
        assert forall|i: int| 0 <= i < a.len() implies a[i] == b[i] by {
            if i > 0 {
                assert(a.drop_first()[i - 1] == b.drop_first()[i - 1]);
            }
        }
        assert(a =~= b);
    }
}

/// A character of the hyphenated text of a UUID.
pub open spec fn is_uuid_char(c: char) -> bool {
    ('0' <= c <= '9') || ('a' <= c <= 'f') || c == '-'
}

proof fn lemma_hex_bytes_chars(bs: Seq<u8>)
    ensures
        forall|i: int| 0 <= i < hex_bytes(bs).len() ==> is_uuid_char(#[trigger] hex_bytes(bs)[i]),
    decreases bs.len(),
{
    if bs.len() > 0 {
        lemma_hex_bytes_chars(bs.drop_first());
        let h = hex_bytes(bs);
        let rest = hex_bytes(bs.drop_first());
        assert forall|i: int| 0 <= i < h.len() implies is_uuid_char(#[trigger] h[i]) by {
            if i >= 2 {
                assert(h[i] == rest[i - 2]);
            }
        }
    }
}

/// Every character of the hyphenated text is a hexadecimal digit or a hyphen.
pub proof fn lemma_hyphenated_chars(bs: Seq<u8>)
    requires
        bs.len() == 16,
    ensures
        forall|i: int| 0 <= i < hyphenated(bs).len() ==> is_uuid_char(#[trigger] hyphenated(bs)[i]),
{
    lemma_hex_bytes_chars(bs.subrange(0, 4));
    lemma_hex_bytes_chars(bs.subrange(4, 6));
    lemma_hex_bytes_chars(bs.subrange(6, 8));
    lemma_hex_bytes_chars(bs.subrange(8, 10));
    lemma_hex_bytes_chars(bs.subrange(10, 16));
    lemma_hyphenated_len(bs);
    lemma_hex_bytes_len(bs.subrange(0, 4));
    lemma_hex_bytes_len(bs.subrange(4, 6));
    lemma_hex_bytes_len(bs.subrange(6, 8));
    lemma_hex_bytes_len(bs.subrange(8, 10));
    lemma_hex_bytes_len(bs.subrange(10, 16));
    let h = hyphenated(bs);
    let g0 = hex_bytes(bs.subrange(0, 4));
    let g1 = hex_bytes(bs.subrange(4, 6));
    let g2 = hex_bytes(bs.subrange(6, 8));
    let g3 = hex_bytes(bs.subrange(8, 10));
    let g4 = hex_bytes(bs.subrange(10, 16));
    assert forall|i: int| 0 <= i < h.len() implies is_uuid_char(#[trigger] h[i]) by {
        if i < 8 {
            assert(h[i] == g0[i]);
        } else if i == 8 || i == 13 || i == 18 || i == 23 {
        } else if i < 13 {
            assert(h[i] == g1[i - 9]);
        } else if i < 18 {
            assert(h[i] == g2[i - 14]);
        } else if i < 23 {
            assert(h[i] == g3[i - 19]);
        } else {
            assert(h[i] == g4[i - 24]);
        }
    }
}

/// The hyphenated text is 36 characters long.
pub proof fn lemma_hyphenated_len(bs: Seq<u8>)
    requires
        bs.len() == 16,
    ensures
        hyphenated(bs).len() == 36,
{
    lemma_hex_bytes_len(bs.subrange(0, 4));
    lemma_hex_bytes_len(bs.subrange(4, 6));
    lemma_hex_bytes_len(bs.subrange(6, 8));
    lemma_hex_bytes_len(bs.subrange(8, 10));
    lemma_hex_bytes_len(bs.subrange(10, 16));
}

/// Different signatures have different hyphenated texts.
pub proof fn lemma_hyphenated_injective(a: Seq<u8>, b: Seq<u8>)
    requires
        a.len() == 16,
        b.len() == 16,
        hyphenated(a) == hyphenated(b),
    ensures
        a == b,
{
    let ha = hyphenated(a);
    let hb = hyphenated(b);
    lemma_hex_bytes_len(a.subrange(0, 4));
    lemma_hex_bytes_len(a.subrange(4, 6));
    lemma_hex_bytes_len(a.subrange(6, 8));
    lemma_hex_bytes_len(a.subrange(8, 10));
    lemma_hex_bytes_len(a.subrange(10, 16));
    lemma_hex_bytes_len(b.subrange(0, 4));
    lemma_hex_bytes_len(b.subrange(4, 6));
    lemma_hex_bytes_len(b.subrange(6, 8));
    lemma_hex_bytes_len(b.subrange(8, 10));
    lemma_hex_bytes_len(b.subrange(10, 16));
    assert(hex_bytes(a.subrange(0, 4)) =~= ha.subrange(0, 8));
    assert(hex_bytes(b.subrange(0, 4)) =~= hb.subrange(0, 8));
    assert(hex_bytes(a.subrange(4, 6)) =~= ha.subrange(9, 13));
    assert(hex_bytes(b.subrange(4, 6)) =~= hb.subrange(9, 13));
    assert(hex_bytes(a.subrange(6, 8)) =~= ha.subrange(14, 18));
    assert(hex_bytes(b.subrange(6, 8)) =~= hb.subrange(14, 18));
    assert(hex_bytes(a.subrange(8, 10)) =~= ha.subrange(19, 23));
    assert(hex_bytes(b.subrange(8, 10)) =~= hb.subrange(19, 23));
    assert(hex_bytes(a.subrange(10, 16)) =~= ha.subrange(24, 36));
    assert(hex_bytes(b.subrange(10, 16)) =~= hb.subrange(24, 36));
    lemma_hex_bytes_injective(a.subrange(0, 4), b.subrange(0, 4));
    lemma_hex_bytes_injective(a.subrange(4, 6), b.subrange(4, 6));
    lemma_hex_bytes_injective(a.subrange(6, 8), b.subrange(6, 8));
    lemma_hex_bytes_injective(a.subrange(8, 10), b.subrange(8, 10));
    lemma_hex_bytes_injective(a.subrange(10, 16), b.subrange(10, 16));
    assert forall|i: int| 0 <= i < 16 implies a[i] == b[i] by {
        if i < 4 {
            assert(a.subrange(0, 4)[i] == b.subrange(0, 4)[i]);
        } else if i < 6 {
            assert(a.subrange(4, 6)[i - 4] == b.subrange(4, 6)[i - 4]);
        } else if i < 8 {
            assert(a.subrange(6, 8)[i - 6] == b.subrange(6, 8)[i - 6]);
        } else if i < 10 {
            assert(a.subrange(8, 10)[i - 8] == b.subrange(8, 10)[i - 8]);
        } else {
            assert(a.subrange(10, 16)[i - 10] == b.subrange(10, 16)[i - 10]);
        }
    }
    assert(a =~= b);
}

} // verus!
