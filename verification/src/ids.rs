//! Identifiers of stored records and their hexadecimal text.
use vstd::prelude::*;

verus! {

/// The lower-case hexadecimal digit that writes a number under sixteen.
pub open spec fn hex_digit(n: int) -> char {
    if n < 10 {
        ('0' as u32 + n) as char
    } else {
        ('a' as u32 + (n - 10)) as char
    }
}

/// What a hexadecimal digit of either case stands for; -1 for any other character.
pub open spec fn hex_value(c: char) -> int {
    if '0' <= c && c <= '9' {
        c as u32 - '0' as u32
    } else if 'a' <= c && c <= 'f' {
        c as u32 - 'a' as u32 + 10
    } else if 'A' <= c && c <= 'F' {
        c as u32 - 'A' as u32 + 10
    } else {
        -1
    }
}

/// Bytes as text: two lower-case hexadecimal digits for each, the high half first.
pub open spec fn hex_text(bytes: Seq<u8>) -> Seq<char> {
    Seq::new(
        2 * bytes.len(),
        |i: int|
            if i % 2 == 0 {
                hex_digit(bytes[i / 2] as int / 16)
            } else {
                hex_digit(bytes[i / 2] as int % 16)
            },
    )
}

/// Whether a text is hexadecimal digits only.
pub open spec fn is_hex(s: Seq<char>) -> bool {
    forall|i: int| 0 <= i < s.len() ==> hex_value(#[trigger] s[i]) >= 0
}

/// The bytes that pairs of hexadecimal digits write.
pub open spec fn hex_bytes(s: Seq<char>) -> Seq<u8> {
    Seq::new(
        s.len() / 2,
        |i: int| (16 * hex_value(s[2 * i]) + hex_value(s[2 * i + 1])) as u8,
    )
}

/// Calls `hex::encode`: two lower-case hexadecimal digits for each byte.
#[verifier::external_body]
pub(crate) fn hex_encode(bytes: &[u8]) -> (r: String)
    ensures
        r@ == hex_text(bytes@),
{
    hex::encode(bytes)
}

/// Calls `mongodb::bson::oid::ObjectId::parse_str`. It accepts exactly the texts of 24
/// hexadecimal digits, of either case, and reads twelve bytes from them.
#[verifier::external_body]
fn oid_parse(s: &str) -> (r: Option<[u8; 12]>)
    ensures
        match r {
            Some(b) => s@.len() == 24 && is_hex(s@) && b@ == hex_bytes(s@),
            None => !(s@.len() == 24 && is_hex(s@)),
        },
{
    match mongodb::bson::oid::ObjectId::parse_str(s) {
        Ok(id) => Some(id.bytes()),
        Err(_) => None,
    }
}

/// Calls `mongodb::bson::oid::ObjectId::to_hex`: the twelve bytes in lower-case
/// hexadecimal.
#[verifier::external_body]
fn oid_to_hex(bytes: [u8; 12]) -> (r: String)
    ensures
        r@ == hex_text(bytes@),
{
    mongodb::bson::oid::ObjectId::from_bytes(bytes).to_hex()
}

/// The identifier of a stored record: twelve bytes, held as three big-endian words.
#[derive(Clone, Copy, Debug, PartialEq, Eq, Structural, Hash)]
pub struct ObjectId {
    pub hi: u32,
    pub mid: u32,
    pub lo: u32,
}

/// The four bytes of a word, the high one first.
pub open spec fn word_bytes(w: u32) -> Seq<u8> {
    seq![
        (w / 0x1000000) as u8,
        (w / 0x10000 % 0x100) as u8,
        (w / 0x100 % 0x100) as u8,
        (w % 0x100) as u8,
    ]
}

/// Two words with the same bytes are the same.
proof fn word_bytes_identify(a: u32, b: u32)
    requires
        word_bytes(a) == word_bytes(b),
    ensures
        a == b,
{
    let x = word_bytes(a);
    let y = word_bytes(b);
    assert(x[0] == y[0] && x[1] == y[1] && x[2] == y[2] && x[3] == y[3]);
}

fn word_of(b0: u8, b1: u8, b2: u8, b3: u8) -> (w: u32)
    ensures
        word_bytes(w) == seq![b0, b1, b2, b3],
{
    let w: u32 = (b0 as u32) * 0x1000000 + (b1 as u32) * 0x10000 + (b2 as u32) * 0x100 + (
    b3 as u32);
    proof {
        let (x0, x1, x2, x3) = (b0 as int, b1 as int, b2 as int, b3 as int);
        let low = 0x10000 * x1 + 0x100 * x2 + x3;
        assert(w == 0x1000000 * x0 + low && 0 <= low < 0x1000000);
        assert(w / 0x1000000 == x0);
        let mid = 0x100 * x2 + x3;
        assert(w == 0x10000 * (0x100 * x0 + x1) + mid && 0 <= mid < 0x10000);
        assert(w / 0x10000 == 0x100 * x0 + x1);
        assert(w == 0x100 * (0x10000 * x0 + 0x100 * x1 + x2) + x3);
        assert(w / 0x100 == 0x100 * (0x100 * x0 + x1) + x2);
        assert(word_bytes(w) =~= seq![b0, b1, b2, b3]);
    }
    w
}

impl ObjectId {
    /// The twelve bytes.
    pub open spec fn bytes(self) -> Seq<u8> {
        word_bytes(self.hi) + word_bytes(self.mid) + word_bytes(self.lo)
    }

    /// The identifier as text.
    pub open spec fn hex(self) -> Seq<char> {
        hex_text(self.bytes())
    }

    /// Reads an identifier from 24 hexadecimal digits.
    pub fn parse_str(s: &str) -> (r: Option<ObjectId>)
        ensures
            r == parsed_id(s@),
    {
        match oid_parse(s) {
            Some(b) => {
                let id = ObjectId {
                    hi: word_of(b[0], b[1], b[2], b[3]),
                    mid: word_of(b[4], b[5], b[6], b[7]),
                    lo: word_of(b[8], b[9], b[10], b[11]),
                };
                proof {
                    assert(id.bytes() =~= b@);
                    parsed_id_is_unique(s@, id);
                }
                Some(id)
            },
            None => None,
        }
    }

    /// The identifier as 24 lower-case hexadecimal digits.
    pub fn to_hex(self) -> (r: String)
        ensures
            r@ == self.hex(),
    {
        let (x, y, z) = (self.hi, self.mid, self.lo);
        let b: [u8; 12] = [
            (x / 0x1000000) as u8,
            (x / 0x10000 % 0x100) as u8,
            (x / 0x100 % 0x100) as u8,
            (x % 0x100) as u8,
            (y / 0x1000000) as u8,
            (y / 0x10000 % 0x100) as u8,
            (y / 0x100 % 0x100) as u8,
            (y % 0x100) as u8,
            (z / 0x1000000) as u8,
            (z / 0x10000 % 0x100) as u8,
            (z / 0x100 % 0x100) as u8,
            (z % 0x100) as u8,
        ];
        proof {
            assert(b@ =~= self.bytes());
        }
        oid_to_hex(b)
    }
}

/// The identifier that a text writes, if it is 24 hexadecimal digits.
pub open spec fn parsed_id(s: Seq<char>) -> Option<ObjectId> {
    if s.len() == 24 && is_hex(s) {
        Some(choose|id: ObjectId| id.bytes() == hex_bytes(s))
    } else {
        None
    }
}

/// Two identifiers with the same bytes are the same.
pub proof fn bytes_identify(a: ObjectId, b: ObjectId)
    requires
        a.bytes() == b.bytes(),
    ensures
        a == b,
{
    assert(word_bytes(a.hi) =~= a.bytes().subrange(0, 4));
    assert(word_bytes(b.hi) =~= b.bytes().subrange(0, 4));
    assert(word_bytes(a.mid) =~= a.bytes().subrange(4, 8));
    assert(word_bytes(b.mid) =~= b.bytes().subrange(4, 8));
    assert(word_bytes(a.lo) =~= a.bytes().subrange(8, 12));
    assert(word_bytes(b.lo) =~= b.bytes().subrange(8, 12));
    word_bytes_identify(a.hi, b.hi);
    word_bytes_identify(a.mid, b.mid);
    word_bytes_identify(a.lo, b.lo);
}

proof fn parsed_id_is_unique(s: Seq<char>, id: ObjectId)
    requires
        s.len() == 24,
        is_hex(s),
        id.bytes() == hex_bytes(s),
    ensures
        parsed_id(s) == Some(id),
{
    let other = choose|o: ObjectId| o.bytes() == hex_bytes(s);
    bytes_identify(other, id);
}

/// The text of an identifier reads back as that identifier.
pub proof fn hex_reads_back(id: ObjectId)
    ensures
        id.hex().len() == 24,
        is_hex(id.hex()),
        parsed_id(id.hex()) == Some(id),
{
    let s = id.hex();
    assert forall|i: int| 0 <= i < s.len() implies hex_value(#[trigger] s[i]) >= 0 by {
        assert(0 <= id.bytes()[i / 2] as int / 16 < 16);
    }
    assert(hex_bytes(s) =~= id.bytes()) by {
        assert forall|i: int| 0 <= i < 12 implies hex_bytes(s)[i] == id.bytes()[i] by {
            let b = id.bytes()[i];
            assert(s[2 * i] == hex_digit(b as int / 16));
            assert(s[2 * i + 1] == hex_digit(b as int % 16));
            assert((2 * i + 1) / 2 == i);
        }
    }
    parsed_id_is_unique(s, id);
}

/// Two identifiers with the same text are the same.
pub proof fn hex_identifies(a: ObjectId, b: ObjectId)
    requires
        a.hex() == b.hex(),
    ensures
        a == b,
{
    hex_reads_back(a);
    hex_reads_back(b);
}

/// Whether a text is the identifier of a record.
pub fn is_valid_object_id(s: &str) -> (r: bool)
    ensures
        r == (parsed_id(s@) is Some),
{
    ObjectId::parse_str(s).is_some()
}

/// The text of an identifier is written in digits and the letters `a` to `f`, two for each byte.
pub proof fn identifiers_are_written_in_lower_case(bytes: Seq<u8>, i: int)
    requires
        0 <= i < bytes.len(),
    ensures
        hex_text(bytes).len() == 2 * bytes.len(),
        ({
            let (high, low) = (hex_text(bytes)[2 * i], hex_text(bytes)[2 * i + 1]);
            &&& '0' <= high && high <= '9' || 'a' <= high && high <= 'f'
            &&& '0' <= low && low <= '9' || 'a' <= low && low <= 'f'
            &&& 16 * hex_value(high) + hex_value(low) == bytes[i]
        }),
{
    assert((2 * i) / 2 == i && (2 * i + 1) / 2 == i);
    assert((2 * i) % 2 == 0 && (2 * i + 1) % 2 == 1);
}

/// A text is an identifier exactly if it has twenty-four characters, each a digit or a letter from
/// `a` to `f` of either case; the letters of both cases stand for the same.
pub proof fn identifiers_are_read_in_either_case(s: Seq<char>, c: char)
    ensures
        parsed_id(s) is Some <==> s.len() == 24 && is_hex(s),
        hex_value(c) >= 0 <==> (48 <= c as u32 <= 57) || (97 <= c as u32 <= 102) || (65 <= c as u32
            <= 70),
        48 <= c as u32 <= 57 ==> hex_value(c) == c as u32 - 48,
        97 <= c as u32 <= 102 ==> hex_value(c) == c as u32 - 87,
        65 <= c as u32 <= 70 ==> hex_value(c) == c as u32 - 55,
{
}

} // verus!
