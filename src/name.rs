//! Lump and texture names: eight bytes on disk, a short ASCII string padded
//! with zero bytes, compared without regard to case.
use vstd::prelude::*;
use crate::error::WadError;

verus! {

/// Length of every name as stored in an archive.
pub const NAME_LEN: usize = 8;

pub open spec fn is_printable(c: u8) -> bool {
    0x20 <= c && c <= 0x7e
}

/// Index of the first zero byte of `b` at or after `i`, or `b.len()`.
pub open spec fn first_zero_from(b: Seq<u8>, i: int) -> int
    decreases b.len() - i,
{
    if i < 0 || i >= b.len() {
        b.len() as int
    } else if b[i] == 0 {
        i
    } else {
        first_zero_from(b, i + 1)
    }
}

/// Length of the name that the stored bytes `b` hold.
pub open spec fn logical_len(b: Seq<u8>) -> int {
    first_zero_from(b, 0)
}

/// The name that the stored bytes `b` hold: everything before the first zero.
pub open spec fn logical_name(b: Seq<u8>) -> Seq<u8> {
    b.take(logical_len(b))
}

/// Stored bytes are valid when the name is printable ASCII and only zero
/// bytes follow it.
pub open spec fn name_valid(b: Seq<u8>) -> bool {
    &&& forall|i: int| 0 <= i < logical_len(b) ==> is_printable(#[trigger] b[i])
    &&& forall|i: int| logical_len(b) <= i < b.len() ==> #[trigger] b[i] == 0
}

/// A name as stored: its bytes followed by zeros up to eight bytes.
pub open spec fn padded(n: Seq<u8>) -> Seq<u8> {
    n + Seq::new((NAME_LEN - n.len()) as nat, |i: int| 0u8)
}

pub open spec fn upper(c: u8) -> u8 {
    if 0x61 <= c && c <= 0x7a {
        (c - 0x20) as u8
    } else {
        c
    }
}

pub open spec fn upper_seq(s: Seq<u8>) -> Seq<u8> {
    s.map_values(|c: u8| upper(c))
}

/// Two names are the same when they agree once both are upper-cased.
pub open spec fn same_name(a: Seq<u8>, b: Seq<u8>) -> bool {
    upper_seq(a) == upper_seq(b)
}

/// Where `b` has no zero byte in `[i, k)` and a zero at `k` (or ends there),
/// the first zero from `i` is at `k`.
pub proof fn lemma_first_zero_at(b: Seq<u8>, i: int, k: int)
    requires
        0 <= i <= k <= b.len(),
        forall|j: int| i <= j < k ==> #[trigger] b[j] != 0,
        k == b.len() || b[k] == 0,
    ensures
        first_zero_from(b, i) == k,
    decreases k - i,
{
    if i < k {
        lemma_first_zero_at(b, i + 1, k);
    }
}

/// A name of one to eight printable ASCII bytes, once padded as it is
/// stored, is valid and decodes to itself.
pub proof fn lemma_name_round_trip(n: Seq<u8>)
    requires
        1 <= n.len() <= NAME_LEN,
        forall|i: int| 0 <= i < n.len() ==> is_printable(#[trigger] n[i]),
    ensures
        name_valid(padded(n)),
        logical_name(padded(n)) == n,
{
    let p = padded(n);
    assert forall|j: int| 0 <= j < n.len() implies #[trigger] p[j] != 0 by {
        assert(p[j] == n[j]);
    }
    lemma_first_zero_at(p, 0, n.len() as int);
    assert(logical_name(p) =~= n);
}

/// A name as it is stored in an archive.
#[derive(Clone, Copy, Debug)]
pub struct WadName {
    pub bytes: [u8; 8],
}

fn upper_byte(c: u8) -> (r: u8)
    ensures
        r == upper(c),
{
    if 0x61 <= c && c <= 0x7a {
        c - 0x20
    } else {
        c
    }
}

/// Whether `a` and `b` agree once upper-cased.
fn same_bytes_ignore_case(a: &[u8], b: &[u8]) -> (r: bool)
    ensures
        r == same_name(a@, b@),
{
    if a.len() != b.len() {
        return false;
    }
    let mut i: usize = 0;
    while i < a.len()
        invariant
            a@.len() == b@.len(),
            0 <= i <= a@.len(),
            forall|j: int| 0 <= j < i ==> upper(a@[j]) == upper(b@[j]),
        decreases a@.len() - i,
    {
        if upper_byte(a[i]) != upper_byte(b[i]) {
            assert(upper_seq(a@)[i as int] != upper_seq(b@)[i as int]);
            return false;
        }
        i += 1;
    }
    assert(upper_seq(a@) =~= upper_seq(b@));
    true
}

impl WadName {
    /// The name stored as the given eight bytes, taken as they are.
    pub fn from_bytes(bytes: [u8; 8]) -> (r: WadName)
        ensures
            r.bytes == bytes,
    {
        WadName { bytes }
    }

    /// Number of bytes before the first zero byte.
    pub fn len(&self) -> (r: usize)
        ensures
            r as int == logical_len(self.bytes@),
            r <= NAME_LEN,
    {
        let mut i: usize = 0;
        while i < NAME_LEN && self.bytes[i] != 0
            invariant
                0 <= i <= NAME_LEN,
                self.bytes@.len() == NAME_LEN,
                first_zero_from(self.bytes@, i as int) == logical_len(self.bytes@),
            decreases NAME_LEN - i,
        {
            i += 1;
        }
        i
    }

    /// The bytes before the first zero byte.
    pub fn logical_bytes(&self) -> (r: &[u8])
        ensures
            r@ == logical_name(self.bytes@),
    {
        let n = self.len();
        let all = self.bytes.as_slice();
        slice_prefix(all, n)
    }

    /// Whether this name equals `query`, a name without padding, regardless
    /// of case.
    pub fn matches(&self, query: &[u8]) -> (r: bool)
        ensures
            r == same_name(logical_name(self.bytes@), query@),
    {
        same_bytes_ignore_case(self.logical_bytes(), query)
    }

    /// Whether two stored names hold the same name, regardless of case.
    pub fn eq_ignore_case(&self, other: &WadName) -> (r: bool)
        ensures
            r == same_name(logical_name(self.bytes@), logical_name(other.bytes@)),
    {
        same_bytes_ignore_case(self.logical_bytes(), other.logical_bytes())
    }
}

fn slice_prefix(s: &[u8], n: usize) -> (r: &[u8])
    requires
        n <= s@.len(),
    ensures
        r@ == s@.take(n as int),
{
    vstd::slice::slice_subrange(s, 0, n)
}

/// The name held by the stored bytes `raw`, checked to be printable ASCII
/// with nothing but zeros after it.
pub fn decode_name(raw: &[u8; 8]) -> (r: Result<Vec<u8>, WadError>)
    ensures
        r is Ok <==> name_valid(raw@),
        r is Ok ==> r->Ok_0@ == logical_name(raw@),
        r is Err ==> r->Err_0 == WadError::InvalidName,
{
    let name = WadName { bytes: *raw };
    let n = name.len();
    let mut out: Vec<u8> = Vec::new();
    let mut i: usize = 0;
    while i < NAME_LEN
        invariant
            0 <= i <= NAME_LEN,
            raw@.len() == NAME_LEN,
            n as int == logical_len(raw@),
            n <= NAME_LEN,
            out@ == raw@.take(if i < n { i as int } else { n as int }),
            forall|j: int| 0 <= j < i && j < n ==> is_printable(#[trigger] raw@[j]),
            forall|j: int| n <= j < i ==> #[trigger] raw@[j] == 0,
        decreases NAME_LEN - i,
    {
        let c = raw[i];
        if i < n {
            if !(0x20 <= c && c <= 0x7e) {
                return Err(WadError::InvalidName);
            }
            out.push(c);
            assert(out@ =~= raw@.take(i + 1));
        } else if c != 0 {
            return Err(WadError::InvalidName);
        }
        i += 1;
    }
    Ok(out)
}

/// The stored form of the name `name`: its bytes, then zeros up to eight.
pub fn encode_name(name: &[u8]) -> (r: Result<WadName, WadError>)
    ensures
        name@.len() > NAME_LEN ==> r == Err::<WadName, WadError>(WadError::NameTooLong),
        name@.len() <= NAME_LEN ==> (r is Ok <==> forall|i: int|
            0 <= i < name@.len() ==> is_printable(#[trigger] name@[i])),
        name@.len() <= NAME_LEN && r is Err ==> r->Err_0 == WadError::InvalidName,
        r is Ok ==> r->Ok_0.bytes@ == padded(name@),
{
    if name.len() > NAME_LEN {
        return Err(WadError::NameTooLong);
    }
    let mut bytes: [u8; 8] = [0u8; 8];
    let mut i: usize = 0;
    while i < name.len()
        invariant
            name@.len() <= NAME_LEN,
            0 <= i <= name@.len(),
            bytes@.len() == NAME_LEN,
            forall|j: int| 0 <= j < i ==> bytes@[j] == name@[j] && is_printable(name@[j]),
            forall|j: int| i <= j < NAME_LEN ==> bytes@[j] == 0,
        decreases name@.len() - i,
    {
        let c = name[i];
        if !(0x20 <= c && c <= 0x7e) {
            return Err(WadError::InvalidName);
        }
        bytes[i] = c;
        i += 1;
    }
    assert(bytes@ =~= padded(name@));
    Ok(WadName { bytes })
}

} // verus!
