//! Identifiers: random UUIDs written as 32 upper-case hexadecimal digits.
use vstd::prelude::*;
use vstd::string::StrSliceExecFns;

verus! {

/// A lower-case hexadecimal digit.
pub open spec fn is_lower_hex(c: char) -> bool {
    ('0' <= c && c <= '9') || ('a' <= c && c <= 'f')
}

/// An upper-case hexadecimal digit.
pub open spec fn is_upper_hex(c: char) -> bool {
    ('0' <= c && c <= '9') || ('A' <= c && c <= 'F')
}

/// Whether position `i` of a hyphenated UUID holds a hyphen.
pub open spec fn is_hyphen_position(i: int) -> bool {
    i == 8 || i == 13 || i == 18 || i == 23
}

/// A UUID in its hyphenated lower-case form: 36 characters, hyphens at
/// positions 8, 13, 18 and 23, lower-case hexadecimal digits elsewhere.
pub open spec fn is_hyphenated_uuid(s: Seq<char>) -> bool {
    &&& s.len() == 36
    &&& forall|i: int|
        0 <= i < 36 ==> if is_hyphen_position(i) {
            s[i] == '-'
        } else {
            is_lower_hex(#[trigger] s[i])
        }
}

/// `c` in upper case, for ASCII letters; other characters as they are.
pub open spec fn ascii_upper(c: char) -> char {
    if 'a' <= c && c <= 'z' {
        ((c as u32) - 32) as char
    } else {
        c
    }
}

/// `s` without its hyphens, with ASCII letters in upper case.
pub open spec fn compact_upper(s: Seq<char>) -> Seq<char>
    decreases s.len(),
{
    if s.len() == 0 {
        Seq::empty()
    } else if s.last() == '-' {
        compact_upper(s.drop_last())
    } else {
        compact_upper(s.drop_last()).push(ascii_upper(s.last()))
    }
}

/// A random (version 4) UUID in its hyphenated lower-case form: the version
/// digit 4 at position 14, and a variant digit of 8, 9, a or b at position 19.
pub open spec fn is_v4_uuid(s: Seq<char>) -> bool {
    &&& is_hyphenated_uuid(s)
    &&& s[14] == '4'
    &&& s[19] == '8' || s[19] == '9' || s[19] == 'a' || s[19] == 'b'
}

/// `uuid::Uuid::new_v4().to_string()`: a random UUID in its hyphenated
/// lower-case form, with the version and variant digits that `new_v4` sets.
/// Which UUID comes out is chance; every outcome has that form.
#[verifier::external_body]
fn random_hyphenated_uuid() -> (s: String)
    ensures
        is_v4_uuid(s@),
{
    uuid::Uuid::new_v4().to_string()
}

/// `String::from_iter` over characters.
#[verifier::external_body]
fn string_from_chars(chars: &Vec<char>) -> (s: String)
    ensures
        s@ == chars@,
{
    chars.iter().collect()
}

fn upper_char(c: char) -> (u: char)
    ensures
        u == ascii_upper(c),
{
    if 'a' <= c && c <= 'z' {
        ((c as u8) - 32) as char
    } else {
        c
    }
}

/// `s` without its hyphens, with ASCII letters in upper case.
pub fn remove_hyphens_upper(s: &str) -> (r: String)
    ensures
        r@ == compact_upper(s@),
{
    let n = s.unicode_len();
    let mut out: Vec<char> = Vec::new();
    let mut i: usize = 0;
    while i < n
        invariant
            n == s@.len(),
            i <= n,
            out@ == compact_upper(s@.take(i as int)),
        decreases n - i,
    {
        let c = s.get_char(i);
        assert(s@.take(i as int + 1).drop_last() =~= s@.take(i as int));
        if c != '-' {
            out.push(upper_char(c));
        }
        i = i + 1;
    }
    assert(s@.take(n as int) =~= s@);
    string_from_chars(&out)
}

/// The number of hyphen positions of a hyphenated UUID below `k`.
pub open spec fn hyphens_below(k: int) -> int {
    (if k > 8 {
        1int
    } else {
        0
    }) + (if k > 13 {
        1int
    } else {
        0
    }) + (if k > 18 {
        1int
    } else {
        0
    }) + (if k > 23 {
        1int
    } else {
        0
    })
}

proof fn lemma_compact_uuid_prefix(s: Seq<char>, k: int)
    requires
        is_hyphenated_uuid(s),
        0 <= k <= 36,
    ensures
        compact_upper(s.take(k)).len() == k - hyphens_below(k),
        forall|i: int| 0 <= i < compact_upper(s.take(k)).len() ==> is_upper_hex(#[trigger] compact_upper(s.take(k))[i]),
    decreases k,
{
    if k > 0 {
        lemma_compact_uuid_prefix(s, k - 1);
        assert(s.take(k).drop_last() =~= s.take(k - 1));
        assert(s.take(k).last() == s[k - 1]);
        if !is_hyphen_position(k - 1) {
            assert(is_lower_hex(s[k - 1]));
        }
    }
}

/// A hyphenated UUID, compacted, is 32 upper-case hexadecimal digits.
pub proof fn lemma_compact_uuid(s: Seq<char>)
    requires
        is_hyphenated_uuid(s),
    ensures
        compact_upper(s).len() == 32,
        forall|i: int| 0 <= i < 32 ==> is_upper_hex(#[trigger] compact_upper(s)[i]),
{
    lemma_compact_uuid_prefix(s, 36);
    assert(s.take(36) =~= s);
}

/// Compacting a prefix of a string gives a prefix of compacting a longer
/// prefix.
proof fn lemma_compact_prefix(s: Seq<char>, k: int, m: int)
    requires
        0 <= k <= m <= s.len(),
    ensures
        compact_upper(s.take(k)).len() <= compact_upper(s.take(m)).len(),
        compact_upper(s.take(m)).take(compact_upper(s.take(k)).len() as int) == compact_upper(s.take(k)),
    decreases m - k,
{
    if k < m {
        lemma_compact_prefix(s, k, m - 1);
        assert(s.take(m).drop_last() =~= s.take(m - 1));
        let a = compact_upper(s.take(k));
        let b = compact_upper(s.take(m - 1));
        if s.take(m).last() != '-' {
            assert(b.push(ascii_upper(s.take(m).last())).take(a.len() as int) =~= b.take(a.len() as int));
        }
    } else {
        assert(compact_upper(s.take(m)).take(compact_upper(s.take(m)).len() as int) =~= compact_upper(s.take(m)));
    }
}

/// In a compacted random UUID, the version digit is at position 12 and the
/// variant digit at position 16.
proof fn lemma_compact_v4(s: Seq<char>)
    requires
        is_v4_uuid(s),
    ensures
        compact_upper(s)[12] == '4',
        compact_upper(s)[16] == ascii_upper(s[19]),
{
    lemma_compact_uuid_prefix(s, 14);
    lemma_compact_uuid_prefix(s, 19);
    assert(s.take(15).drop_last() =~= s.take(14));
    assert(s.take(20).drop_last() =~= s.take(19));
    assert(s.take(36) =~= s);
    lemma_compact_prefix(s, 15, 36);
    lemma_compact_prefix(s, 20, 36);
    lemma_compact_uuid_prefix(s, 15);
    lemma_compact_uuid_prefix(s, 20);
    assert(compact_upper(s.take(15))[12] == compact_upper(s.take(36)).take(13)[12]);
    assert(compact_upper(s.take(20))[16] == compact_upper(s.take(36)).take(17)[16]);
}

/// A fresh random identifier: a random UUID without its hyphens, in upper
/// case, so 32 upper-case hexadecimal digits, with the version digit 4 at
/// position 12 and a variant digit of 8, 9, A or B at position 16.
pub fn generate_uuid() -> (id: String)
    ensures
        exists|u: Seq<char>| #[trigger] is_v4_uuid(u) && id@ == compact_upper(u),
        id@.len() == 32,
        forall|i: int| 0 <= i < 32 ==> is_upper_hex(#[trigger] id@[i]),
        id@[12] == '4',
        id@[16] == '8' || id@[16] == '9' || id@[16] == 'A' || id@[16] == 'B',
{
    let uuid = random_hyphenated_uuid();
    let id = remove_hyphens_upper(uuid.as_str());
    proof {
        lemma_compact_uuid(uuid@);
        lemma_compact_v4(uuid@);
    }
    id
}

} // verus!
