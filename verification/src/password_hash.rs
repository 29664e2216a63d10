use vstd::prelude::*;

verus! {

/// What `pwhash::bcrypt::verify` answers for a password and a stored hash.
pub uninterp spec fn bcrypt_verifies(pass: Seq<char>, hash: Seq<char>) -> bool;

/// `c` belongs to bcrypt's base-64 alphabet `./A-Za-z0-9`.
pub open spec fn is_bcrypt_base64_char(c: char) -> bool {
    c == '.' || c == '/' || ('A' <= c && c <= 'Z') || ('a' <= c && c <= 'z') || ('0' <= c
        && c <= '9')
}

/// The shape of every hash that `pwhash::bcrypt::hash` produces: 60
/// characters, the prefix `$2b$10$` (variant 2b, cost 10), then 22
/// characters of salt and 31 of checksum in bcrypt's base-64 alphabet.
pub open spec fn is_bcrypt_hash_text(h: Seq<char>) -> bool {
    &&& h.len() == 60
    &&& h.subrange(0, 7) == "$2b$10$"@
    &&& forall|i: int| 7 <= i < 60 ==> is_bcrypt_base64_char(#[trigger] h[i])
}

/// The number of bytes that `c` takes in UTF-8.
pub open spec fn utf8_width(c: char) -> int {
    if (c as u32) < 0x80 {
        1
    } else if (c as u32) < 0x800 {
        2
    } else if (c as u32) < 0x10000 {
        3
    } else {
        4
    }
}

/// `c` is an ASCII digit.
pub open spec fn is_ascii_digit(c: char) -> bool {
    '0' <= c && c <= '9'
}

/// The hash opens as pwhash's bcrypt parser accepts it before it reads the
/// salt: `$2a$`, `$2b$` or `$2y$`, two digits giving a cost from 4 to 31,
/// and `$`.
pub open spec fn bcrypt_header_accepted(h: Seq<char>) -> bool {
    &&& h.len() >= 7
    &&& h[0] == '$'
    &&& h[1] == '2'
    &&& (h[2] == 'a' || h[2] == 'b' || h[2] == 'y')
    &&& h[3] == '$'
    &&& is_ascii_digit(h[4])
    &&& is_ascii_digit(h[5])
    &&& 4 <= (h[4] as int - 48) * 10 + (h[5] as int - 48) <= 31
    &&& h[6] == '$'
}

/// Scans `h` from index `i` with `bytes` bytes counted, one character at a
/// time, until 22 bytes are counted or `h` ends; gives the index reached
/// and the bytes counted.
pub open spec fn salt_scan(h: Seq<char>, i: int, bytes: int) -> (int, int)
    decreases h.len() - i,
{
    if i < 0 || i >= h.len() || bytes >= 22 {
        (i, bytes)
    } else {
        salt_scan(h, i + 1, bytes + utf8_width(h[i]))
    }
}

/// The first index from `i` on, below `k`, whose character is outside
/// bcrypt's base-64 alphabet; `k` where there is none.
pub open spec fn first_non_base64(h: Seq<char>, i: int, k: int) -> int
    decreases k - i,
{
    if i >= k {
        k
    } else if !is_bcrypt_base64_char(h[i]) {
        i
    } else {
        first_non_base64(h, i + 1, k)
    }
}

/// `pwhash::bcrypt::verify` panics on the stored hash `h`. It reads the
/// header; where the header is accepted it takes the next 22 bytes as the
/// salt (these must end on a character boundary); it decodes the salt
/// character by character and stops at the first character outside the
/// base-64 alphabet. It panics where that character is U+0080 (an index
/// one past its 96-entry table) and, in builds with overflow checks, where
/// it is below U+0020 (a subtraction that underflows; without overflow
/// checks that character makes `verify` answer false). Every other hash is
/// answered without a panic.
pub open spec fn bcrypt_verify_panics(h: Seq<char>) -> bool {
    let (k, bytes) = salt_scan(h, 7, 0);
    let j = first_non_base64(h, 7, k);
    &&& bcrypt_header_accepted(h)
    &&& bytes == 22
    &&& j < k
    &&& ((h[j] as u32) < 0x20 || h[j] as u32 == 0x80)
}

#[verifier::external_type_specification]
#[verifier::external_body]
pub struct ExPwhashError(pwhash::error::Error);

/// Calls `pwhash::bcrypt::verify`, which recomputes the hash of `pass` with
/// the variant, cost and salt read from `hash` and compares the two strings.
/// Its answer depends on the two arguments alone and is named
/// `bcrypt_verifies`. `requires` leaves out the stored hashes on which its
/// salt decoder panics, as `bcrypt_verify_panics` states them.
#[verifier::external_body]
pub(crate) fn bcrypt_verify(pass: &String, hash: &String) -> (res: bool)
    requires
        !bcrypt_verify_panics(hash@),
    ensures
        res == bcrypt_verifies(pass@, hash@),
{
    pwhash::bcrypt::verify(pass.as_str(), hash.as_str())
}

/// Calls `pwhash::bcrypt::hash`, which hashes `pass` with a fresh random
/// salt, the default cost 10 and the `2b` variant. The salt makes the
/// string itself unpredictable; the crate's source shows three facts about
/// it: the call returns `Ok` (the hashing step cannot fail once a salt was
/// drawn); the result is `$2b$10$` followed by the base-64 encodings of the
/// 16 salt bytes (22 characters) and of 23 checksum bytes (31 characters);
/// and `verify` accepts `pass` against the result, since it recomputes the
/// hash with the salt, cost and variant that the result carries.
#[verifier::external_body]
pub(crate) fn bcrypt_hash(pass: &String) -> (res: Result<String, pwhash::error::Error>)
    ensures
        res is Ok,
        res matches Ok(h) ==> bcrypt_verifies(pass@, h@),
        res matches Ok(h) ==> is_bcrypt_hash_text(h@),
{
    pwhash::bcrypt::hash(pass.as_str())
}

/// The salt scan ends within `h` and no earlier than where it starts.
proof fn lemma_salt_scan_bounds(h: Seq<char>, i: int, bytes: int)
    requires
        0 <= i <= h.len(),
    ensures
        i <= salt_scan(h, i, bytes).0 <= h.len(),
    decreases h.len() - i,
{
    if i < h.len() && bytes < 22 {
        lemma_salt_scan_bounds(h, i + 1, bytes + utf8_width(h[i]));
    }
}

/// Where every character from `i` to `k` is in the base-64 alphabet, the
/// search for one outside it reaches `k`.
proof fn lemma_first_non_base64_none(h: Seq<char>, i: int, k: int)
    requires
        i <= k,
        forall|m: int| i <= m < k ==> is_bcrypt_base64_char(#[trigger] h[m]),
    ensures
        first_non_base64(h, i, k) == k,
    decreases k - i,
{
    if i < k {
        lemma_first_non_base64_none(h, i + 1, k);
    }
}

/// A hash of the bcrypt shape starts with `$`, and the verifier reads it
/// without panicking.
pub proof fn lemma_bcrypt_hash_text(h: Seq<char>)
    requires
        is_bcrypt_hash_text(h),
    ensures
        !bcrypt_verify_panics(h),
        h[0] == '$',
{
    reveal_strlit("$2b$10$");
    assert(h[0] == h.subrange(0, 7)[0]);
    lemma_salt_scan_bounds(h, 7, 0);
    let k = salt_scan(h, 7, 0).0;
    lemma_first_non_base64_none(h, 7, k);
}

/// Whether `pwhash::bcrypt::verify` panics on the stored hash `hash`.
pub fn verify_panics_on(hash: &String) -> (res: bool)
    ensures
        res == bcrypt_verify_panics(hash@),
{
    let h = hash.as_str();
    let n = h.unicode_len();
    if n < 7 {
        return false;
    }
    let c0 = h.get_char(0);
    let c1 = h.get_char(1);
    let c2 = h.get_char(2);
    let c3 = h.get_char(3);
    let c4 = h.get_char(4);
    let c5 = h.get_char(5);
    let c6 = h.get_char(6);
    if !(c0 == '$' && c1 == '2' && (c2 == 'a' || c2 == 'b' || c2 == 'y') && c3 == '$' && '0'
        <= c4 && c4 <= '9' && '0' <= c5 && c5 <= '9' && c6 == '$') {
        return false;
    }
    let cost: u32 = (c4 as u32 - 48) * 10 + (c5 as u32 - 48);
    if cost < 4 || cost > 31 {
        return false;
    }
    let mut i: usize = 7;
    let mut bytes: usize = 0;
    while i < n && bytes < 22
        invariant
            h@ == hash@,
            n == h@.len(),
            7 <= i <= n,
            bytes < 26,
            salt_scan(h@, i as int, bytes as int) == salt_scan(h@, 7, 0),
        decreases n - i,
    {
        let c = h.get_char(i);
        let w: usize = if (c as u32) < 0x80 {
            1
        } else if (c as u32) < 0x800 {
            2
        } else if (c as u32) < 0x10000 {
            3
        } else {
            4
        };
        bytes = bytes + w;
        i = i + 1;
    }
    if bytes != 22 {
        return false;
    }
    let k = i;
    assert(salt_scan(h@, 7, 0) == (k as int, 22int));
    let mut j: usize = 7;
    while j < k
        invariant
            h@ == hash@,
            n == h@.len(),
            salt_scan(h@, 7, 0) == (k as int, 22int),
            bcrypt_header_accepted(h@),
            7 <= j <= k <= n,
            first_non_base64(h@, j as int, k as int) == first_non_base64(h@, 7, k as int),
        decreases k - j,
    {
        let c = h.get_char(j);
        let in_alphabet = c == '.' || c == '/' || ('A' <= c && c <= 'Z') || ('a' <= c && c <= 'z')
            || ('0' <= c && c <= '9');
        if !in_alphabet {
            assert(first_non_base64(h@, j as int, k as int) == j as int);
            return (c as u32) < 0x20 || c as u32 == 0x80;
        }
        j = j + 1;
    }
    false
}

} // verus!
