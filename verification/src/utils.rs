//! Helpers shared by the compression operations: size accounting over
//! filesystem trees, human-readable size formatting, and byte-counting
//! wrappers for writers and readers.

use vstd::prelude::*;

use crate::error::AppError;
use core::cell::RefCell;
use std::rc::Rc;

verus! {

// ---------------------------------------------------------------------------
// Decimal representation of unsigned integers.
// ---------------------------------------------------------------------------

/// The character for one decimal digit.
pub open spec fn digit_char(d: int) -> char {
    if d == 0 {
        '0'
    } else if d == 1 {
        '1'
    } else if d == 2 {
        '2'
    } else if d == 3 {
        '3'
    } else if d == 4 {
        '4'
    } else if d == 5 {
        '5'
    } else if d == 6 {
        '6'
    } else if d == 7 {
        '7'
    } else if d == 8 {
        '8'
    } else {
        '9'
    }
}

/// The usual decimal spelling of `n`, most significant digit first,
/// without leading zeroes (except for `n == 0` itself).
pub open spec fn dec_rep(n: nat) -> Seq<char>
    decreases n,
{
    if n < 10 {
        seq![digit_char(n as int)]
    } else {
        dec_rep(n / 10) + seq![digit_char((n % 10) as int)]
    }
}

/// The one-character string for a decimal digit.
fn digit_str(d: u64) -> (s: &'static str)
    requires
        d < 10,
    ensures
        s@ == seq![digit_char(d as int)],
{
    proof {
        reveal_strlit("0");
        reveal_strlit("1");
        reveal_strlit("2");
        reveal_strlit("3");
        reveal_strlit("4");
        reveal_strlit("5");
        reveal_strlit("6");
        reveal_strlit("7");
        reveal_strlit("8");
        reveal_strlit("9");
    }
    if d == 0 {
        "0"
    } else if d == 1 {
        "1"
    } else if d == 2 {
        "2"
    } else if d == 3 {
        "3"
    } else if d == 4 {
        "4"
    } else if d == 5 {
        "5"
    } else if d == 6 {
        "6"
    } else if d == 7 {
        "7"
    } else if d == 8 {
        "8"
    } else {
        "9"
    }
}

/// Formats `n` in decimal.
pub fn u64_to_decimal(n: u64) -> (s: String)
    ensures
        s@ == dec_rep(n as nat),
    decreases n,
{
    if n < 10 {
        digit_str(n).to_owned()
    } else {
        let mut s = u64_to_decimal(n / 10);
        s.append(digit_str(n % 10));
        proof {
            assert(s@ =~= dec_rep(n as nat));
        }
        s
    }
}

// ---------------------------------------------------------------------------
// Text comparison and search.
// ---------------------------------------------------------------------------

/// Whether two pieces of text spell the same characters.
pub fn str_eq(a: &str, b: &str) -> (r: bool)
    ensures
        r == (a@ == b@),
{
    let n = a.unicode_len();
    let m = b.unicode_len();
    if n != m {
        return false;
    }
    let mut i: usize = 0;
    while i < n
        invariant
            n == a@.len(),
            n == b@.len(),
            i <= n,
            forall|j: int| 0 <= j < i ==> a@[j] == b@[j],
        decreases n - i,
    {
        let ca = a.get_char(i);
        let cb = b.get_char(i);
        if ca != cb {
            return false;
        }
        i = i + 1;
    }
    proof {
        assert(a@ =~= b@);
    }
    true
}

/// Whether `p` occurs in `s` starting at some position.
pub open spec fn contains_seq(s: Seq<char>, p: Seq<char>) -> bool {
    exists|i: int| 0 <= i <= s.len() - p.len() && #[trigger] s.subrange(i, i + p.len()) == p
}

/// Whether `p` stands in `s` exactly at position `i`.
pub(crate) fn match_at(s: &str, p: &str, i: usize) -> (r: bool)
    requires
        i + p@.len() <= s@.len(),
    ensures
        r == (s@.subrange(i as int, i + p@.len()) == p@),
{
    let n = s.unicode_len();
    let m = p.unicode_len();
    let mut j: usize = 0;
    while j < m
        invariant
            j <= m,
            m == p@.len(),
            n == s@.len(),
            i + m <= n,
            forall|t: int| 0 <= t < j ==> s@[i + t] == p@[t],
        decreases m - j,
    {
        let cs = s.get_char(i + j);
        let cp = p.get_char(j);
        if cs != cp {
            proof {
                assert(s@.subrange(i as int, i + p@.len())[j as int] == s@[i + j]);
            }
            return false;
        }
        j = j + 1;
    }
    proof {
        assert(s@.subrange(i as int, i + p@.len()) =~= p@);
    }
    true
}

/// Whether the text `p` occurs anywhere in the text `s`.
pub fn contains_str(s: &str, p: &str) -> (r: bool)
    ensures
        r == contains_seq(s@, p@),
{
    let n = s.unicode_len();
    let m = p.unicode_len();
    if m > n {
        return false;
    }
    if m == 0 {
        proof {
            assert(s@.subrange(0, 0 + p@.len() as int) =~= p@);
        }
        return true;
    }
    let mut i: usize = 0;
    while i <= n - m
        invariant
            1 <= m <= n,
            n == s@.len(),
            m == p@.len(),
            i <= n - m + 1,
            forall|k: int| 0 <= k < i ==> #[trigger] s@.subrange(k, k + p@.len()) != p@,
        decreases n + 1 - m - i,
    {
        if match_at(s, p, i) {
            return true;
        }
        i = i + 1;
    }
    false
}

// ---------------------------------------------------------------------------
// Sums of byte lengths.
// ---------------------------------------------------------------------------

/// The mathematical sum of a sequence of byte lengths.
pub open spec fn sum_seq(s: Seq<u64>) -> int
    decreases s.len(),
{
    if s.len() == 0 {
        0
    } else {
        sum_seq(s.drop_last()) + s.last()
    }
}

/// Summing distributes over concatenation.
pub proof fn lemma_sum_seq_concat(a: Seq<u64>, b: Seq<u64>)
    ensures
        sum_seq(a + b) == sum_seq(a) + sum_seq(b),
    decreases b.len(),
{
    if b.len() == 0 {
        assert(a + b =~= a);
    } else {
        lemma_sum_seq_concat(a, b.drop_last());
        assert((a + b).drop_last() =~= a + b.drop_last());
        assert((a + b).last() == b.last());
    }
}

/// Removing one element takes exactly its value out of the sum.
pub proof fn lemma_sum_seq_remove(s: Seq<u64>, i: int)
    requires
        0 <= i < s.len(),
    ensures
        sum_seq(s) == sum_seq(s.remove(i)) + s[i],
    decreases s.len(),
{
    if i == s.len() - 1 {
        assert(s.remove(i) =~= s.drop_last());
    } else {
        assert(s.remove(i).drop_last() =~= s.drop_last().remove(i));
        assert(s.remove(i).last() == s.last());
        lemma_sum_seq_remove(s.drop_last(), i);
    }
}

/// The sum of a sequence of byte lengths does not depend on the order of
/// the sequence: two traversals that find the same lengths, however
/// arranged, total the same number of bytes.
pub proof fn lemma_sum_seq_permutation(s1: Seq<u64>, s2: Seq<u64>)
    requires
        s1.to_multiset() == s2.to_multiset(),
    ensures
        sum_seq(s1) == sum_seq(s2),
    decreases s1.len(),
{
    broadcast use vstd::seq_lib::group_to_multiset_ensures;

    if s1.len() == 0 {
        assert(s2.to_multiset().len() == 0);
    } else {
        let x = s1.last();
        assert(s1[s1.len() - 1] == x);
        assert(s1.to_multiset().count(x) > 0);
        assert(s2.to_multiset().count(x) > 0);
        assert(s2.contains(x));
        let i = choose|i: int| 0 <= i < s2.len() && s2[i] == x;
        let s1p = s1.drop_last();
        let s2p = s2.remove(i);
        assert(s1p =~= s1.remove(s1.len() - 1));
        assert(s1p.to_multiset() =~= s1.to_multiset().remove(x));
        assert(s2p.to_multiset() =~= s2.to_multiset().remove(x));
        lemma_sum_seq_permutation(s1p, s2p);
        lemma_sum_seq_remove(s2, i);
    }
}

// ---------------------------------------------------------------------------
// Human-readable sizes.
// ---------------------------------------------------------------------------

/// `num / den` rounded to the nearest integer, ties going to the even
/// neighbour: the rounding applied when a value is displayed with a fixed
/// number of decimals.
pub open spec fn rhe_div(num: nat, den: nat) -> nat
    recommends
        den > 0,
{
    let q = num / den;
    let r = num % den;
    if 2 * r > den || (2 * r == den && q % 2 == 1) {
        (q + 1) as nat
    } else {
        q
    }
}

/// The spacing exponent of the 53-significant-bit binary values around `n`:
/// once converted for display, a byte count near `n` is a multiple of
/// `pow2(spacing53(n))`.
pub open spec fn spacing53(n: nat) -> nat {
    if n < 0x20000000000000 {
        0
    } else if n < 0x40000000000000 {
        1
    } else if n < 0x80000000000000 {
        2
    } else if n < 0x100000000000000 {
        3
    } else if n < 0x200000000000000 {
        4
    } else if n < 0x400000000000000 {
        5
    } else if n < 0x800000000000000 {
        6
    } else if n < 0x1000000000000000 {
        7
    } else if n < 0x2000000000000000 {
        8
    } else if n < 0x4000000000000000 {
        9
    } else if n < 0x8000000000000000 {
        10
    } else {
        11
    }
}

/// `n` rounded to 53 significant binary digits, nearest, ties to even: the
/// exact value that a 64-bit byte count carries once converted to the
/// 53-bit-mantissa form in which it is divided and displayed.
pub open spec fn nearest53(n: nat) -> nat {
    rhe_div(n, vstd::arithmetic::power2::pow2(spacing53(n))) * vstd::arithmetic::power2::pow2(
        spacing53(n),
    )
}

/// The divisor exponent of the unit tier for `n` bytes: the smallest binary
/// unit (KB, MB, GB, TB) whose threshold `n` stays under, and PB above all
/// of them.
pub open spec fn tier_exp(n: nat) -> nat
    recommends
        n >= 1024,
{
    if n < 0x100000 {
        10
    } else if n < 0x40000000 {
        20
    } else if n < 0x10000000000 {
        30
    } else if n < 0x4000000000000 {
        40
    } else {
        50
    }
}

/// The unit suffix printed for a tier.
pub open spec fn unit_suffix(e: nat) -> Seq<char> {
    if e == 10 {
        seq![' ', 'K', 'B']
    } else if e == 20 {
        seq![' ', 'M', 'B']
    } else if e == 30 {
        seq![' ', 'G', 'B']
    } else if e == 40 {
        seq![' ', 'T', 'B']
    } else {
        seq![' ', 'P', 'B']
    }
}

/// The hundredths of the tier-scaled value displayed for `n` bytes.
pub open spec fn hundredths(n: nat) -> nat
    recommends
        n >= 1024,
{
    rhe_div(100 * nearest53(n), vstd::arithmetic::power2::pow2(tier_exp(n)))
}

/// The exact text that `h_size` produces for `n` bytes: the plain byte count
/// below 1024, and otherwise the tier-scaled value with two decimals and the
/// tier's unit.
pub open spec fn hsize_spec(n: nat) -> Seq<char> {
    if n < 1024 {
        dec_rep(n) + seq![' ', 'B']
    } else {
        let h = hundredths(n);
        dec_rep(h / 100) + seq!['.'] + seq![
            digit_char(((h / 10) % 10) as int),
            digit_char((h % 10) as int),
        ] + unit_suffix(tier_exp(n))
    }
}

/// Scaling numerator and denominator alike changes nothing about the
/// rounded quotient.
proof fn lemma_rhe_scale(num: nat, den: nat, k: nat)
    requires
        den > 0,
        k > 0,
    ensures
        rhe_div(num * k, den * k) == rhe_div(num, den),
{
    let q = num / den;
    let r = num % den;
    vstd::arithmetic::div_mod::lemma_fundamental_div_mod(num as int, den as int);
    assert(num * k == q * (den * k) + r * k) by (nonlinear_arith)
        requires
            num == den * q + r,
    ;
    assert(r * k < den * k) by (nonlinear_arith)
        requires
            r < den,
            k > 0,
    ;
    vstd::arithmetic::div_mod::lemma_fundamental_div_mod_converse_div(
        (num * k) as int,
        (den * k) as int,
        q as int,
        (r * k) as int,
    );
    vstd::arithmetic::div_mod::lemma_fundamental_div_mod_converse_mod(
        (num * k) as int,
        (den * k) as int,
        q as int,
        (r * k) as int,
    );
    assert((2 * (r * k) > den * k <==> 2 * r > den) && (2 * (r * k) == den * k <==> 2 * r == den))
        by (nonlinear_arith)
        requires
            k > 0,
    ;
}

/// Two raised to the power `e`.
fn pow2_u64(e: u64) -> (r: u64)
    requires
        e <= 63,
    ensures
        r as nat == vstd::arithmetic::power2::pow2(e as nat),
        r >= 1,
{
    proof {
        vstd::arithmetic::power2::lemma2_to64();
        vstd::arithmetic::power2::lemma2_to64_rest();
    }
    let mut r: u64 = 1;
    let mut i: u64 = 0;
    while i < e
        invariant
            i <= e <= 63,
            r as nat == vstd::arithmetic::power2::pow2(i as nat),
        decreases e - i,
    {
        proof {
            vstd::arithmetic::power2::lemma2_to64();
            vstd::arithmetic::power2::lemma2_to64_rest();
            if i < 63 {
                vstd::arithmetic::power2::lemma_pow2_strictly_increases(i as nat, 63);
            }
            vstd::arithmetic::power2::lemma_pow2_adds(i as nat, 1);
        }
        r = r * 2;
        i = i + 1;
    }
    r
}

/// Formats a byte count for people: plain bytes below 1024, otherwise a
/// two-decimal value in the smallest fitting binary unit among KB, MB, GB
/// and TB, with PB above them all.
#[verifier::rlimit(100)]
pub fn h_size(size_bytes: u64) -> (s: String)
    ensures
        s@ == hsize_spec(size_bytes as nat),
{
    proof {
        vstd::arithmetic::power2::lemma2_to64();
        vstd::arithmetic::power2::lemma2_to64_rest();
    }
    if size_bytes < 1024 {
        let mut s = u64_to_decimal(size_bytes);
        s.append(" B");
        proof {
            reveal_strlit(" B");
            assert(s@ =~= hsize_spec(size_bytes as nat));
        }
        return s;
    }
    let e: u64 = if size_bytes < 0x100000 {
        10
    } else if size_bytes < 0x40000000 {
        20
    } else if size_bytes < 0x10000000000 {
        30
    } else if size_bytes < 0x4000000000000 {
        40
    } else {
        50
    };
    let sh: u64 = if size_bytes < 0x20000000000000 {
        0
    } else if size_bytes < 0x40000000000000 {
        1
    } else if size_bytes < 0x80000000000000 {
        2
    } else if size_bytes < 0x100000000000000 {
        3
    } else if size_bytes < 0x200000000000000 {
        4
    } else if size_bytes < 0x400000000000000 {
        5
    } else if size_bytes < 0x800000000000000 {
        6
    } else if size_bytes < 0x1000000000000000 {
        7
    } else if size_bytes < 0x2000000000000000 {
        8
    } else if size_bytes < 0x4000000000000000 {
        9
    } else if size_bytes < 0x8000000000000000 {
        10
    } else {
        11
    };
    proof {
        assert(sh as nat == spacing53(size_bytes as nat));
        assert(e as nat == tier_exp(size_bytes as nat));
    }
    let p = pow2_u64(sh);
    let q = size_bytes / p;
    let r = size_bytes % p;
    proof {
        vstd::arithmetic::div_mod::lemma_fundamental_div_mod(size_bytes as int, p as int);
        assert(size_bytes < 0x20000000000000 * (p as nat)) by (nonlinear_arith)
            requires
                (size_bytes as nat) < vstd::arithmetic::power2::pow2((53 + sh) as nat),
                p as nat == vstd::arithmetic::power2::pow2(sh as nat),
                vstd::arithmetic::power2::pow2((53 + sh) as nat) == 0x20000000000000 * (
                vstd::arithmetic::power2::pow2(sh as nat)),
        {
            vstd::arithmetic::power2::lemma_pow2_adds(53, sh as nat);
            vstd::arithmetic::power2::lemma2_to64();
            vstd::arithmetic::power2::lemma2_to64_rest();
        }
        assert(q <= 0x20000000000000) by (nonlinear_arith)
            requires
                size_bytes == (p as int) * (q as int) + (r as int),
                0 <= r < p,
                p >= 1,
                (size_bytes as nat) < 0x20000000000000 * (p as nat),
        ;
    }
    let rq: u64 = if 2 * r > p || (2 * r == p && q % 2 == 1) {
        q + 1
    } else {
        q
    };
    let d = e - sh;
    let den = pow2_u64(d);
    let num = 100 * rq;
    let quo = num / den;
    let rem = num % den;
    let h: u64 = if 2 * rem > den || (2 * rem == den && quo % 2 == 1) {
        quo + 1
    } else {
        quo
    };
    proof {
        let n = size_bytes as nat;
        let ps = vstd::arithmetic::power2::pow2(sh as nat);
        assert(rq as nat == rhe_div(n, ps));
        vstd::arithmetic::power2::lemma_pow2_adds(d as nat, sh as nat);
        assert(100 * nearest53(n) == (100 * rq as nat) * ps) by (nonlinear_arith)
            requires
                nearest53(n) == rhe_div(n, ps) * ps,
                rq as nat == rhe_div(n, ps),
        ;
        lemma_rhe_scale(100 * rq as nat, den as nat, ps);
        assert(h as nat == hundredths(n));
    }
    let mut s = u64_to_decimal(h / 100);
    s.append(".");
    s.append(digit_str((h / 10) % 10));
    s.append(digit_str(h % 10));
    if e == 10 {
        s.append(" KB");
    } else if e == 20 {
        s.append(" MB");
    } else if e == 30 {
        s.append(" GB");
    } else if e == 40 {
        s.append(" TB");
    } else {
        s.append(" PB");
    }
    proof {
        reveal_strlit(".");
        reveal_strlit(" KB");
        reveal_strlit(" MB");
        reveal_strlit(" GB");
        reveal_strlit(" TB");
        reveal_strlit(" PB");
        assert(s@ =~= hsize_spec(size_bytes as nat));
    }
    s
}

// ---------------------------------------------------------------------------
// Filesystem size accounting.
// ---------------------------------------------------------------------------

/// The sum of a sequence of byte lengths is never negative.
pub proof fn lemma_sum_seq_nonneg(s: Seq<u64>)
    ensures
        sum_seq(s) >= 0,
    decreases s.len(),
{
    if s.len() > 0 {
        lemma_sum_seq_nonneg(s.drop_last());
    }
}

/// Adds up byte lengths, reporting `None` when the exact total does not fit
/// in a `u64`.
pub fn total_of_lens(lens: &Vec<u64>) -> (r: Option<u64>)
    ensures
        r is Some <==> sum_seq(lens@) <= u64::MAX,
        r matches Some(t) ==> t as int == sum_seq(lens@),
{
    let mut total: u64 = 0;
    let mut i: usize = 0;
    while i < lens.len()
        invariant
            i <= lens@.len(),
            total as int == sum_seq(lens@.take(i as int)),
        decreases lens@.len() - i,
    {
        let l = lens[i];
        proof {
            assert(lens@.take(i + 1).drop_last() =~= lens@.take(i as int));
            assert(lens@.take(i + 1).last() == lens@[i as int]);
            assert(lens@ =~= lens@.take(i + 1) + lens@.skip(i + 1));
            lemma_sum_seq_concat(lens@.take(i + 1), lens@.skip(i + 1));
            lemma_sum_seq_nonneg(lens@.skip(i + 1));
        }
        if total <= u64::MAX - l {
            total = total + l;
            i = i + 1;
        } else {
            return None;
        }
    }
    proof {
        assert(lens@.take(i as int) =~= lens@);
    }
    Some(total)
}

/// Relies on walkdir::WalkDir: walks the tree rooted at `path` recursively
/// and hands every entry back, readable ones as entries and unreadable ones
/// as their failure text, in traversal order.
#[verifier::external_body]
pub(crate) fn walk_entries(path: &String) -> Vec<Result<walkdir::DirEntry, String>> {
    walkdir::WalkDir::new(path).into_iter().map(|r| r.map_err(|e| e.to_string())).collect()
}

/// Relies on walkdir::DirEntry::file_type: whether the entry is a regular
/// file (not a directory and not followed as a symlink).
#[verifier::external_body]
pub(crate) fn entry_is_file(entry: &walkdir::DirEntry) -> bool {
    entry.file_type().is_file()
}

/// Relies on walkdir::DirEntry::metadata: the entry's length in bytes, or
/// the failure text when the metadata cannot be read.
#[verifier::external_body]
pub(crate) fn entry_len(entry: &walkdir::DirEntry) -> Result<u64, String> {
    entry.metadata().map(|m| m.len()).map_err(|e| e.to_string())
}

/// Relies on std::path::Path::is_file: whether `path` names a regular file.
#[verifier::external_body]
pub(crate) fn path_is_file(path: &String) -> bool {
    std::path::Path::new(path).is_file()
}

/// Relies on std::path::Path::is_dir: whether `path` names a directory.
#[verifier::external_body]
pub(crate) fn path_is_dir(path: &String) -> bool {
    std::path::Path::new(path).is_dir()
}

/// Relies on std::path::Path::metadata: the length in bytes of the file at
/// `path`, or the failure text.
#[verifier::external_body]
pub(crate) fn path_file_len(path: &String) -> Result<u64, String> {
    std::path::Path::new(path).metadata().map(|m| m.len()).map_err(|e| e.to_string())
}

/// Relies on std::path::Path::exists: whether anything exists at `path`.
#[verifier::external_body]
pub(crate) fn path_exists_fs(path: &String) -> bool {
    std::path::Path::new(path).exists()
}

/// Relies on std::time::SystemTime::now: the wall clock, as whole
/// milliseconds since the Unix epoch; zero for a clock set before it.
#[verifier::external_body]
pub(crate) fn now_millis() -> u64 {
    match std::time::SystemTime::now().duration_since(std::time::UNIX_EPOCH) {
        Ok(d) => d.as_millis() as u64,
        Err(_) => 0,
    }
}

/// Relies on fs_err::write: creates or truncates the file at `path` and
/// writes all the given bytes to it, or reports the failure text.
#[verifier::external_body]
pub(crate) fn write_file_bytes(path: &String, bytes: &Vec<u8>) -> Result<(), String> {
    fs_err::write(path, bytes).map_err(|e| e.to_string())
}

/// The walkdir type that carries one walked entry; opaque here, read only
/// through the entry wrappers above.
#[verifier::external_type_specification]
#[verifier::external_body]
pub struct ExDirEntry(walkdir::DirEntry);

/// Collects the byte lengths of the regular files among walked entries,
/// stopping at the first unreadable one.
fn lens_of_entries(entries: &Vec<Result<walkdir::DirEntry, String>>) -> (r: Result<
    Vec<u64>,
    AppError,
>)
    ensures
        r matches Err(e) ==> e is FsError,
{
    let mut lens: Vec<u64> = Vec::new();
    let mut i: usize = 0;
    while i < entries.len()
        decreases entries@.len() - i,
    {
        match &entries[i] {
            Ok(entry) => {
                if entry_is_file(entry) {
                    match entry_len(entry) {
                        Ok(l) => lens.push(l),
                        Err(m) => {
                            return Err(AppError::FsError(m));
                        },
                    }
                }
            },
            Err(m) => {
                return Err(AppError::FsError(m.clone()));
            },
        }
        i = i + 1;
    }
    Ok(lens)
}

/// Total size in bytes of the given path: the file's own length for a
/// regular file, and the sum of the lengths of all regular files found by a
/// full recursive traversal for a directory; anything else is rejected.
/// Every failure is reported as a filesystem error.
pub fn size_of(path: &String) -> (r: Result<u64, AppError>)
    ensures
        r matches Err(e) ==> e is FsError,
{
    if path_is_file(path) {
        match path_file_len(path) {
            Ok(n) => Ok(n),
            Err(m) => Err(AppError::FsError(m)),
        }
    } else if path_is_dir(path) {
        let entries = walk_entries(path);
        let lens = match lens_of_entries(&entries) {
            Ok(lens) => lens,
            Err(e) => {
                return Err(e);
            },
        };
        match total_of_lens(&lens) {
            Some(total) => Ok(total),
            None => Err(AppError::FsError("Total size exceeds the largest byte count.".to_owned())),
        }
    } else {
        Err(AppError::FsError("The input path is not a file.".to_owned()))
    }
}

/// Total size in bytes over an ordered sequence of root paths, stopping at
/// the first root that cannot be sized. The per-root sizes are gathered
/// first and then added up by `total_of_lens`, whose contract makes the
/// result their exact mathematical sum; by `lemma_sum_seq_permutation`
/// that sum does not depend on the order in which the sizes were found.
pub fn size_of_inarray(paths: &Vec<String>) -> (r: Result<u64, AppError>)
    ensures
        paths@.len() == 0 ==> r == Result::<u64, AppError>::Ok(0),
        r matches Err(e) ==> e is FsError,
{
    let mut sizes: Vec<u64> = Vec::new();
    let mut i: usize = 0;
    while i < paths.len()
        invariant
            i <= paths@.len(),
            sizes@.len() == i,
        decreases paths@.len() - i,
    {
        match size_of(&paths[i]) {
            Ok(n) => sizes.push(n),
            Err(e) => {
                return Err(e);
            },
        }
        i = i + 1;
    }
    match total_of_lens(&sizes) {
        Some(total) => {
            proof {
                if paths@.len() == 0 {
                    assert(sizes@ =~= Seq::<u64>::empty());
                }
            }
            Ok(total)
        },
        None => Err(AppError::FsError("Total size exceeds the largest byte count.".to_owned())),
    }
}

// ---------------------------------------------------------------------------
// Byte-counting writers and readers.
// ---------------------------------------------------------------------------

/// The standard shared-mutability cell; opaque here, touched only through
/// the cell wrappers below.
#[verifier::external_type_specification]
#[verifier::external_body]
#[verifier::reject_recursive_types(T)]
pub struct ExRefCell<T: ?Sized>(RefCell<T>);

/// The standard error of input and output calls; carried through unchanged.
#[verifier::external_type_specification]
#[verifier::external_body]
pub struct ExIoError(std::io::Error);

/// The standard description of a seek target; carried through unchanged.
#[verifier::external_type_specification]
#[verifier::external_body]
pub struct ExSeekFrom(std::io::SeekFrom);

/// Relies on RefCell::new: wraps a value in a fresh cell.
#[verifier::external_body]
fn cell_wrap<T>(value: T) -> RefCell<T> {
    RefCell::new(value)
}

/// Relies on RefCell::into_inner: takes the value back out of a cell.
#[verifier::external_body]
fn cell_unwrap<T>(cell: RefCell<T>) -> T {
    cell.into_inner()
}

/// Relies on Rc::clone: a second handle to the same shared value.
#[verifier::external_body]
fn rc_clone<T>(rc: &Rc<T>) -> (r: Rc<T>)
    ensures
        r == *rc,
{
    Rc::clone(rc)
}

/// Relies on RefCell::borrow: the value now held by the shared cell.
#[verifier::external_body]
fn cell_get(cell: &Rc<RefCell<u64>>) -> u64 {
    *cell.borrow()
}

/// Relies on RefCell::borrow_mut: stores `value` into the shared cell.
#[verifier::external_body]
fn cell_put(cell: &Rc<RefCell<u64>>, value: u64) {
    *cell.borrow_mut() = value;
}

/// Relies on std::io::Write::write, whose documentation promises that a
/// successful call transfers no more than `buf.len()` bytes.
#[verifier::external_body]
fn write_shared<W: std::io::Write>(w: &Rc<RefCell<W>>, buf: &[u8]) -> (r: Result<
    usize,
    std::io::Error,
>)
    ensures
        r matches Ok(n) ==> n <= buf@.len(),
{
    w.borrow_mut().write(buf)
}

/// Relies on std::io::Write::flush.
#[verifier::external_body]
fn flush_shared<W: std::io::Write>(w: &Rc<RefCell<W>>) -> Result<(), std::io::Error> {
    w.borrow_mut().flush()
}

/// Relies on std::io::Seek::seek: moves the cursor only; no payload byte is
/// read or written.
#[verifier::external_body]
fn seek_shared<W: std::io::Seek>(w: &Rc<RefCell<W>>, pos: std::io::SeekFrom) -> Result<
    u64,
    std::io::Error,
> {
    w.borrow_mut().seek(pos)
}

/// Relies on std::io::Read::read, whose documentation promises that a
/// successful call transfers no more than `buf.len()` bytes.
#[verifier::external_body]
fn read_shared<R: std::io::Read>(r: &Rc<RefCell<R>>, buf: &mut Vec<u8>) -> (res: Result<
    usize,
    std::io::Error,
>)
    ensures
        res matches Ok(n) ==> n <= old(buf)@.len() && final(buf)@.len() == old(buf)@.len(),
{
    r.borrow_mut().read(buf.as_mut_slice())
}

/// A writer wrapper that counts the bytes actually written through it.
/// Handles made by `share` use the same underlying writer and the same
/// running counter.
#[verifier::reject_recursive_types(W)]
pub struct CountingWriter<W> {
    inner: Rc<RefCell<W>>,
    bytes_written: Rc<RefCell<u64>>,
}

impl<W> CountingWriter<W> {
    /// Create a new CountingWriter with its counter at zero.
    pub fn new(writer: W) -> CountingWriter<W> {
        CountingWriter { inner: Rc::new(cell_wrap(writer)), bytes_written: Rc::new(
            cell_wrap(0u64),
        ) }
    }

    /// The bytes written so far through this handle and all handles sharing
    /// its counter.
    pub fn bytes_written(&self) -> u64 {
        cell_get(&self.bytes_written)
    }

    /// A new handle over the same writer and the same running counter.
    pub fn share(&self) -> (r: CountingWriter<W>)
        ensures
            r == *self,
    {
        let r = CountingWriter {
            inner: rc_clone(&self.inner),
            bytes_written: rc_clone(&self.bytes_written),
        };
        proof {
            assert(r == *self);
        }
        r
    }

    /// Takes the wrapped writer back out. This consumes the handle and
    /// fails when another handle still shares the writer; the handle then
    /// comes back unchanged.
    pub fn try_into_inner(self) -> (r: Result<W, CountingWriter<W>>)
        ensures
            r matches Err(s) ==> s == self,
    {
        let CountingWriter { inner, bytes_written } = self;
        match Rc::try_unwrap(inner) {
            Ok(cell) => Ok(cell_unwrap(cell)),
            Err(rc) => {
                let s = CountingWriter { inner: rc, bytes_written };
                proof {
                    assert(s == self);
                }
                Err(s)
            },
        }
    }
}

impl<W: std::io::Write> CountingWriter<W> {
    /// Writes from `buf` and adds the bytes actually transferred — not the
    /// bytes requested — to the shared counter, which saturates at the
    /// largest byte count.
    pub fn write(&mut self, buf: &[u8]) -> (r: Result<usize, std::io::Error>)
        ensures
            r matches Ok(n) ==> n <= buf@.len(),
    {
        let n = match write_shared(&self.inner, buf) {
            Ok(n) => n,
            Err(e) => {
                return Err(e);
            },
        };
        let c = cell_get(&self.bytes_written);
        let n64 = n as u64;
        let c2 = if c <= u64::MAX - n64 {
            c + n64
        } else {
            u64::MAX
        };
        cell_put(&self.bytes_written, c2);
        Ok(n)
    }

    /// Flushes the underlying writer; the counter is untouched.
    pub fn flush(&mut self) -> Result<(), std::io::Error> {
        flush_shared(&self.inner)
    }
}

impl<W: std::io::Write + std::io::Seek> CountingWriter<W> {
    /// Seeks the underlying writer. Seeking moves a cursor and writes no
    /// payload byte, so the counter is untouched.
    pub fn seek(&mut self, pos: std::io::SeekFrom) -> Result<u64, std::io::Error> {
        seek_shared(&self.inner, pos)
    }
}

/// A reader wrapper that counts the bytes actually read through it.
/// Handles made by `share` use the same underlying reader and the same
/// running counter.
#[verifier::reject_recursive_types(R)]
pub struct CountingReader<R> {
    inner: Rc<RefCell<R>>,
    bytes_read: Rc<RefCell<u64>>,
}

impl<R> CountingReader<R> {
    /// Create a new CountingReader with its counter at zero.
    pub fn new(reader: R) -> CountingReader<R> {
        CountingReader { inner: Rc::new(cell_wrap(reader)), bytes_read: Rc::new(
            cell_wrap(0u64),
        ) }
    }

    /// The bytes read so far through this handle and all handles sharing
    /// its counter.
    pub fn bytes_read(&self) -> u64 {
        cell_get(&self.bytes_read)
    }

    /// A new handle over the same reader and the same running counter.
    pub fn share(&self) -> (r: CountingReader<R>)
        ensures
            r == *self,
    {
        let r = CountingReader {
            inner: rc_clone(&self.inner),
            bytes_read: rc_clone(&self.bytes_read),
        };
        proof {
            assert(r == *self);
        }
        r
    }

    /// Takes the wrapped reader back out. This consumes the handle and
    /// fails when another handle still shares the reader; the handle then
    /// comes back unchanged.
    pub fn try_into_inner(self) -> (r: Result<R, CountingReader<R>>)
        ensures
            r matches Err(s) ==> s == self,
    {
        let CountingReader { inner, bytes_read } = self;
        match Rc::try_unwrap(inner) {
            Ok(cell) => Ok(cell_unwrap(cell)),
            Err(rc) => {
                let s = CountingReader { inner: rc, bytes_read };
                proof {
                    assert(s == self);
                }
                Err(s)
            },
        }
    }
}

impl<R: std::io::Read> CountingReader<R> {
    /// Reads into `buf` and adds the bytes actually transferred — not the
    /// bytes requested — to the shared counter, which saturates at the
    /// largest byte count.
    pub fn read(&mut self, buf: &mut Vec<u8>) -> (r: Result<usize, std::io::Error>)
        ensures
            r matches Ok(n) ==> n <= old(buf)@.len(),
    {
        let n = match read_shared(&self.inner, buf) {
            Ok(n) => n,
            Err(e) => {
                return Err(e);
            },
        };
        let c = cell_get(&self.bytes_read);
        let n64 = n as u64;
        let c2 = if c <= u64::MAX - n64 {
            c + n64
        } else {
            u64::MAX
        };
        cell_put(&self.bytes_read, c2);
        Ok(n)
    }
}

impl<R: std::io::Read + std::io::Seek> CountingReader<R> {
    /// Seeks the underlying reader. Seeking moves a cursor and reads no
    /// payload byte, so the counter is untouched.
    pub fn seek(&mut self, pos: std::io::SeekFrom) -> Result<u64, std::io::Error> {
        seek_shared(&self.inner, pos)
    }
}

// ---------------------------------------------------------------------------
// The counting discipline, as a model.
// ---------------------------------------------------------------------------

/// One step in the life of a shared byte counter, whichever handle made it:
/// a transfer (a write or a read) that moved `transferred` of `requested`
/// bytes, a seek, or a flush.
pub enum CounterEvent {
    /// A write or read that asked for `requested` bytes and moved
    /// `transferred` of them.
    Transfer { requested: u64, transferred: u64 },
    /// A seek; it moves a cursor and transfers nothing.
    Seek,
    /// A flush; it transfers nothing.
    Flush,
}

/// The counter value after a sequence of events, starting from `start`:
/// every transfer adds the bytes actually moved, and seeks and flushes add
/// nothing.
pub open spec fn counter_after(start: int, events: Seq<CounterEvent>) -> int
    decreases events.len(),
{
    if events.len() == 0 {
        start
    } else {
        let rest = counter_after(start, events.drop_last());
        match events.last() {
            CounterEvent::Transfer { requested, transferred } => rest + transferred,
            _ => rest,
        }
    }
}

/// The total number of bytes the events asked for.
pub open spec fn total_requested(events: Seq<CounterEvent>) -> int
    decreases events.len(),
{
    if events.len() == 0 {
        0
    } else {
        let rest = total_requested(events.drop_last());
        match events.last() {
            CounterEvent::Transfer { requested, transferred } => rest + requested,
            _ => rest,
        }
    }
}

/// After any sequence of writes, interleaved over any handles sharing one
/// counter, in which every transfer was fully satisfied, the counter has
/// grown by exactly the total number of bytes requested.
pub proof fn lemma_counter_counts_requested(start: int, events: Seq<CounterEvent>)
    requires
        forall|i: int|
            0 <= i < events.len() ==> ((#[trigger] events[i]) matches CounterEvent::Transfer {
                requested,
                transferred,
            } ==> transferred == requested),
    ensures
        counter_after(start, events) == start + total_requested(events),
    decreases events.len(),
{
    if events.len() > 0 {
        assert(events[events.len() - 1] == events.last());
        lemma_counter_counts_requested(start, events.drop_last());
    }
}

/// A seek never changes the counter.
pub proof fn lemma_seek_leaves_counter(start: int, events: Seq<CounterEvent>)
    ensures
        counter_after(start, events.push(CounterEvent::Seek)) == counter_after(start, events),
{
    assert(events.push(CounterEvent::Seek).drop_last() =~= events);
}

} // verus!
