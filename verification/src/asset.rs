//! Decisions of the startup asset sync: the URLs fetched from the asset
//! server, the registry entry of each wanted file, and whether a cached file
//! still matches its registered SHA-256.

use sha2::Digest;
use crate::paths::push_char;
use vstd::prelude::*;

verus! {

/// Default origin for asset fetches.
pub const DEFAULT_BASE: &'static str = "https://assets.openlogi.org";

/// Path of the registry index on the asset server.
pub const INDEX_PATH: &'static str = "index.json";

/// Files the GUI opens; only these are fetched from a depot.
pub const FETCH_FILES: [&'static str; 2] = ["front_core.png", "core_metadata.json"];

/// One file a depot offers, with its SHA-256 as a hex string.
#[derive(Debug)]
pub struct FileEntry {
    pub name: String,
    pub sha256: String,
}

/// A device's depot in the registry: where its files live, and which.
#[derive(Debug)]
pub struct DeviceEntry {
    pub asset_path: String,
    pub files: Vec<FileEntry>,
}

/// `s` without its trailing `/` characters.
pub open spec fn trim_end_slashes(s: Seq<char>) -> Seq<char>
    decreases s.len(),
{
    if s.len() > 0 && s.last() == '/' {
        trim_end_slashes(s.drop_last())
    } else {
        s
    }
}

/// `s` without its leading `/` characters.
pub open spec fn trim_start_slashes(s: Seq<char>) -> Seq<char>
    decreases s.len(),
{
    if s.len() > 0 && s[0] == '/' {
        trim_start_slashes(s.drop_first())
    } else {
        s
    }
}

/// The leading part of `s` before its trailing slashes.
fn trimmed_end(s: &str) -> (r: &str)
    ensures
        r@ == trim_end_slashes(s@),
{
    let n = s.unicode_len();
    let mut e = n;
    proof {
        assert(s@.take(n as int) =~= s@);
    }
    while e > 0 && s.get_char(e - 1) == '/'
        invariant
            e <= n,
            n == s@.len(),
            trim_end_slashes(s@.take(e as int)) == trim_end_slashes(s@),
        decreases e,
    {
        proof {
            assert(s@.take(e as int).drop_last() =~= s@.take(e - 1));
        }
        e = e - 1;
    }
    let r = s.substring_char(0, e);
    proof {
        assert(r@ =~= s@.take(e as int));
    }
    r
}

/// The part of `s` after its leading slashes.
fn trimmed_start(s: &str) -> (r: &str)
    ensures
        r@ == trim_start_slashes(s@),
{
    let n = s.unicode_len();
    let mut b: usize = 0;
    proof {
        assert(s@.skip(0) =~= s@);
    }
    while b < n && s.get_char(b) == '/'
        invariant
            b <= n,
            n == s@.len(),
            trim_start_slashes(s@.skip(b as int)) == trim_start_slashes(s@),
        decreases n - b,
    {
        proof {
            assert(s@.skip(b as int).drop_first() =~= s@.skip(b + 1));
        }
        b = b + 1;
    }
    let r = s.substring_char(b, n);
    proof {
        assert(r@ =~= s@.skip(b as int));
    }
    r
}

/// URL of the registry index on `server`.
pub fn index_url(server: &str) -> (r: String)
    ensures
        r@ == trim_end_slashes(server@) + "/"@ + INDEX_PATH@,
{
    let mut url = trimmed_end(server).to_owned();
    url.append("/");
    url.append(INDEX_PATH);
    url
}

/// URL of file `name` of a depot whose files live under `asset_path`.
pub fn file_url(server: &str, asset_path: &str, name: &str) -> (r: String)
    ensures
        r@ == trim_end_slashes(server@) + "/"@ + trim_start_slashes(asset_path@) + name@,
{
    let mut url = trimmed_end(server).to_owned();
    url.append("/");
    url.append(trimmed_start(asset_path));
    url.append(name);
    url
}

/// The registry entry of file `name` in `entry`: the first with that name.
pub fn find_file<'a>(entry: &'a DeviceEntry, name: &str) -> (r: Option<&'a FileEntry>)
    ensures
        match r {
            Some(f) => exists|i: int|
                0 <= i < entry.files@.len() && *f == entry.files@[i] && f.name@ == name@ && forall|j: int|
                    0 <= j < i ==> (#[trigger] entry.files@[j]).name@ != name@,
            None => forall|j: int|
                0 <= j < entry.files@.len() ==> (#[trigger] entry.files@[j]).name@ != name@,
        },
{
    let wanted = name.to_owned();
    let mut i: usize = 0;
    while i < entry.files.len()
        invariant
            i <= entry.files@.len(),
            wanted@ == name@,
            forall|j: int| 0 <= j < i ==> (#[trigger] entry.files@[j]).name@ != name@,
        decreases entry.files@.len() - i,
    {
        if entry.files[i].name == wanted {
            return Some(&entry.files[i]);
        }
        i = i + 1;
    }
    None
}

/// Code point of `c` with ASCII upper-case letters mapped to lower case.
pub open spec fn ascii_lower(c: char) -> u32 {
    if 'A' <= c <= 'Z' {
        ((c as u32) + 32) as u32
    } else {
        c as u32
    }
}

/// `a` and `b` are equal when ASCII letters are compared without case.
pub open spec fn eq_ignore_ascii_case(a: Seq<char>, b: Seq<char>) -> bool {
    &&& a.len() == b.len()
    &&& forall|i: int| 0 <= i < a.len() ==> ascii_lower(#[trigger] a[i]) == ascii_lower(b[i])
}

fn lower(c: char) -> (r: u32)
    ensures
        r == ascii_lower(c),
{
    if 'A' <= c && c <= 'Z' {
        (c as u32) + 32
    } else {
        c as u32
    }
}

/// Whether a computed hex digest matches the registered one, ignoring ASCII
/// case.
pub fn digest_matches(actual: &str, expected: &str) -> (r: bool)
    ensures
        r == eq_ignore_ascii_case(actual@, expected@),
{
    let n = actual.unicode_len();
    let m = expected.unicode_len();
    if n != m {
        return false;
    }
    let mut i: usize = 0;
    while i < n
        invariant
            i <= n,
            n == actual@.len(),
            m == expected@.len(),
            n == m,
            forall|j: int| 0 <= j < i ==> ascii_lower(#[trigger] actual@[j]) == ascii_lower(expected@[j]),
        decreases n - i,
    {
        if lower(actual.get_char(i)) != lower(expected.get_char(i)) {
            return false;
        }
        i = i + 1;
    }
    true
}

/// The SHA-256 digest of `bytes`.
pub uninterp spec fn sha256_of(bytes: Seq<u8>) -> Seq<u8>;

/// Calls `sha2::Sha256::digest` and copies the digest into a `Vec`. The
/// result is a function of `bytes` alone, named `sha256_of`, and has the
/// 32 bytes of SHA-256's output size; SHA-256 itself is not stated.
#[verifier::external_body]
fn sha256_digest(bytes: &[u8]) -> (r: Vec<u8>)
    ensures
        r@ == sha256_of(bytes@),
        r@.len() == 32,
{
    sha2::Sha256::digest(bytes).to_vec()
}

/// Lower-case hex digit of `n` (below 16).
pub open spec fn hex_digit(n: int) -> char {
    if n < 10 {
        ('0' as int + n) as char
    } else {
        ('a' as int + n - 10) as char
    }
}

/// `bytes` written as lower-case hex, two digits per byte, high digit first.
pub open spec fn lower_hex(bytes: Seq<u8>) -> Seq<char> {
    Seq::new(
        2 * bytes.len(),
        |k: int|
            if k % 2 == 0 {
                hex_digit(bytes[k / 2] as int / 16)
            } else {
                hex_digit(bytes[k / 2] as int % 16)
            },
    )
}

fn hex_digit_char(n: u8) -> (c: char)
    requires
        n < 16,
    ensures
        c == hex_digit(n as int),
{
    if n < 10 {
        ((48u8 + n) as char)
    } else {
        ((87u8 + n) as char)
    }
}

/// Writes `bytes` as lower-case hex, two digits per byte.
pub fn to_lower_hex(bytes: &[u8]) -> (r: String)
    ensures
        r@ == lower_hex(bytes@),
{
    let mut out = String::new();
    let mut i: usize = 0;
    while i < bytes.len()
        invariant
            i <= bytes@.len(),
            out@ == lower_hex(bytes@.subrange(0, i as int)),
        decreases bytes@.len() - i,
    {
        let b = bytes[i];
        let ghost before = out@;
        push_char(&mut out, hex_digit_char(b / 16));
        push_char(&mut out, hex_digit_char(b % 16));
        proof {
            let done = bytes@.subrange(0, i as int);
            let next = bytes@.subrange(0, i + 1);
            assert forall|k: int| 0 <= k < 2 * next.len() implies #[trigger] out@[k] == lower_hex(next)[k] by {
                if k < 2 * i {
                    assert(k / 2 < i) by (nonlinear_arith)
                        requires 0 <= k < 2 * i;
                    assert(next[k / 2] == done[k / 2]);
                    assert(out@[k] == before[k]);
                } else {
                    assert(k / 2 == i) by (nonlinear_arith)
                        requires 2 * i <= k < 2 * i + 2;
                }
            }
            assert(out@ =~= lower_hex(next));
        }
        i = i + 1;
    }
    assert(bytes@.subrange(0, bytes@.len() as int) =~= bytes@);
    out
}

/// Whether cached file contents match their registered SHA-256 hex digest
/// (compared without ASCII case).
pub fn content_matches(content: &[u8], expected_sha: &str) -> (r: bool)
    ensures
        r == eq_ignore_ascii_case(lower_hex(sha256_of(content@)), expected_sha@),
{
    let digest = sha256_digest(content);
    let actual = to_lower_hex(digest.as_slice());
    digest_matches(actual.as_str(), expected_sha)
}

/// Lexicographic order of character sequences by code point: the order of
/// Rust's `String` comparison (UTF-8 byte order is code-point order).
pub open spec fn lex_lt(a: Seq<char>, b: Seq<char>) -> bool
    decreases a.len(),
{
    if b.len() == 0 {
        false
    } else if a.len() == 0 {
        true
    } else if (a[0] as int) < (b[0] as int) {
        true
    } else if a[0] == b[0] {
        lex_lt(a.drop_first(), b.drop_first())
    } else {
        false
    }
}

/// `lex_lt` is a strict total order.
pub proof fn lemma_lex_order(a: Seq<char>, b: Seq<char>, c: Seq<char>)
    ensures
        !lex_lt(a, a),
        lex_lt(a, b) ==> !lex_lt(b, a),
        a != b ==> lex_lt(a, b) || lex_lt(b, a),
        lex_lt(a, b) && lex_lt(b, c) ==> lex_lt(a, c),
    decreases a.len(),
{
    if a.len() > 0 {
        lemma_lex_order(a.drop_first(), b.drop_first(), c.drop_first());
        if a != b && b.len() > 0 && a[0] == b[0] {
            assert(a.drop_first() != b.drop_first()) by {
                if a.drop_first() == b.drop_first() {
                    assert(a =~= b) by {
                        assert forall|i: int| 0 <= i < a.len() implies a[i] == b[i] by {
                            if i > 0 {
                                assert(a[i] == a.drop_first()[i - 1]);
                                assert(b[i] == b.drop_first()[i - 1]);
                            }
                        }
                    }
                }
            }
        }
    } else if a != b {
        assert(b.len() > 0) by {
            if b.len() == 0 {
                assert(a =~= b);
            }
        }
    }
}

/// `s` is strictly ordered by `lex_lt`, so no name occurs twice.
pub open spec fn strictly_sorted(s: Seq<Seq<char>>) -> bool {
    forall|i: int, j: int| 0 <= i < j < s.len() ==> lex_lt(#[trigger] s[i], #[trigger] s[j])
}

/// The character sequences of a list of strings.
pub open spec fn names_view(v: Seq<String>) -> Seq<Seq<char>> {
    v.map_values(|s: String| s@)
}

/// Whether `a` sorts before `b`.
fn str_lt(a: &str, b: &str) -> (r: bool)
    ensures
        r == lex_lt(a@, b@),
{
    let n = a.unicode_len();
    let m = b.unicode_len();
    let mut i: usize = 0;
    proof {
        assert(a@.skip(0) =~= a@);
        assert(b@.skip(0) =~= b@);
    }
    loop
        invariant
            i <= n,
            i <= m,
            n == a@.len(),
            m == b@.len(),
            lex_lt(a@.skip(i as int), b@.skip(i as int)) == lex_lt(a@, b@),
        decreases n - i,
    {
        if i == m {
            return false;
        }
        if i == n {
            return true;
        }
        let ca = a.get_char(i);
        let cb = b.get_char(i);
        proof {
            assert(a@.skip(i as int)[0] == ca);
            assert(b@.skip(i as int)[0] == cb);
            assert(a@.skip(i as int).drop_first() =~= a@.skip(i + 1));
            assert(b@.skip(i as int).drop_first() =~= b@.skip(i + 1));
        }
        if (ca as u32) < (cb as u32) {
            return true;
        }
        if ca != cb {
            return false;
        }
        i = i + 1;
    }
}

/// Adds `name` to the strictly sorted list `names` unless it is there.
fn insert_sorted_unique(names: &mut Vec<String>, name: String)
    requires
        strictly_sorted(names_view(old(names)@)),
    ensures
        strictly_sorted(names_view(final(names)@)),
        forall|k: Seq<char>|
            #[trigger] names_view(final(names)@).contains(k) <==> names_view(old(names)@).contains(k)
                || k == name@,
{
    let ghost old_v = names_view(names@);
    let mut p: usize = 0;
    while p < names.len() && str_lt(names[p].as_str(), name.as_str())
        invariant
            p <= names@.len(),
            old_v == names_view(names@),
            forall|j: int| 0 <= j < p ==> lex_lt(#[trigger] old_v[j], name@),
        decreases names@.len() - p,
    {
        p = p + 1;
    }
    if p < names.len() && names[p] == name {
        proof {
            assert(old_v[p as int] == name@);
        }
        return;
    }
    names.insert(p, name);
    proof {
        let new_v = names_view(names@);
        assert(new_v =~= old_v.insert(p as int, name@));
        if p < old_v.len() {
            lemma_lex_order(old_v[p as int], name@, name@);
            assert(lex_lt(name@, old_v[p as int]));
        }
        assert forall|i: int, j: int| 0 <= i < j < new_v.len() implies lex_lt(
            #[trigger] new_v[i],
            #[trigger] new_v[j],
        ) by {
            if j < p {
            } else if j == p {
            } else if i > p {
                assert(new_v[i] == old_v[i - 1]);
                assert(new_v[j] == old_v[j - 1]);
            } else if i == p {
                if j - 1 > p {
                    lemma_lex_order(name@, old_v[p as int], old_v[j - 1]);
                }
            } else {
                assert(new_v[j] == old_v[j - 1]);
                lemma_lex_order(old_v[i], name@, old_v[j - 1]);
                if j - 1 > p {
                    lemma_lex_order(name@, old_v[p as int], old_v[j - 1]);
                }
                lemma_lex_order(old_v[i], name@, old_v[j - 1]);
            }
        }
        assert forall|k: Seq<char>| #[trigger] new_v.contains(k) <==> old_v.contains(k) || k == name@ by {
            if old_v.contains(k) {
                let i = choose|i: int| 0 <= i < old_v.len() && old_v[i] == k;
                if i < p {
                    assert(new_v[i] == k);
                } else {
                    assert(new_v[i + 1] == k);
                }
            }
            if k == name@ {
                assert(new_v[p as int] == k);
            }
            if new_v.contains(k) {
                let i = choose|i: int| 0 <= i < new_v.len() && new_v[i] == k;
                if i < p {
                    assert(old_v[i] == k);
                } else if i > p {
                    assert(old_v[i - 1] == k);
                }
            }
        }
    }
}

/// The depots to sync: the forced one and the resolved ones, each once, in
/// name order.
pub fn sync_targets(forced: Option<String>, resolved: Vec<String>) -> (r: Vec<String>)
    ensures
        strictly_sorted(names_view(r@)),
        forall|k: Seq<char>|
            #[trigger] names_view(r@).contains(k) <==> (forced matches Some(f) && f@ == k)
                || names_view(resolved@).contains(k),
{
    let mut out: Vec<String> = Vec::new();
    let ghost rv = names_view(resolved@);
    proof {
        assert(names_view(out@) =~= Seq::<Seq<char>>::empty());
    }
    match forced {
        Some(f) => insert_sorted_unique(&mut out, f),
        None => {},
    }
    let ghost after_forced = names_view(out@);
    let mut src = resolved;
    let mut taken: usize = 0;
    let total = src.len();
    while src.len() > 0
        invariant
            taken + src@.len() == total,
            rv.len() == total,
            names_view(src@) == rv.skip(taken as int),
            strictly_sorted(names_view(out@)),
            forall|k: Seq<char>|
                #[trigger] names_view(out@).contains(k) <==> after_forced.contains(k)
                    || rv.take(taken as int).contains(k),
        decreases src@.len(),
    {
        let ghost before = names_view(src@);
        let ghost old_src = src@;
        let name = src.remove(0);
        proof {
            assert(name@ == rv[taken as int]) by {
                assert(before[0] == rv.skip(taken as int)[0]);
            }
            assert(rv.take(taken + 1) =~= rv.take(taken as int).push(name@));
            assert(src@ =~= old_src.drop_first());
            assert(names_view(src@) =~= before.drop_first());
            assert(names_view(src@) =~= rv.skip(taken + 1));
        }
        let ghost out_before = names_view(out@);
        insert_sorted_unique(&mut out, name);
        proof {
            assert forall|k: Seq<char>| #[trigger] names_view(out@).contains(k) <==> after_forced.contains(
                k,
            ) || rv.take(taken + 1).contains(k) by {
                let t = rv.take(taken as int);
                assert(out_before.contains(k) <==> after_forced.contains(k) || t.contains(k));
                assert(names_view(out@).contains(k) <==> out_before.contains(k) || k == rv[taken as int]);
                if k == rv[taken as int] {
                    assert(rv.take(taken + 1)[taken as int] == k);
                }
                if t.contains(k) {
                    let i = choose|i: int| 0 <= i < t.len() && t[i] == k;
                    assert(rv.take(taken + 1)[i] == k);
                }
                let t1 = rv.take(taken + 1);
                if t1.contains(k) {
                    let i = choose|i: int| 0 <= i < t1.len() && t1[i] == k;
                    if i < taken {
                        assert(t[i] == k);
                    } else {
                        assert(k == name@);
                    }
                }
            }
        }
        taken = taken + 1;
    }
    proof {
        assert(rv.take(taken as int) =~= rv);
        assert forall|k: Seq<char>| #[trigger] after_forced.contains(k) <==> (forced matches Some(f) && f@
            == k) by {}
    }
    out
}

} // verus!
