use vstd::prelude::*;

verus! {

/// The lowercase hexadecimal digit for a value below sixteen.
pub open spec fn hex_digit(v: u8) -> char {
    if v < 10 {
        (('0' as u8) + v) as char
    } else {
        (('a' as u8) + (v - 10)) as char
    }
}

/// Two lowercase hex digits per byte, high nibble first, no separators.
pub open spec fn hex_of(b: Seq<u8>) -> Seq<char>
    decreases b.len(),
{
    if b.len() == 0 {
        Seq::empty()
    } else {
        let last = b.last();
        hex_of(b.drop_last()) + seq![hex_digit(last / 16), hex_digit(last % 16)]
    }
}

/// The first `k` characters of `s`, or all of `s` when it is shorter.
pub open spec fn prefix_of(s: Seq<char>, k: nat) -> Seq<char> {
    if k < s.len() {
        s.subrange(0, k as int)
    } else {
        s
    }
}

/// The display form of a hex digest under an optional length limit.
pub open spec fn truncated(s: Seq<char>, limit: Option<usize>) -> Seq<char> {
    match limit {
        Some(k) => prefix_of(s, k as nat),
        None => s,
    }
}

/// One output line's text (without the line break).
pub open spec fn line_of(path: Seq<char>, digest: Seq<char>, separator: Seq<char>, hash_first: bool) -> Seq<char> {
    if hash_first {
        digest + separator + path
    } else {
        path + separator + digest
    }
}

/// The separator in effect: a given one with the escapes `\t` and `\0`
/// resolved, else a tab, or two spaces in compatible mode.
pub open spec fn separator_of(given: Option<Seq<char>>, compatible: bool) -> Seq<char> {
    match given {
        Some(s) => if s == seq!['\\', 't'] {
            seq!['\t']
        } else if s == seq!['\\', '0'] {
            seq!['\0']
        } else {
            s
        },
        None => if compatible {
            seq![' ', ' ']
        } else {
            seq!['\t']
        },
    }
}

/// Relies on hex::encode: each byte becomes two lowercase hex digits,
/// high nibble first, in order.
#[verifier::external_body]
fn hex_encode(bytes: &[u8]) -> (r: String)
    ensures
        r@ == hex_of(bytes@),
{
    hex::encode(bytes)
}

/// Cuts `s` to at most `limit` characters; with no limit it is kept whole.
pub fn truncate_digest(s: &str, limit: Option<usize>) -> (r: String)
    ensures
        r@ == truncated(s@, limit),
{
    match limit {
        Some(k) => {
            let n = s.unicode_len();
            if k < n {
                String::from_str(s.substring_char(0, k))
            } else {
                String::from_str(s)
            }
        },
        None => String::from_str(s),
    }
}

/// The text form of a digest: lowercase hex, cut to `limit` characters.
pub fn digest_text(digest: &[u8], limit: Option<usize>) -> (r: String)
    ensures
        r@ == truncated(hex_of(digest@), limit),
{
    let hex = hex_encode(digest);
    truncate_digest(hex.as_str(), limit)
}

/// Truncation is a prefix cut, and cutting twice to the same length
/// changes nothing further.
pub proof fn lemma_truncation_prefix(s: Seq<char>, k: usize)
    ensures
        k <= s.len() ==> truncated(s, Some(k)) == s.subrange(0, k as int),
        truncated(truncated(s, Some(k)), Some(k)) == truncated(s, Some(k)),
        truncated(s, Some(k)).len() <= k,
{
    if k == s.len() {
        assert(s.subrange(0, k as int) =~= s);
    }
}

/// The digest text depends on the digest bytes and the limit alone.
pub proof fn lemma_digest_text_deterministic(a: Seq<u8>, b: Seq<u8>, limit: Option<usize>)
    requires
        a == b,
    ensures
        truncated(hex_of(a), limit) == truncated(hex_of(b), limit),
{
}

/// Joins path and digest with the separator, digest first when `hash_first`.
pub fn format_line(path: &str, digest: &str, separator: &str, hash_first: bool) -> (r: String)
    ensures
        r@ == line_of(path@, digest@, separator@, hash_first),
{
    if hash_first {
        String::from_str(digest).concat(separator).concat(path)
    } else {
        String::from_str(path).concat(separator).concat(digest)
    }
}

fn is_escape(s: &str, c: char) -> (r: bool)
    ensures
        r == (s@ == seq!['\\', c]),
{
    let n = s.unicode_len();
    if n != 2 {
        proof {
            assert(s@.len() != seq!['\\', c].len());
        }
        return false;
    }
    let r = s.get_char(0) == '\\' && s.get_char(1) == c;
    if r {
        assert(s@ =~= seq!['\\', c]);
    } else {
        assert(s@ != seq!['\\', c]) by {
            if s@ == seq!['\\', c] {
                assert(s@[0] == '\\' && s@[1] == c);
            }
        }
    }
    r
}

/// Resolves the separator option: `\t` and `\0` written out stand for a
/// tab and a null character; without one, a tab, or two spaces in
/// compatible mode.
pub fn resolve_separator(given: Option<String>, compatible: bool) -> (r: String)
    ensures
        r@ == separator_of(
            match given {
                Some(s) => Some(s@),
                None => None,
            },
            compatible,
        ),
{
    proof {
        reveal_strlit("\t");
        reveal_strlit("\0");
        reveal_strlit("  ");
    }
    match given {
        Some(s) => {
            if is_escape(s.as_str(), 't') {
                assert("\t"@ =~= seq!['\t']);
                String::from_str("\t")
            } else if is_escape(s.as_str(), '0') {
                assert("\0"@ =~= seq!['\0']);
                String::from_str("\0")
            } else {
                s
            }
        },
        None => {
            if compatible {
                assert("  "@ =~= seq![' ', ' ']);
                String::from_str("  ")
            } else {
                assert("\t"@ =~= seq!['\t']);
                String::from_str("\t")
            }
        },
    }
}

} // verus!
