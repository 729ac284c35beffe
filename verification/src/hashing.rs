//! Cache naming: a video's thumbnail artifacts are stored under the
//! lowercase-hex digest of its path text, so equal paths share cache entries
//! and unequal paths almost surely do not collide.

use crate::text::spec_digit_char;
use vstd::prelude::*;
use vstd::string::*;

verus! {

/// The 16-byte digest the hash function assigns to the given bytes.
pub uninterp spec fn md5_digest_of(bytes: Seq<u8>) -> Seq<u8>;

/// Relies on md5::compute: the 16-byte digest depends on the input bytes
/// alone.
#[verifier::external_body]
fn md5_digest(input: &str) -> (r: Vec<u8>)
    ensures
        r@ == md5_digest_of(input.spec_bytes()),
        r@.len() == 16,
{
    md5::compute(input.as_bytes()).0.to_vec()
}

/// The lowercase hex character for a value below sixteen.
pub open spec fn spec_hex_char(d: nat) -> char {
    if d < 10 {
        spec_digit_char(d)
    } else {
        ((87 + d) as u32) as char
    }
}

/// The lowercase hex rendering of a byte string, two characters per byte.
pub open spec fn spec_hex_of(bytes: Seq<u8>) -> Seq<char>
    decreases bytes.len(),
{
    if bytes.len() == 0 {
        Seq::<char>::empty()
    } else {
        spec_hex_of(bytes.drop_last()) + seq![
            spec_hex_char((bytes.last() / 16) as nat),
            spec_hex_char((bytes.last() % 16) as nat),
        ]
    }
}

/// The one-character string for a hex digit value.
fn hex_str(d: u8) -> (r: &'static str)
    requires
        d < 16,
    ensures
        r@ == seq![spec_hex_char(d as nat)],
{
    if d == 0 {
        proof {
            reveal_strlit("0");
            assert("0"@ =~= seq![spec_hex_char(0)]);
        }
        "0"
    } else if d == 1 {
        proof {
            reveal_strlit("1");
            assert("1"@ =~= seq![spec_hex_char(1)]);
        }
        "1"
    } else if d == 2 {
        proof {
            reveal_strlit("2");
            assert("2"@ =~= seq![spec_hex_char(2)]);
        }
        "2"
    } else if d == 3 {
        proof {
            reveal_strlit("3");
            assert("3"@ =~= seq![spec_hex_char(3)]);
        }
        "3"
    } else if d == 4 {
        proof {
            reveal_strlit("4");
            assert("4"@ =~= seq![spec_hex_char(4)]);
        }
        "4"
    } else if d == 5 {
        proof {
            reveal_strlit("5");
            assert("5"@ =~= seq![spec_hex_char(5)]);
        }
        "5"
    } else if d == 6 {
        proof {
            reveal_strlit("6");
            assert("6"@ =~= seq![spec_hex_char(6)]);
        }
        "6"
    } else if d == 7 {
        proof {
            reveal_strlit("7");
            assert("7"@ =~= seq![spec_hex_char(7)]);
        }
        "7"
    } else if d == 8 {
        proof {
            reveal_strlit("8");
            assert("8"@ =~= seq![spec_hex_char(8)]);
        }
        "8"
    } else if d == 9 {
        proof {
            reveal_strlit("9");
            assert("9"@ =~= seq![spec_hex_char(9)]);
        }
        "9"
    } else if d == 10 {
        proof {
            reveal_strlit("a");
            assert("a"@ =~= seq![spec_hex_char(10)]);
        }
        "a"
    } else if d == 11 {
        proof {
            reveal_strlit("b");
            assert("b"@ =~= seq![spec_hex_char(11)]);
        }
        "b"
    } else if d == 12 {
        proof {
            reveal_strlit("c");
            assert("c"@ =~= seq![spec_hex_char(12)]);
        }
        "c"
    } else if d == 13 {
        proof {
            reveal_strlit("d");
            assert("d"@ =~= seq![spec_hex_char(13)]);
        }
        "d"
    } else if d == 14 {
        proof {
            reveal_strlit("e");
            assert("e"@ =~= seq![spec_hex_char(14)]);
        }
        "e"
    } else {
        proof {
            reveal_strlit("f");
            assert("f"@ =~= seq![spec_hex_char(15)]);
        }
        "f"
    }
}

/// Renders bytes in lowercase hex, per [`spec_hex_of`].
fn hex_string(bytes: &Vec<u8>) -> (r: String)
    ensures
        r@ == spec_hex_of(bytes@),
{
    let mut out = String::new();
    proof {
        assert(bytes@.subrange(0, 0) =~= Seq::<u8>::empty());
    }
    let mut i: usize = 0;
    while i < bytes.len()
        invariant
            i <= bytes@.len(),
            out@ == spec_hex_of(bytes@.subrange(0, i as int)),
        decreases bytes@.len() - i,
    {
        let b = bytes[i];
        out.append(hex_str(b / 16));
        out.append(hex_str(b % 16));
        proof {
            let cur = bytes@.subrange(0, i + 1);
            assert(cur.drop_last() =~= bytes@.subrange(0, i as int));
            assert(cur.last() == bytes@[i as int]);
            assert(out@ =~= spec_hex_of(cur));
        }
        i += 1;
    }
    proof {
        assert(bytes@.subrange(0, bytes@.len() as int) =~= bytes@);
    }
    out
}

/// The cache name a path hashes to: the lowercase hex of the digest of the
/// path's text.
pub fn to_hashed_name(path: &str) -> (r: String)
    ensures
        r@ == spec_hex_of(md5_digest_of(path.spec_bytes())),
{
    let digest = md5_digest(path);
    hex_string(&digest)
}

/// Where a video's preview thumbnail lives in the cache: the hashed name of
/// the video's path under the cache folder, with the thumbnail extension.
pub fn thumbnail_cache_path(cache_dir: &str, of: &str) -> (r: String)
    ensures
        r@ == cache_dir@ + seq!['/'] + spec_hex_of(md5_digest_of(of.spec_bytes())) + ".jpg"@,
{
    let mut out = String::from_str(cache_dir);
    proof {
        reveal_strlit("/");
        assert("/"@ =~= seq!['/']);
    }
    out.append("/");
    let hashed = to_hashed_name(of);
    out.append(hashed.as_str());
    out.append(".jpg");
    out
}

/// Where a video's timeline thumbnails live: a folder named by the hashed
/// path under the cache folder.
pub fn timeline_folder_path(cache_dir: &str, of: &str) -> (r: String)
    ensures
        r@ == cache_dir@ + seq!['/'] + spec_hex_of(md5_digest_of(of.spec_bytes())),
{
    let mut out = String::from_str(cache_dir);
    proof {
        reveal_strlit("/");
        assert("/"@ =~= seq!['/']);
    }
    out.append("/");
    let hashed = to_hashed_name(of);
    out.append(hashed.as_str());
    out
}

} // verus!
