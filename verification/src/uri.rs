//! Track URI normalization: callers may hand over a full Spotify track
//! URI or a bare base62 track id; both are brought to the canonical form
//! `spotify:track:{id}`.
//!
//! A URI is split on colons into `spotify:{type}:{id}`, or the named form
//! `spotify:user:{user}:{type}:{id}`; parts beyond those are ignored. The
//! id of a track must be a valid 22-digit base62 id. Decoding a valid id
//! and re-encoding it canonically yields the same 22 digits (positional
//! representations with a fixed width are unique), so the canonical URI
//! carries the id's digits exactly as they were written. Anything that is
//! neither a track URI nor a bare valid id — including URIs of other item
//! kinds — is rejected.

use vstd::prelude::*;

use crate::text::{find_char, first_index_of, has_char, lemma_first_index_of, range_eq, split_seq};

verus! {

/// Whether `c` is a base62 digit: `0-9`, `a-z` or `A-Z`.
pub open spec fn is_base62_digit(c: char) -> bool {
    let u = c as u32;
    ||| 0x30 <= u <= 0x39
    ||| 0x61 <= u <= 0x7a
    ||| 0x41 <= u <= 0x5a
}

/// The value of a base62 digit: decimal digits first, then the lowercase
/// letters, then the uppercase letters.
pub open spec fn base62_digit_val(c: char) -> nat {
    let u = c as u32;
    if 0x30 <= u <= 0x39 {
        (u - 0x30) as nat
    } else if 0x61 <= u <= 0x7a {
        (u - 0x61 + 10) as nat
    } else if 0x41 <= u <= 0x5a {
        (u - 0x41 + 36) as nat
    } else {
        0
    }
}

/// The number a base62 digit string denotes, most significant digit first.
pub open spec fn base62_decode(s: Seq<char>) -> nat
    decreases s.len(),
{
    if s.len() == 0 {
        0
    } else {
        base62_decode(s.drop_last()) * 62 + base62_digit_val(s.last())
    }
}

/// A valid base62 item id: exactly 22 base62 digits denoting a number
/// that fits in 128 bits.
pub open spec fn is_valid_base62_id(s: Seq<char>) -> bool {
    &&& s.len() == 22
    &&& forall|i: int| 0 <= i < s.len() ==> is_base62_digit(s[i])
    &&& base62_decode(s) <= u128::MAX
}

/// Digit strings denote no less than any of their prefixes.
proof fn lemma_base62_prefix_le(s: Seq<char>, i: int)
    requires
        0 <= i <= s.len(),
    ensures
        base62_decode(s.take(i)) <= base62_decode(s),
    decreases s.len() - i,
{
    if i < s.len() {
        assert(s.take(i + 1).drop_last() =~= s.take(i));
        assert(base62_decode(s.take(i)) <= base62_decode(s.take(i + 1)));
        lemma_base62_prefix_le(s, i + 1);
    } else {
        assert(s.take(i) =~= s);
    }
}

/// The executable value of one base62 digit.
fn base62_digit_value(c: char) -> (r: Option<u8>)
    ensures
        match r {
            Some(v) => is_base62_digit(c) && v as nat == base62_digit_val(c),
            None => !is_base62_digit(c),
        },
{
    let u = c as u32;
    if 0x30 <= u && u <= 0x39 {
        Some((u - 0x30) as u8)
    } else if 0x61 <= u && u <= 0x7a {
        Some((u - 0x61 + 10) as u8)
    } else if 0x41 <= u && u <= 0x5a {
        Some((u - 0x41 + 36) as u8)
    } else {
        None
    }
}

/// Whether `s[from..to]` is a valid 22-digit base62 id.
pub fn is_base62_id(s: &str, from: usize, to: usize) -> (r: bool)
    requires
        from <= to <= s@.len(),
    ensures
        r == is_valid_base62_id(s@.subrange(from as int, to as int)),
{
    let ghost sub = s@.subrange(from as int, to as int);
    if to - from != 22 {
        return false;
    }
    let mut acc: u128 = 0;
    let mut i: usize = 0;
    proof {
        assert(sub.take(0) =~= Seq::<char>::empty());
    }
    while i < 22
        invariant
            from + 22 == to,
            to <= s@.len(),
            0 <= i <= 22,
            sub == s@.subrange(from as int, to as int),
            forall|j: int| 0 <= j < i ==> is_base62_digit(sub[j]),
            acc as nat == base62_decode(sub.take(i as int)),
        decreases 22 - i,
    {
        assert(sub[i as int] == s@[from + i]);
        let c = s.get_char(from + i);
        let v = match base62_digit_value(c) {
            Some(v) => v,
            None => {
                return false;
            },
        };
        proof {
            assert(sub.take(i + 1).drop_last() =~= sub.take(i as int));
            assert(sub.take(i + 1).last() == sub[i as int]);
            let d = (u128::MAX - v as u128) as nat;
            vstd::arithmetic::div_mod::lemma_fundamental_div_mod(d as int, 62);
            vstd::arithmetic::div_mod::lemma_mod_division_less_than_divisor(d as int, 62);
            assert(62 * (d / 62) == d - d % 62);
        }
        if acc > (u128::MAX - v as u128) / 62 {
            proof {
                assert(acc as nat * 62 + v as nat > u128::MAX);
                assert(base62_decode(sub.take(i + 1)) > u128::MAX);
                lemma_base62_prefix_le(sub, i + 1);
            }
            return false;
        }
        proof {
            assert(acc as nat * 62 + v as nat <= u128::MAX);
        }
        acc = acc * 62 + v as u128;
        i += 1;
    }
    proof {
        assert(sub.take(22) =~= sub);
    }
    true
}

/// The canonical track URI for an id.
pub open spec fn spec_canonical_track_uri(id: Seq<char>) -> Seq<char> {
    "spotify:track:"@ + id
}

/// The track URI a colon-split Spotify URI yields, if it is a track URI.
pub open spec fn spec_spotify_track(parts: Seq<Seq<char>>) -> Option<Seq<char>> {
    if parts.len() < 3 {
        None
    } else {
        let named = parts[1] == "user"@;
        let ty_idx: int = if named {
            3
        } else {
            1
        };
        let name_idx: int = if named {
            4
        } else {
            2
        };
        if name_idx >= parts.len() {
            None
        } else if parts[ty_idx] == "track"@ && is_valid_base62_id(parts[name_idx]) {
            Some(spec_canonical_track_uri(parts[name_idx]))
        } else {
            None
        }
    }
}

/// The canonical track URI an input yields: from a Spotify URI when it
/// names a track, from the input itself when it is a bare valid id, and
/// nothing otherwise.
pub open spec fn spec_track_uri(s: Seq<char>) -> Option<Seq<char>> {
    let parts = split_seq(s, ':');
    if parts[0] == "spotify"@ {
        spec_spotify_track(parts)
    } else if is_valid_base62_id(s) {
        Some(spec_canonical_track_uri(s))
    } else {
        None
    }
}

/// `spotify:track:` followed by `s[from..to]`.
fn make_track_uri(s: &str, from: usize, to: usize) -> (r: String)
    requires
        from <= to <= s@.len(),
    ensures
        r@ == spec_canonical_track_uri(s@.subrange(from as int, to as int)),
{
    let mut out = "spotify:track:".to_owned();
    out.append(s.substring_char(from, to));
    out
}

/// The end of the piece of `s` that starts at `from`: the next colon, or
/// the end of the string; and how the colon-split of the rest of the
/// string falls apart at it.
fn next_piece(s: &str, from: usize, n: usize) -> (r: (usize, bool))
    requires
        from <= n == s@.len(),
    ensures
        from <= r.0 <= n,
        r.1 ==> r.0 < n && split_seq(s@.subrange(from as int, n as int), ':') == seq![
            s@.subrange(from as int, r.0 as int),
        ] + split_seq(s@.subrange(r.0 + 1, n as int), ':'),
        !r.1 ==> r.0 == n && split_seq(s@.subrange(from as int, n as int), ':') == seq![
            s@.subrange(from as int, n as int),
        ],
{
    let ghost rem = s@.subrange(from as int, n as int);
    let colon = find_char(s, from, n, ':');
    proof {
        assert(forall|t: int| 0 <= t < rem.len() ==> rem[t] == s@[from + t]);
        lemma_first_index_of(rem, ':');
    }
    match colon {
        Some(k) => {
            proof {
                assert(has_char(rem, ':')) by {
                    assert(rem[k - from] == ':');
                }
                let f = first_index_of(rem, ':');
                assert(f == k - from) by {
                    if f < k - from {
                        assert(rem[f] == ':');
                        assert(s@[from + f] == ':');
                    }
                    if f > k - from {
                        assert(rem[k - from] != ':');
                    }
                }
                assert(rem.subrange(0, f) =~= s@.subrange(from as int, k as int));
                assert(rem.subrange(f + 1, rem.len() as int) =~= s@.subrange(k + 1, n as int));
            }
            (k, true)
        },
        None => {
            proof {
                assert(!has_char(rem, ':')) by {
                    if has_char(rem, ':') {
                        let i = choose|i: int| 0 <= i < rem.len() && rem[i] == ':';
                        assert(s@[from + i] == ':');
                    }
                }
            }
            (n, false)
        },
    }
}

/// The canonical `spotify:track:{id}` URI for an input that is either a
/// Spotify track URI (plain or named) or a bare 22-digit base62 track
/// id; `None` for every other input. See [`spec_track_uri`].
pub fn track_uri_from_input(input: &str) -> (r: Option<String>)
    ensures
        r.deep_view() == spec_track_uri(input@),
{
    let n = input.unicode_len();
    let ghost parts = split_seq(input@, ':');
    proof {
        assert(input@.subrange(0, n as int) =~= input@);
    }
    let (end0, has0) = next_piece(input, 0, n);
    assert(parts[0] == input@.subrange(0, end0 as int));
    if !range_eq(input, 0, end0, "spotify") {
        if is_base62_id(input, 0, n) {
            Some(make_track_uri(input, 0, n))
        } else {
            None
        }
    } else if !has0 {
        // A lone `spotify` with no colon cannot be an id either: ids have
        // twenty-two digits.
        assert(parts.len() == 1);
        None
    } else {
        let ghost rest1 = split_seq(input@.subrange(end0 + 1, n as int), ':');
        let (end1, has1) = next_piece(input, end0 + 1, n);
        assert(parts[1] == input@.subrange(end0 + 1, end1 as int));
        if !has1 {
            assert(parts.len() == 2);
            None
        } else {
            let ghost rest2 = split_seq(input@.subrange(end1 + 1, n as int), ':');
            assert(parts.len() >= 3 && parts[2] == rest2[0]) by {
                assert(rest2.len() >= 1);
            }
            let named = range_eq(input, end0 + 1, end1, "user");
            if !named {
                let (end2, _has2) = next_piece(input, end1 + 1, n);
                assert(parts[2] == input@.subrange(end1 + 1, end2 as int));
                if range_eq(input, end0 + 1, end1, "track") && is_base62_id(
                    input,
                    end1 + 1,
                    end2,
                ) {
                    Some(make_track_uri(input, end1 + 1, end2))
                } else {
                    None
                }
            } else {
                let (end2, has2) = next_piece(input, end1 + 1, n);
                assert(parts[2] == input@.subrange(end1 + 1, end2 as int));
                if !has2 {
                    assert(parts.len() == 3);
                    None
                } else {
                    let ghost rest3 = split_seq(input@.subrange(end2 + 1, n as int), ':');
                    let (end3, has3) = next_piece(input, end2 + 1, n);
                    assert(parts[3] == input@.subrange(end2 + 1, end3 as int));
                    if !has3 {
                        assert(parts.len() == 4);
                        None
                    } else {
                        let ghost rest4 = split_seq(input@.subrange(end3 + 1, n as int), ':');
                        assert(parts.len() >= 5 && parts[4] == rest4[0]) by {
                            assert(rest4.len() >= 1);
                        }
                        let (end4, _has4) = next_piece(input, end3 + 1, n);
                        assert(parts[4] == input@.subrange(end3 + 1, end4 as int));
                        if range_eq(input, end2 + 1, end3, "track") && is_base62_id(
                            input,
                            end3 + 1,
                            end4,
                        ) {
                            Some(make_track_uri(input, end3 + 1, end4))
                        } else {
                            None
                        }
                    }
                }
            }
        }
    }
}

} // verus!
