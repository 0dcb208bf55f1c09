//! The two frame-body shapes this layer must look inside, as verified
//! parsers over raw bytes: the `[string]` of an AUTHENTICATE body (the
//! server's advertised scheme) and the `[string multimap]` of a SUPPORTED
//! body (the options negotiation result).
//!
//! A `[string]` is a 16-bit big-endian length followed by that many bytes of
//! UTF-8; a `[string list]` is a 16-bit count of `[string]`s; a
//! `[string multimap]` is a 16-bit count of pairs of one `[string]` key and
//! one `[string list]`.

use vstd::prelude::*;
use vstd::utf8::{decode_utf8, encode_utf8, valid_utf8};

verus! {

/// The 16-bit big-endian integer over two bytes.
pub open spec fn be16(hi: u8, lo: u8) -> int {
    hi as int * 256 + lo as int
}

/// The `[string]` starting at offset `i`: its bytes and the offset after it,
/// or nothing when the buffer is too short for the length prefix or the run.
pub open spec fn string_at(b: Seq<u8>, i: int) -> Option<(Seq<u8>, int)> {
    if 0 <= i && i + 2 <= b.len() && i + 2 + be16(b[i], b[i + 1]) <= b.len() {
        Some((b.subrange(i + 2, i + 2 + be16(b[i], b[i + 1])), i + 2 + be16(b[i], b[i + 1])))
    } else {
        None
    }
}

/// `k` consecutive `[string]`s starting at offset `i`.
pub open spec fn string_list_at(b: Seq<u8>, i: int, k: nat) -> Option<(Seq<Seq<u8>>, int)>
    decreases k,
{
    if k == 0 {
        Some((Seq::empty(), i))
    } else {
        match string_at(b, i) {
            None => None,
            Some(s) => match string_list_at(b, s.1, (k - 1) as nat) {
                None => None,
                Some(rest) => Some((seq![s.0] + rest.0, rest.1)),
            },
        }
    }
}

/// `k` consecutive multimap entries starting at offset `i`: each one
/// `[string]` key, then a 16-bit count of value `[string]`s.
pub open spec fn pairs_at(b: Seq<u8>, i: int, k: nat) -> Option<
    (Seq<(Seq<u8>, Seq<Seq<u8>>)>, int),
>
    decreases k,
{
    if k == 0 {
        Some((Seq::empty(), i))
    } else {
        match string_at(b, i) {
            None => None,
            Some(key) => {
                if key.1 + 2 <= b.len() {
                    match string_list_at(b, key.1 + 2, be16(b[key.1], b[key.1 + 1]) as nat) {
                        None => None,
                        Some(vals) => match pairs_at(b, vals.1, (k - 1) as nat) {
                            None => None,
                            Some(rest) => Some((seq![(key.0, vals.0)] + rest.0, rest.1)),
                        },
                    }
                } else {
                    None
                }
            },
        }
    }
}

/// The multimap a SUPPORTED body carries, as raw byte strings; nothing when
/// the body is not a supported-options structure.
pub open spec fn supported_pairs(body: Seq<u8>) -> Option<Seq<(Seq<u8>, Seq<Seq<u8>>)>> {
    if body.len() >= 2 {
        match pairs_at(body, 2, be16(body[0], body[1]) as nat) {
            Some(ps) => Some(ps.0),
            None => None,
        }
    } else {
        None
    }
}

/// The scheme bytes an AUTHENTICATE body advertises: its leading `[string]`.
pub open spec fn auth_scheme_bytes(body: Seq<u8>) -> Option<Seq<u8>> {
    match string_at(body, 0) {
        Some(s) => Some(s.0),
        None => None,
    }
}

/// The advertised scheme as characters: present exactly when the body leads
/// with a `[string]` of valid UTF-8.
pub open spec fn auth_scheme_of(body: Seq<u8>) -> Option<Seq<char>> {
    match auth_scheme_bytes(body) {
        Some(bs) => if valid_utf8(bs) {
            Some(decode_utf8(bs))
        } else {
            None
        },
        None => None,
    }
}

/// Every byte string of the sequence is valid UTF-8.
pub open spec fn all_valid_utf8(bs: Seq<Seq<u8>>) -> bool {
    forall|i: int| 0 <= i < bs.len() ==> valid_utf8(#[trigger] bs[i])
}

/// The byte strings a sequence of strings encodes to.
pub open spec fn utf8_seq_of(ss: Seq<String>) -> Seq<Seq<u8>> {
    ss.map_values(|s: String| encode_utf8(s@))
}

/// The byte-string multimap a decoded options list encodes to.
pub open spec fn pairs_model(ps: Seq<(String, Vec<String>)>) -> Seq<(Seq<u8>, Seq<Seq<u8>>)> {
    ps.map_values(|p: (String, Vec<String>)| (encode_utf8(p.0@), utf8_seq_of(p.1@)))
}

/// Every key and every value of the byte-string multimap is valid UTF-8.
pub open spec fn pairs_all_utf8(ps: Seq<(Seq<u8>, Seq<Seq<u8>>)>) -> bool {
    forall|i: int|
        0 <= i < ps.len() ==> valid_utf8((#[trigger] ps[i]).0) && all_valid_utf8(ps[i].1)
}

/// Relies on String::from_utf8: it succeeds exactly on valid UTF-8 and the
/// string's characters are the decoding of the given bytes.
#[verifier::external_body]
fn string_from_bytes(v: Vec<u8>) -> (r: Option<String>)
    ensures
        r matches Some(s) ==> valid_utf8(v@) && s@ == decode_utf8(v@),
        r is None ==> !valid_utf8(v@),
{
    String::from_utf8(v).ok()
}

/// Reads the `[string]` at offset `i` as raw bytes.
fn read_string_at(b: &Vec<u8>, i: usize) -> (r: Option<(Vec<u8>, usize)>)
    ensures
        match r {
            Some(p) => string_at(b@, i as int) == Some((p.0@, p.1 as int)),
            None => string_at(b@, i as int) is None,
        },
{
    if b.len() < i || b.len() - i < 2 {
        return None;
    }
    let n: usize = (b[i] as usize) * 256 + (b[i + 1] as usize);
    if b.len() - (i + 2) < n {
        return None;
    }
    let end: usize = i + 2 + n;
    let mut out: Vec<u8> = Vec::new();
    let mut j: usize = i + 2;
    while j < end
        invariant
            i + 2 <= j <= end,
            end == i + 2 + n,
            end <= b.len(),
            n == be16(b@[i as int], b@[i as int + 1]),
            out@ == b@.subrange(i as int + 2, j as int),
        decreases end - j,
    {
        out.push(b[j]);
        proof {
            assert(out@ =~= b@.subrange(i as int + 2, j as int + 1));
        }
        j = j + 1;
    }
    proof {
        assert(string_at(b@, i as int) == Some((out@, end as int)));
    }
    Some((out, end))
}

/// Reads `k` `[string]`s at offset `i` and decodes each as UTF-8.
fn read_string_list(b: &Vec<u8>, i: usize, k: u16) -> (r: Option<(Vec<String>, usize)>)
    ensures
        match r {
            Some(p) => string_list_at(b@, i as int, k as nat) == Some((utf8_seq_of(p.0@), p.1 as int)),
            None => string_list_at(b@, i as int, k as nat) matches Some(q) ==> !all_valid_utf8(q.0),
        },
    decreases k,
{
    if k == 0 {
        let out: Vec<String> = Vec::new();
        proof {
            assert(utf8_seq_of(out@) =~= Seq::<Seq<u8>>::empty());
        }
        return Some((out, i));
    }
    let first = read_string_at(b, i);
    match first {
        None => None,
        Some(p) => {
            let ghost first_bytes = p.0@;
            match string_from_bytes(p.0) {
                None => {
                    proof {
                        broadcast use vstd::utf8::decode_utf8_encode_utf8;
                        let full = string_list_at(b@, i as int, k as nat);
                        if full is Some {
                            assert(!valid_utf8(full->Some_0.0[0]));
                        }
                    }
                    None
                },
                Some(s) => {
                    match read_string_list(b, p.1, k - 1) {
                        None => {
                            proof {
                                let full = string_list_at(b@, i as int, k as nat);
                                if full is Some {
                                    let q = full->Some_0;
                                    let rest = string_list_at(b@, p.1 as int, (k - 1) as nat);
                                    if !all_valid_utf8(rest->Some_0.0) {
                                        let bad = choose|x: int|
                                            0 <= x < rest->Some_0.0.len() && !valid_utf8(
                                                rest->Some_0.0[x],
                                            );
                                        assert(q.0[bad + 1] == rest->Some_0.0[bad]);
                                        assert(!all_valid_utf8(q.0));
                                    }
                                }
                            }
                            None
                        },
                        Some(mut rest) => {
                            rest.0.insert(0, s);
                            proof {
                                broadcast use vstd::utf8::decode_utf8_encode_utf8;
                                let full = string_list_at(b@, i as int, k as nat);
                                assert(encode_utf8(s@) == first_bytes);
                                assert(utf8_seq_of(rest.0@) =~= seq![first_bytes] + utf8_seq_of(
                                    rest.0@.drop_first(),
                                ));
                                assert(full == Some((utf8_seq_of(rest.0@), rest.1 as int)));
                            }
                            Some((rest.0, rest.1))
                        },
                    }
                },
            }
        },
    }
}

/// Reads `k` multimap entries at offset `i`, decoding keys and values.
fn read_pairs(b: &Vec<u8>, i: usize, k: u16) -> (r: Option<(Vec<(String, Vec<String>)>, usize)>)
    ensures
        match r {
            Some(p) => pairs_at(b@, i as int, k as nat) == Some((pairs_model(p.0@), p.1 as int)),
            None => pairs_at(b@, i as int, k as nat) matches Some(q) ==> !pairs_all_utf8(q.0),
        },
    decreases k,
{
    if k == 0 {
        let out: Vec<(String, Vec<String>)> = Vec::new();
        proof {
            assert(pairs_model(out@) =~= Seq::<(Seq<u8>, Seq<Seq<u8>>)>::empty());
        }
        return Some((out, i));
    }
    let key_read = read_string_at(b, i);
    match key_read {
        None => {
            proof {
                assert(pairs_at(b@, i as int, k as nat) is None);
            }
            None
        },
        Some(kp) => {
            let ghost key_bytes = kp.0@;
            let key_end = kp.1;
            match string_from_bytes(kp.0) {
                None => {
                    proof {
                        let full = pairs_at(b@, i as int, k as nat);
                        if full is Some {
                            let q = full->Some_0;
                            assert(q.0.len() > 0);
                            assert(q.0[0].0 == key_bytes);
                            assert(!(valid_utf8(q.0[0].0) && all_valid_utf8(q.0[0].1)));
                            assert(!pairs_all_utf8(q.0));
                        }
                    }
                    None
                },
                Some(key) => {
                    if b.len() < key_end || b.len() - key_end < 2 {
                        proof {
                            assert(pairs_at(b@, i as int, k as nat) is None);
                        }
                        return None;
                    }
                    let m: u16 = (b[key_end] as u16) * 256 + (b[key_end + 1] as u16);
                    match read_string_list(b, key_end + 2, m) {
                        None => {
                            proof {
                                let full = pairs_at(b@, i as int, k as nat);
                                if full is Some {
                                    let q = full->Some_0;
                                    let vals = string_list_at(
                                        b@,
                                        key_end as int + 2,
                                        be16(b@[key_end as int], b@[key_end as int + 1]) as nat,
                                    );
                                    assert(q.0.len() > 0);
                                    assert(!all_valid_utf8(vals->Some_0.0));
                                    assert(q.0[0].1 == vals->Some_0.0);
                                    let w = choose|x: int|
                                        0 <= x < vals->Some_0.0.len() && !valid_utf8(
                                            vals->Some_0.0[x],
                                        );
                                    assert(0 <= w < q.0[0].1.len());
                                    assert(!valid_utf8(q.0[0].1[w]));
                                    assert(!all_valid_utf8(q.0[0].1));
                                    assert(!(valid_utf8(q.0[0].0) && all_valid_utf8(q.0[0].1)));
                                    assert(!pairs_all_utf8(q.0));
                                }
                            }
                            None
                        },
                        Some(vp) => {
                            match read_pairs(b, vp.1, k - 1) {
                                None => {
                                    proof {
                                        let full = pairs_at(b@, i as int, k as nat);
                                        if full is Some {
                                            let q = full->Some_0;
                                            let rest = pairs_at(b@, vp.1 as int, (k - 1) as nat);
                                            if !pairs_all_utf8(rest->Some_0.0) {
                                                let bad = choose|x: int|
                                                    0 <= x < rest->Some_0.0.len() && !(valid_utf8(
                                                        rest->Some_0.0[x].0,
                                                    ) && all_valid_utf8(rest->Some_0.0[x].1));
                                                assert(q.0[bad + 1] == rest->Some_0.0[bad]);
                                                if !valid_utf8(rest->Some_0.0[bad].0) {
                                                    assert(!valid_utf8(q.0[bad + 1].0));
                                                } else {
                                                    let w2 = choose|x: int|
                                                        0 <= x < rest->Some_0.0[bad].1.len()
                                                            && !valid_utf8(
                                                            rest->Some_0.0[bad].1[x],
                                                        );
                                                    assert(!valid_utf8(q.0[bad + 1].1[w2]));
                                                    assert(!all_valid_utf8(q.0[bad + 1].1));
                                                }
                                                assert(!(valid_utf8(q.0[bad + 1].0)
                                                    && all_valid_utf8(q.0[bad + 1].1)));
                                                assert(!pairs_all_utf8(q.0));
                                            }
                                        }
                                    }
                                    None
                                },
                                Some(mut rest) => {
                                    let ghost rest_prev = rest.0@;
                                    let ghost vals_view = vp.0@;
                                    let ghost key_view = key@;
                                    rest.0.insert(0, (key, vp.0));
                                    proof {
                                        broadcast use vstd::utf8::decode_utf8_encode_utf8;
                                        assert(encode_utf8(key_view) == key_bytes);
                                        assert(rest.0@ == rest_prev.insert(0, rest.0@[0]));
                                        assert(rest.0@[0].0@ == key_view);
                                        assert(rest.0@[0].1@ == vals_view);
                                        assert(pairs_model(rest.0@) =~~= seq![
                                            (key_bytes, utf8_seq_of(vals_view)),
                                        ] + pairs_model(rest_prev)) by {
                                            assert(forall|x: int|
                                                0 <= x < rest_prev.len() ==> rest.0@[x + 1]
                                                    == #[trigger] rest_prev[x]);
                                        }
                                        assert(pairs_at(b@, i as int, k as nat) == Some(
                                            (pairs_model(rest.0@), rest.1 as int),
                                        ));
                                    }
                                    Some((rest.0, rest.1))
                                },
                            }
                        },
                    }
                },
            }
        },
    }
}

/// Extracts the advertised authenticator scheme from an AUTHENTICATE body,
/// or nothing when the body carries none.
pub fn parse_auth_scheme(body: &Vec<u8>) -> (r: Option<String>)
    ensures
        match r {
            Some(s) => auth_scheme_of(body@) == Some(s@),
            None => auth_scheme_of(body@) is None,
        },
{
    match read_string_at(body, 0) {
        None => None,
        Some(p) => string_from_bytes(p.0),
    }
}

/// Decodes the supported-options multimap of a SUPPORTED body, or nothing
/// when the body is not such a structure.
pub fn parse_supported(body: &Vec<u8>) -> (r: Option<Vec<(String, Vec<String>)>>)
    ensures
        match r {
            Some(ps) => supported_pairs(body@) == Some(pairs_model(ps@)),
            None => supported_pairs(body@) matches Some(q) ==> !pairs_all_utf8(q),
        },
{
    if body.len() < 2 {
        return None;
    }
    let k: u16 = (body[0] as u16) * 256 + (body[1] as u16);
    match read_pairs(body, 2, k) {
        None => None,
        Some(p) => Some(p.0),
    }
}

} // verus!
