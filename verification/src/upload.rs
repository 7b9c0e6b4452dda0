//! Files uploaded through the editor's forms: their size limit and the
//! base64 text (RFC 4648, standard alphabet, padded) in which the browser
//! sends their contents.

use crate::models::FileUpload;
use vstd::prelude::*;

verus! {

/// The longest base64 text accepted for an image: about 5 MB of data.
pub const MAX_IMAGE_CONTENT_LEN: usize = 7_000_000;

/// The value of a base64 digit, or `None` for a byte outside the alphabet
/// (`A`-`Z`, `a`-`z`, `0`-`9`, `+`, `/`).
pub open spec fn sextet(c: u8) -> Option<u8> {
    if 65 <= c <= 90 {
        Some((c - 65) as u8)
    } else if 97 <= c <= 122 {
        Some((c - 71) as u8)
    } else if 48 <= c <= 57 {
        Some((c + 4) as u8)
    } else if c == 43 {
        Some(62u8)
    } else if c == 47 {
        Some(63u8)
    } else {
        None
    }
}

/// The padding byte `=`.
pub open spec fn is_pad(c: u8) -> bool {
    c == 61
}

/// The three bytes that four base64 digits stand for.
pub open spec fn group_bytes(a: u8, b: u8, c: u8, d: u8) -> Seq<u8> {
    seq![(a * 4 + b / 16) as u8, ((b % 16) * 16 + c / 4) as u8, ((c % 4) * 64 + d) as u8]
}

/// Four digits without padding.
pub open spec fn decode_full_group(g: Seq<u8>) -> Option<Seq<u8>> {
    if sextet(g[0]) is Some && sextet(g[1]) is Some && sextet(g[2]) is Some && sextet(
        g[3],
    ) is Some {
        Some(group_bytes(sextet(g[0])->0, sextet(g[1])->0, sextet(g[2])->0, sextet(g[3])->0))
    } else {
        None
    }
}

/// The last group of four: with two `=` it holds one byte, with one `=` two
/// bytes, else three. The bits that the padding leaves over must be zero.
pub open spec fn decode_last_group(g: Seq<u8>) -> Option<Seq<u8>> {
    if is_pad(g[2]) && is_pad(g[3]) {
        if sextet(g[0]) is Some && sextet(g[1]) is Some && sextet(g[1])->0 % 16 == 0 {
            Some(group_bytes(sextet(g[0])->0, sextet(g[1])->0, 0, 0).take(1))
        } else {
            None
        }
    } else if is_pad(g[3]) {
        if sextet(g[0]) is Some && sextet(g[1]) is Some && sextet(g[2]) is Some && sextet(g[2])->0
            % 4 == 0 {
            Some(group_bytes(sextet(g[0])->0, sextet(g[1])->0, sextet(g[2])->0, 0).take(2))
        } else {
            None
        }
    } else {
        decode_full_group(g)
    }
}

/// The bytes that base64 text stands for, or `None` where it is not valid
/// padded base64: a length that is not a multiple of four, a byte outside
/// the alphabet, padding anywhere but at the end, or leftover bits that are
/// not zero.
pub open spec fn decode_base64(s: Seq<u8>) -> Option<Seq<u8>>
    decreases s.len(),
{
    if s.len() == 0 {
        Some(Seq::empty())
    } else if s.len() < 4 {
        None
    } else if s.len() == 4 {
        decode_last_group(s)
    } else {
        match decode_full_group(s.take(4)) {
            None => None,
            Some(head) => match decode_base64(s.skip(4)) {
                None => None,
                Some(tail) => Some(head + tail),
            },
        }
    }
}

/// `p` followed by the bytes of `r`, where there are any.
pub open spec fn prepend(p: Seq<u8>, r: Option<Seq<u8>>) -> Option<Seq<u8>> {
    match r {
        None => None,
        Some(t) => Some(p + t),
    }
}

fn sextet_of(c: u8) -> (r: Option<u8>)
    ensures
        r == sextet(c),
{
    if 65 <= c && c <= 90 {
        Some(c - 65)
    } else if 97 <= c && c <= 122 {
        Some(c - 71)
    } else if 48 <= c && c <= 57 {
        Some(c + 4)
    } else if c == 43 {
        Some(62)
    } else if c == 47 {
        Some(63)
    } else {
        None
    }
}

proof fn lemma_sextet_small(c: u8)
    ensures
        sextet(c) is Some ==> sextet(c)->0 < 64,
{
}

fn full_group_exec(g0: u8, g1: u8, g2: u8, g3: u8) -> (r: Option<(u8, u8, u8)>)
    ensures
        match r {
            Some((x, y, z)) => decode_full_group(seq![g0, g1, g2, g3]) == Some(seq![x, y, z]),
            None => decode_full_group(seq![g0, g1, g2, g3]) is None,
        },
{
    proof {
        lemma_sextet_small(g0);
        lemma_sextet_small(g1);
        lemma_sextet_small(g2);
        lemma_sextet_small(g3);
    }
    match (sextet_of(g0), sextet_of(g1), sextet_of(g2), sextet_of(g3)) {
        (Some(a), Some(b), Some(c), Some(d)) => {
            let r = (a * 4 + b / 16, (b % 16) * 16 + c / 4, (c % 4) * 64 + d);
            assert(group_bytes(a, b, c, d) =~= seq![r.0, r.1, r.2]);
            Some(r)
        },
        _ => None,
    }
}

fn last_group_exec(g0: u8, g1: u8, g2: u8, g3: u8) -> (r: Option<Vec<u8>>)
    ensures
        match r {
            Some(v) => decode_last_group(seq![g0, g1, g2, g3]) == Some(v@),
            None => decode_last_group(seq![g0, g1, g2, g3]) is None,
        },
{
    proof {
        lemma_sextet_small(g0);
        lemma_sextet_small(g1);
        lemma_sextet_small(g2);
    }
    let mut out: Vec<u8> = Vec::new();
    if g2 == 61 && g3 == 61 {
        return match (sextet_of(g0), sextet_of(g1)) {
            (Some(a), Some(b)) => if b % 16 == 0 {
                out.push(a * 4 + b / 16);
                assert(group_bytes(a, b, 0, 0).take(1) =~= out@);
                Some(out)
            } else {
                None
            },
            _ => None,
        };
    }
    if g3 == 61 {
        return match (sextet_of(g0), sextet_of(g1), sextet_of(g2)) {
            (Some(a), Some(b), Some(c)) => if c % 4 == 0 {
                out.push(a * 4 + b / 16);
                out.push((b % 16) * 16 + c / 4);
                assert(group_bytes(a, b, c, 0).take(2) =~= out@);
                Some(out)
            } else {
                None
            },
            _ => None,
        };
    }
    match full_group_exec(g0, g1, g2, g3) {
        Some((x, y, z)) => {
            out.push(x);
            out.push(y);
            out.push(z);
            assert(out@ =~= seq![x, y, z]);
            Some(out)
        },
        None => None,
    }
}

/// Decodes padded standard base64 text.
pub fn decode_base64_bytes(s: &[u8]) -> (r: Option<Vec<u8>>)
    ensures
        match r {
            Some(v) => decode_base64(s@) == Some(v@),
            None => decode_base64(s@) is None,
        },
{
    let n = s.len();
    let mut out: Vec<u8> = Vec::new();
    if n == 0 {
        assert(out@ =~= Seq::<u8>::empty());
        return Some(out);
    }
    let mut i: usize = 0;
    assert(s@.skip(0) =~= s@);
    proof {
        if let Some(t) = decode_base64(s@) {
            assert(out@ + t =~= t);
        }
    }
    loop
        invariant
            i < n,
            n == s@.len(),
            decode_base64(s@) == prepend(out@, decode_base64(s@.skip(i as int))),
        decreases n - i,
    {
        let ghost rest = s@.skip(i as int);
        if n - i < 4 {
            return None;
        }
        let (g0, g1, g2, g3) = (s[i], s[i + 1], s[i + 2], s[i + 3]);
        assert(rest.take(4) =~= seq![g0, g1, g2, g3]);
        if n - i == 4 {
            assert(rest =~= seq![g0, g1, g2, g3]);
            return match last_group_exec(g0, g1, g2, g3) {
                Some(tail) => {
                    let mut all = out;
                    let ghost before = all@;
                    let mut k: usize = 0;
                    while k < tail.len()
                        invariant
                            k <= tail@.len(),
                            all@ == before + tail@.take(k as int),
                        decreases tail.len() - k,
                    {
                        all.push(tail[k]);
                        assert(tail@.take(k + 1) =~= tail@.take(k as int).push(tail@[k as int]));
                        k += 1;
                    }
                    assert(tail@.take(tail@.len() as int) =~= tail@);
                    Some(all)
                },
                None => None,
            };
        }
        match full_group_exec(g0, g1, g2, g3) {
            Some((x, y, z)) => {
                let ghost before = out@;
                out.push(x);
                out.push(y);
                out.push(z);
                assert(out@ =~= before + seq![x, y, z]);
                assert(rest.skip(4) =~= s@.skip(i as int + 4));
                i += 4;
            },
            None => {
                return None;
            },
        }
    }
}

impl FileUpload {
    /// The name of the file.
    pub fn filename(&self) -> (name: &str)
        ensures
            name@ == self.name@,
    {
        self.name.as_str()
    }

    /// Whether the base64 text of the file is longer than the editor accepts.
    pub fn is_too_large(&self) -> (b: bool)
        ensures
            b == ((vstd::utf8::encode_utf8(self.contents@).len() as usize) > MAX_IMAGE_CONTENT_LEN),
    {
        self.contents.as_str().len() > MAX_IMAGE_CONTENT_LEN
    }

    /// The decoded contents of the file and its MIME type, or `None` where
    /// the contents are not valid base64.
    pub fn decode(&self) -> (r: Option<(Vec<u8>, String)>)
        ensures
            match r {
                Some((data, mime)) => decode_base64(vstd::utf8::encode_utf8(self.contents@))
                    == Some(data@) && mime@ == self.mime@,
                None => decode_base64(vstd::utf8::encode_utf8(self.contents@)) is None,
            },
    {
        let bytes = self.contents.as_str().as_bytes();
        match decode_base64_bytes(bytes) {
            Some(data) => Some((data, self.mime.clone())),
            None => None,
        }
    }
}

} // verus!
