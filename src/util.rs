//! Small helpers.
use vstd::prelude::*;
use vstd::slice::slice_subrange;
use vstd::utf8::{decode_utf8, encode_utf8, encode_utf8_decode_utf8, valid_utf8};

verus! {

/// The mark that stands for each invalid sequence in the text of
/// [`Utf8Lossy`].
pub const REPLACEMENT_MARK: char = '\u{FFDD}';

/// The first `n` bytes of `b` are valid UTF-8, and no longer prefix is.
pub open spec fn is_longest_valid_prefix(b: Seq<u8>, n: nat) -> bool {
    &&& n <= b.len()
    &&& valid_utf8(b.subrange(0, n as int))
    &&& forall|m: int| n < m <= b.len() ==> !valid_utf8(#[trigger] b.subrange(0, m))
}

/// Where the longest valid UTF-8 prefix of `b` ends.
pub open spec fn valid_up_to_of(b: Seq<u8>) -> nat {
    choose|n: nat| is_longest_valid_prefix(b, n)
}

/// The longest valid prefix is unique.
proof fn lemma_valid_up_to(b: Seq<u8>, n: nat)
    requires
        is_longest_valid_prefix(b, n),
    ensures
        valid_up_to_of(b) == n,
{
    let c = valid_up_to_of(b);
    assert(is_longest_valid_prefix(b, c));
    if c < n {
        assert(!valid_utf8(b.subrange(0, n as int)));
    } else if n < c {
        assert(!valid_utf8(b.subrange(0, c as int)));
    }
}

/// The length of the invalid sequence after the valid prefix of `bytes`;
/// none where the bytes end inside an incomplete sequence.
pub uninterp spec fn utf8_error_len(bytes: Seq<u8>) -> Option<nat>;

/// Relies on `std::str::from_utf8`: text where the bytes are valid UTF-8;
/// otherwise its error's `valid_up_to` (the end of the longest valid
/// prefix, short of the end of the bytes)
/// and `error_len` (the length, at least one, of the invalid sequence that
/// follows it, where one follows).
#[verifier::external_body]
fn from_utf8(bytes: &[u8]) -> (r: Result<String, (usize, Option<usize>)>)
    ensures
        r is Ok <==> valid_utf8(bytes@),
        r matches Ok(s) ==> encode_utf8(s@) == bytes@,
        r matches Err((n, k)) ==> {
            &&& is_longest_valid_prefix(bytes@, n as nat)
            &&& n < bytes@.len()
            &&& k is None ==> utf8_error_len(bytes@) is None
            &&& k matches Some(l) ==> utf8_error_len(bytes@) == Some(l as nat) && 1 <= l && n + l
                <= bytes@.len()
        },
{
    match std::str::from_utf8(bytes) {
        Ok(s) => Ok(s.to_string()),
        Err(e) => Err((e.valid_up_to(), e.error_len())),
    }
}

/// The text of `b`: each valid prefix decoded, each invalid sequence after it
/// replaced by one [`REPLACEMENT_MARK`]; an incomplete sequence at the end
/// becomes one mark too.
pub open spec fn lossy_of(b: Seq<u8>) -> Seq<char>
    decreases b.len(),
{
    if valid_utf8(b) {
        decode_utf8(b)
    } else {
        let n = valid_up_to_of(b);
        let head = decode_utf8(b.subrange(0, n as int)) + seq![REPLACEMENT_MARK];
        match utf8_error_len(b) {
            Some(k) => if 1 <= k && n + k <= b.len() {
                head + lossy_of(b.subrange((n + k) as int, b.len() as int))
            } else {
                head
            },
            None => head,
        }
    }
}

/// Bytes that are shown as text where they are valid UTF-8, with a
/// replacement mark for each invalid sequence.
#[derive(Clone, Copy)]
pub struct Utf8Lossy<'a>(pub &'a [u8]);

impl<'a> Utf8Lossy<'a> {
    /// The bytes shown.
    pub fn bytes(&self) -> (r: &'a [u8])
        ensures
            r@ == self.0@,
    {
        self.0
    }

    /// The bytes as text, with a [`REPLACEMENT_MARK`] for each invalid
    /// sequence.
    pub fn to_string(&self) -> (r: String)
        ensures
            r@ == lossy_of(self.0@),
    {
        let mut out = String::new();
        let mut input: &[u8] = self.0;
        loop
            invariant
                out@ + lossy_of(input@) == lossy_of(self.0@),
            decreases input@.len(),
        {
            match from_utf8(input) {
                Ok(s) => {
                    proof {
                        encode_utf8_decode_utf8(s@);
                    }
                    out.append(s.as_str());
                    assert(out@ == lossy_of(self.0@));
                    return out;
                },
                Err((n, k)) => {
                    proof {
                        lemma_valid_up_to(input@, n as nat);
                    }
                    let ghost before = out@;
                    let valid = slice_subrange(input, 0, n);
                    match from_utf8(valid) {
                        Ok(t) => {
                            proof {
                                encode_utf8_decode_utf8(t@);
                            }
                            out.append(t.as_str());
                        },
                        Err(_) => {
                            return out;
                        },
                    }
                    proof {
                        reveal_strlit("\u{FFDD}");
                    }
                    out.append("\u{FFDD}");
                    let ghost head = decode_utf8(input@.subrange(0, n as int)) + seq![
                        REPLACEMENT_MARK,
                    ];
                    assert(out@ =~= before + head);
                    match k {
                        Some(l) => {
                            let len = input.len();
                            let rest = slice_subrange(input, n + l, len);
                            assert(before + lossy_of(input@) == before + (head + lossy_of(rest@)));
                            assert(out@ + lossy_of(rest@) =~= before + (head + lossy_of(rest@)));
                            input = rest;
                        },
                        None => {
                            return out;
                        },
                    }
                },
            }
        }
    }
}

impl<'a> From<&'a [u8]> for Utf8Lossy<'a> {
    fn from(bytes: &'a [u8]) -> (r: Utf8Lossy<'a>)
        ensures
            r.0@ == bytes@,
    {
        Utf8Lossy(bytes)
    }
}

impl<'a> vstd::std_specs::convert::FromSpecImpl<&'a [u8]> for Utf8Lossy<'a> {
    open spec fn obeys_from_spec() -> bool {
        true
    }

    open spec fn from_spec(v: &'a [u8]) -> Utf8Lossy<'a> {
        Utf8Lossy(v)
    }
}

} // verus!
