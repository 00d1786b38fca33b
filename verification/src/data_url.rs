//! The `data:` URI that the JSON response carries: its construction from
//! a document, and the parse that inverts it.

use vstd::prelude::*;

use crate::document::Document;
use vstd::string::StrSliceExecFns;
use vstd::string::StringExecFns;

verus! {

/// The character sequence that base64 assigns to a byte sequence, under
/// the standard alphabet with padding. It depends on the bytes alone.
pub uninterp spec fn base64_of(bytes: Seq<u8>) -> Seq<char>;

/// Relies on base64's `Engine::encode` with the standard engine: the
/// padded standard-alphabet encoding of the bytes; empty input encodes to
/// the empty string.
#[verifier::external_body]
fn base64_encode(bytes: &Vec<u8>) -> (r: String)
    ensures
        r@ == base64_of(bytes@),
        bytes@.len() == 0 ==> r@.len() == 0,
{
    base64::engine::Engine::encode(&base64::engine::general_purpose::STANDARD, bytes.as_slice())
}

/// The data URI for a media type and an already-encoded payload.
pub open spec fn spec_data_url(ct: Seq<char>, enc: Seq<char>) -> Seq<char> {
    "data:"@ + ct + ";base64,"@ + enc
}

/// Whether `i` is the position of the first semicolon of `s`.
pub open spec fn is_first_semi(s: Seq<char>, i: int) -> bool {
    &&& 0 <= i < s.len()
    &&& s[i] == ';'
    &&& forall|j: int| 0 <= j < i ==> s[j] != ';'
}

/// What parsing a data URI yields: the media type up to the first
/// semicolon and the encoded payload after the `;base64,` marker, or
/// nothing when the string is not of that shape.
pub open spec fn spec_parse_data_url(s: Seq<char>) -> Option<(Seq<char>, Seq<char>)> {
    if s.len() >= 5 && s.take(5) == "data:"@ && (exists|i: int| is_first_semi(s.skip(5), i)) {
        let i = choose|i: int| is_first_semi(s.skip(5), i);
        let rest = s.skip(5);
        if i + 8 <= rest.len() && rest.subrange(i, i + 8) == ";base64,"@ {
            Some((rest.take(i), rest.skip(i + 8)))
        } else {
            None
        }
    } else {
        None
    }
}

/// Two first-semicolon positions are the same position.
pub proof fn lemma_first_semi_unique(s: Seq<char>, i: int, j: int)
    requires
        is_first_semi(s, i),
        is_first_semi(s, j),
    ensures
        i == j,
{
    if i < j {
        assert(s[i] != ';');
    }
    if j < i {
        assert(s[j] != ';');
    }
}

impl Document {
    /// The `data:{content_type};base64,{payload}` URI of the document.
    pub fn to_url(&self) -> (r: String)
        ensures
            r@ == spec_data_url(self.content_type@, base64_of(self.bytes@)),
    {
        let encoded = base64_encode(&self.bytes);
        let mut out = "data:".to_owned();
        out.append(self.content_type.as_str());
        out.append(";base64,");
        out.append(encoded.as_str());
        proof {
            assert(out@ =~= spec_data_url(self.content_type@, base64_of(self.bytes@)));
        }
        out
    }
}

/// Parses a data URI back into its media type and encoded payload.
pub fn parse_data_url(s: &str) -> (r: Option<(String, String)>)
    ensures
        match r {
            Some(p) => spec_parse_data_url(s@) == Some((p.0@, p.1@)),
            None => spec_parse_data_url(s@) is None,
        },
{
    proof {
        reveal_strlit("data:");
        reveal_strlit(";base64,");
    }
    let n = s.unicode_len();
    if n < 5 {
        return None;
    }
    if !(s.get_char(0) == 'd' && s.get_char(1) == 'a' && s.get_char(2) == 't' && s.get_char(3)
        == 'a' && s.get_char(4) == ':') {
        proof {
            assert(s@.take(5) != "data:"@) by {
                if s@.take(5) == "data:"@ {
                    assert(s@[0] == 'd' && s@[1] == 'a' && s@[2] == 't' && s@[3] == 'a' && s@[4]
                        == ':') by {
                        assert(s@.take(5)[0] == s@[0]);
                        assert(s@.take(5)[1] == s@[1]);
                        assert(s@.take(5)[2] == s@[2]);
                        assert(s@.take(5)[3] == s@[3]);
                        assert(s@.take(5)[4] == s@[4]);
                    }
                }
            }
        }
        return None;
    }
    proof {
        assert(s@.take(5) =~= "data:"@);
    }
    let mut i: usize = 5;
    while i < n && s.get_char(i) != ';'
        invariant
            5 <= i <= n,
            n == s@.len(),
            forall|j: int| 5 <= j < i ==> s@[j] != ';',
        decreases n - i,
    {
        i = i + 1;
    }
    let ghost rest = s@.skip(5);
    if i == n {
        proof {
            assert forall|k: int| !is_first_semi(rest, k) by {
                if is_first_semi(rest, k) {
                    assert(s@[k + 5] == ';');
                }
            }
        }
        return None;
    }
    proof {
        assert(s@[i as int] == ';');
        assert(rest[i - 5] == ';');
        assert(is_first_semi(rest, i - 5)) by {
            assert(forall|j: int| 0 <= j < i - 5 ==> rest[j] == s@[j + 5] && s@[j + 5] != ';');
        }
        let w = choose|k: int| is_first_semi(rest, k);
        lemma_first_semi_unique(rest, w, i - 5);
    }
    if n - i < 8 {
        return None;
    }
    if !(s.get_char(i + 1) == 'b' && s.get_char(i + 2) == 'a' && s.get_char(i + 3) == 's'
        && s.get_char(i + 4) == 'e' && s.get_char(i + 5) == '6' && s.get_char(i + 6) == '4'
        && s.get_char(i + 7) == ',') {
        proof {
            let marker = rest.subrange(i - 5, i + 3);
            assert(marker != ";base64,"@) by {
                if marker == ";base64,"@ {
                    assert(marker[1] == 'b' && marker[2] == 'a' && marker[3] == 's' && marker[4]
                        == 'e' && marker[5] == '6' && marker[6] == '4' && marker[7] == ',');
                    assert(marker[1] == s@[i + 1]);
                    assert(marker[2] == s@[i + 2]);
                    assert(marker[3] == s@[i + 3]);
                    assert(marker[4] == s@[i + 4]);
                    assert(marker[5] == s@[i + 5]);
                    assert(marker[6] == s@[i + 6]);
                    assert(marker[7] == s@[i + 7]);
                }
            }
        }
        return None;
    }
    let ct = s.substring_char(5, i).to_owned();
    let enc = s.substring_char(i + 8, n).to_owned();
    proof {
        assert(rest.subrange(i - 5, i + 3) =~= ";base64,"@);
        assert(ct@ =~= rest.take(i - 5));
        assert(enc@ =~= rest.skip(i + 3));
    }
    Some((ct, enc))
}

/// Constructing a data URI and parsing it back returns the media type and
/// the encoded payload unchanged, for every media type free of
/// semicolons.
pub proof fn lemma_data_url_round_trip(ct: Seq<char>, enc: Seq<char>)
    requires
        forall|j: int| 0 <= j < ct.len() ==> ct[j] != ';',
    ensures
        spec_parse_data_url(spec_data_url(ct, enc)) == Some((ct, enc)),
{
    reveal_strlit("data:");
    reveal_strlit(";base64,");
    let s = spec_data_url(ct, enc);
    assert(s.take(5) =~= "data:"@);
    let rest = s.skip(5);
    assert(rest =~= ct + ";base64,"@ + enc);
    let i = ct.len() as int;
    assert(is_first_semi(rest, i)) by {
        assert(rest[i] == ';');
        assert(forall|j: int| 0 <= j < i ==> rest[j] == ct[j] && ct[j] != ';');
    }
    let w = choose|k: int| is_first_semi(rest, k);
    lemma_first_semi_unique(rest, w, i);
    assert(rest.subrange(i, i + 8) =~= ";base64,"@);
    assert(rest.take(i) =~= ct);
    assert(rest.skip(i + 8) =~= enc);
}

} // verus!
