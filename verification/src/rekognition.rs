//! The cloud moderation provider's vocabulary: label normalization, the
//! flattening of label hierarchies, and the request-signing key schedule.
//! The provider call itself is network work and stays outside.

use vstd::prelude::*;

use crate::moderation::category_rank;
use crate::moderation::ModerationCategories;
use crate::moderation::SupportedMimeTypes;
use crate::strings::str_eq;
use hmac::KeyInit;
use hmac::Mac;
use vstd::string::StringExecFns;

verus! {

/// The image moderation provider, identified by its region.
pub struct Rekognition {
    pub region: String,
}

/// The category a raw provider label name normalizes to; unknown names
/// map to `Unknown`.
pub open spec fn spec_normalize_category(s: Seq<char>) -> ModerationCategories {
    if s == "Explicit Nudity"@ {
        ModerationCategories::ExplicitNudity
    } else if s == "Suggestive"@ {
        ModerationCategories::Suggestive
    } else if s == "Violence"@ {
        ModerationCategories::Violence
    } else if s == "Visually Disturbing"@ {
        ModerationCategories::VisuallyDisturbing
    } else if s == "Rude"@ {
        ModerationCategories::Rude
    } else if s == "Drugs"@ {
        ModerationCategories::Drugs
    } else if s == "Tobacco"@ {
        ModerationCategories::Tobacco
    } else if s == "Alcohol"@ {
        ModerationCategories::Alcohol
    } else if s == "Gambling"@ {
        ModerationCategories::Gambling
    } else if s == "Hate"@ {
        ModerationCategories::Hate
    } else if s == "Explicit"@ {
        ModerationCategories::ExplicitContent
    } else if s == "Rude Gestures"@ {
        ModerationCategories::Rude
    } else if s == "Drugs & Tobacco"@ {
        ModerationCategories::DrugsAndTobacco
    } else if s == "Non-Explicit Nudity of Intimate parts and Kissing"@ {
        ModerationCategories::Suggestive
    } else if s == "Swimwear or Underwear"@ {
        ModerationCategories::Suggestive
    } else {
        ModerationCategories::Unknown
    }
}

impl Rekognition {
    /// Maps one raw provider label name into the closed category list.
    pub fn normalize_category(input: &str) -> (r: ModerationCategories)
        ensures
            r == spec_normalize_category(input@),
    {
        if str_eq(input, "Explicit Nudity") {
            ModerationCategories::ExplicitNudity
        } else if str_eq(input, "Suggestive") {
            ModerationCategories::Suggestive
        } else if str_eq(input, "Violence") {
            ModerationCategories::Violence
        } else if str_eq(input, "Visually Disturbing") {
            ModerationCategories::VisuallyDisturbing
        } else if str_eq(input, "Rude") {
            ModerationCategories::Rude
        } else if str_eq(input, "Drugs") {
            ModerationCategories::Drugs
        } else if str_eq(input, "Tobacco") {
            ModerationCategories::Tobacco
        } else if str_eq(input, "Alcohol") {
            ModerationCategories::Alcohol
        } else if str_eq(input, "Gambling") {
            ModerationCategories::Gambling
        } else if str_eq(input, "Hate") {
            ModerationCategories::Hate
        } else if str_eq(input, "Explicit") {
            ModerationCategories::ExplicitContent
        } else if str_eq(input, "Rude Gestures") {
            ModerationCategories::Rude
        } else if str_eq(input, "Drugs & Tobacco") {
            ModerationCategories::DrugsAndTobacco
        } else if str_eq(input, "Non-Explicit Nudity of Intimate parts and Kissing") {
            ModerationCategories::Suggestive
        } else if str_eq(input, "Swimwear or Underwear") {
            ModerationCategories::Suggestive
        } else {
            ModerationCategories::Unknown
        }
    }

    /// The media types the provider accepts directly.
    pub fn supported_types(&self) -> (r: Vec<SupportedMimeTypes>)
        ensures
            r@ =~= seq![SupportedMimeTypes::ImageJpeg, SupportedMimeTypes::ImagePng],
    {
        let mut v: Vec<SupportedMimeTypes> = Vec::new();
        v.push(SupportedMimeTypes::ImageJpeg);
        v.push(SupportedMimeTypes::ImagePng);
        v
    }

    /// The byte cap the provider accepts directly: its five-megabyte
    /// binary limit scaled down by the base64 expansion factor of one and
    /// a half, rounded up.
    pub fn max_document_size(&self) -> (r: u64)
        ensures
            r == (5242880 * 2 + 2) / 3,
    {
        3495254
    }
}

/// One label of a provider response: its name and, for hierarchical
/// labels, the parent's name.
pub struct Label {
    pub name: Option<String>,
    pub parent_name: Option<String>,
}

/// A label is top-level when it has a name and no (or an empty) parent;
/// hierarchies are flattened by keeping only these.
pub open spec fn spec_top_level(l: Label) -> bool {
    &&& l.name is Some
    &&& (l.parent_name is None || l.parent_name->0@ == Seq::<char>::empty())
}

/// Whether a top-level label of the batch normalizes to the category.
pub open spec fn spec_label_yields(labels: Seq<Label>, c: ModerationCategories) -> bool {
    exists|i: int|
        0 <= i < labels.len() && spec_top_level(#[trigger] labels[i]) && spec_normalize_category(
            labels[i].name->0@,
        ) == c
}

/// The category of a given rank.
fn category_of_rank(r: u8) -> (c: ModerationCategories)
    requires
        r < 13,
    ensures
        category_rank(c) == r as int,
{
    if r == 0 {
        ModerationCategories::ExplicitNudity
    } else if r == 1 {
        ModerationCategories::Suggestive
    } else if r == 2 {
        ModerationCategories::Violence
    } else if r == 3 {
        ModerationCategories::VisuallyDisturbing
    } else if r == 4 {
        ModerationCategories::Rude
    } else if r == 5 {
        ModerationCategories::Drugs
    } else if r == 6 {
        ModerationCategories::Tobacco
    } else if r == 7 {
        ModerationCategories::Alcohol
    } else if r == 8 {
        ModerationCategories::Gambling
    } else if r == 9 {
        ModerationCategories::Hate
    } else if r == 10 {
        ModerationCategories::ExplicitContent
    } else if r == 11 {
        ModerationCategories::DrugsAndTobacco
    } else {
        ModerationCategories::Unknown
    }
}

/// Flattens and normalizes a provider label batch: only top-level labels
/// count, each normalizes into the closed list, duplicates are removed,
/// and the result is sorted by the defined category order.
pub fn normalize_labels(labels: &Vec<Label>) -> (r: Vec<ModerationCategories>)
    ensures
        forall|c: ModerationCategories| r@.contains(c) <==> spec_label_yields(labels@, c),
        forall|i: int, j: int|
            0 <= i < j < r@.len() ==> category_rank(r@[i]) < category_rank(r@[j]),
{
    let mut collected: Vec<ModerationCategories> = Vec::new();
    let mut i: usize = 0;
    while i < labels.len()
        invariant
            i <= labels@.len(),
            forall|c: ModerationCategories|
                collected@.contains(c) <==> spec_label_yields(labels@.take(i as int), c),
        decreases labels@.len() - i,
    {
        let l = &labels[i];
        let top_level = match &l.parent_name {
            Option::None => true,
            Some(p) => p.as_str().is_empty(),
        };
        proof {
            if l.parent_name is Some && l.parent_name->0@.len() == 0 {
                assert(l.parent_name->0@ =~= Seq::<char>::empty());
            }
            if l.parent_name is Some && l.parent_name->0@ == Seq::<char>::empty() {
                assert(l.parent_name->0@.len() == 0);
            }
        }
        let ghost pre = collected@;
        if top_level {
            match &l.name {
                Some(name) => {
                    collected.push(Rekognition::normalize_category(name.as_str()));
                },
                Option::None => {},
            }
        }
        i = i + 1;
        proof {
            let lt = labels@.take(i as int);
            assert(lt.drop_last() =~= labels@.take(i as int - 1));
            assert(lt.last() == labels@[i as int - 1]);
            assert forall|c: ModerationCategories|
                collected@.contains(c) <==> spec_label_yields(lt, c) by {
                if collected@.contains(c) {
                    let k = choose|k: int| 0 <= k < collected@.len() && collected@[k] == c;
                    if k < pre.len() {
                        assert(pre.contains(c));
                        let w = choose|w: int|
                            0 <= w < lt.drop_last().len() && spec_top_level(
                                #[trigger] lt.drop_last()[w],
                            ) && spec_normalize_category(lt.drop_last()[w].name->0@) == c;
                        assert(lt[w] == lt.drop_last()[w]);
                        assert(spec_label_yields(lt, c));
                    } else {
                        assert(spec_top_level(lt[i as int - 1]) && spec_normalize_category(
                            lt[i as int - 1].name->0@,
                        ) == c);
                        assert(spec_label_yields(lt, c));
                    }
                }
                if spec_label_yields(lt, c) {
                    let w = choose|w: int|
                        0 <= w < lt.len() && spec_top_level(#[trigger] lt[w])
                            && spec_normalize_category(lt[w].name->0@) == c;
                    if w < i as int - 1 {
                        assert(lt.drop_last()[w] == lt[w]);
                        assert(spec_label_yields(lt.drop_last(), c));
                        assert(pre.contains(c));
                        let k = choose|k: int| 0 <= k < pre.len() && pre[k] == c;
                        assert(collected@[k] == c);
                    } else {
                        assert(collected@[collected@.len() - 1] == c);
                    }
                    assert(collected@.contains(c));
                }
            }
        }
    }
    proof {
        assert(labels@.take(labels@.len() as int) =~= labels@);
    }
    let mut out: Vec<ModerationCategories> = Vec::new();
    let mut r: u8 = 0;
    while r < 13
        invariant
            r <= 13,
            forall|c: ModerationCategories|
                out@.contains(c) <==> (collected@.contains(c) && category_rank(c) < r as int),
            forall|i: int, j: int|
                0 <= i < j < out@.len() ==> category_rank(out@[i]) < category_rank(out@[j]),
            forall|i: int| 0 <= i < out@.len() ==> category_rank(out@[i]) < r as int,
        decreases 13 - r,
    {
        let c = category_of_rank(r);
        let ghost pre = out@;
        let mut present = false;
        let mut k: usize = 0;
        while k < collected.len()
            invariant
                k <= collected@.len(),
                present == exists|j: int| 0 <= j < k && collected@[j] == c,
            decreases collected@.len() - k,
        {
            if collected[k] == c {
                present = true;
            }
            k = k + 1;
        }
        if present {
            out.push(c);
        }
        r = r + 1;
        proof {
            assert(present == collected@.contains(c));
            assert forall|d: ModerationCategories|
                out@.contains(d) <==> (collected@.contains(d) && category_rank(d) < r as int) by {
                if out@.contains(d) {
                    let k2 = choose|k2: int| 0 <= k2 < out@.len() && out@[k2] == d;
                    if k2 < pre.len() {
                        assert(pre.contains(d));
                    } else {
                        assert(d == c);
                    }
                }
                if collected@.contains(d) && category_rank(d) < r as int {
                    if category_rank(d) < r as int - 1 {
                        assert(pre.contains(d));
                        let k2 = choose|k2: int| 0 <= k2 < pre.len() && pre[k2] == d;
                        assert(out@[k2] == d);
                    } else {
                        crate::moderation::lemma_category_rank_injective(d, c);
                        assert(out@[out@.len() - 1] == d);
                    }
                    assert(out@.contains(d));
                }
            }
        }
    }
    proof {
        assert forall|c: ModerationCategories|
            out@.contains(c) <==> spec_label_yields(labels@, c) by {
            assert(category_rank(c) < 13);
        }
    }
    out
}

/// The bytes HMAC-SHA-256 assigns to a key and a message; a function of
/// the two alone.
pub uninterp spec fn hmac_sha256(key: Seq<u8>, msg: Seq<u8>) -> Seq<u8>;

/// Relies on hmac's `Hmac<Sha256>`: the authentication code of the
/// message under the key, 32 bytes, a function of key and message alone.
/// The crate accepts keys of any length for this algorithm, so the result
/// is never empty-by-failure.
#[verifier::external_body]
pub fn sign(key: &[u8], msg: &[u8]) -> (r: Vec<u8>)
    ensures
        r@ == hmac_sha256(key@, msg@),
        r@.len() == 32,
{
    let mut mac = <hmac::Hmac<sha2::Sha256> as hmac::KeyInit>::new_from_slice(key).expect(
        "HMAC accepts keys of any size",
    );
    mac.update(msg);
    mac.finalize().into_bytes().to_vec()
}

/// The derived signing key of the cloud API's request-signing scheme:
/// four nested authentication codes over the date, region, service and
/// the fixed request tag.
pub open spec fn spec_signature_key(
    key: Seq<char>,
    date_stamp: Seq<char>,
    region: Seq<char>,
    service: Seq<char>,
) -> Seq<u8> {
    let kdate = hmac_sha256(vstd::utf8::encode_utf8("AWS4"@ + key), vstd::utf8::encode_utf8(date_stamp));
    let kregion = hmac_sha256(kdate, vstd::utf8::encode_utf8(region));
    let kservice = hmac_sha256(kregion, vstd::utf8::encode_utf8(service));
    hmac_sha256(kservice, vstd::utf8::encode_utf8("aws4_request"@))
}

/// Derives the request-signing key for a date, region and service; the
/// key is always the 32 bytes of the last authentication code.
pub fn get_signature_key(key: &str, date_stamp: &str, region: &str, service: &str) -> (r: Vec<u8>)
    ensures
        r@ == spec_signature_key(key@, date_stamp@, region@, service@),
        r@.len() == 32,
{
    let mut prefixed = "AWS4".to_owned();
    prefixed.append(key);
    let kdate = sign(prefixed.as_str().as_bytes(), date_stamp.as_bytes());
    let kregion = sign(kdate.as_slice(), region.as_bytes());
    let kservice = sign(kregion.as_slice(), service.as_bytes());
    sign(kservice.as_slice(), "aws4_request".as_bytes())
}

} // verus!
