//! The text form in which category lists travel to and from the verdict
//! store: a JSON array of the category names. The printer is exact; the
//! parser accepts exactly what the printer produces.

use vstd::prelude::*;

use crate::moderation::ModerationCategories;
use crate::strings::str_eq;
use vstd::string::StrSliceExecFns;
use vstd::string::StringExecFns;

verus! {

/// The name of a category, as it is stored.
pub open spec fn spec_category_name(c: ModerationCategories) -> Seq<char> {
    match c {
        ModerationCategories::ExplicitNudity => "ExplicitNudity"@,
        ModerationCategories::Suggestive => "Suggestive"@,
        ModerationCategories::Violence => "Violence"@,
        ModerationCategories::VisuallyDisturbing => "VisuallyDisturbing"@,
        ModerationCategories::Rude => "Rude"@,
        ModerationCategories::Drugs => "Drugs"@,
        ModerationCategories::Tobacco => "Tobacco"@,
        ModerationCategories::Alcohol => "Alcohol"@,
        ModerationCategories::Gambling => "Gambling"@,
        ModerationCategories::Hate => "Hate"@,
        ModerationCategories::ExplicitContent => "ExplicitContent"@,
        ModerationCategories::DrugsAndTobacco => "DrugsAndTobacco"@,
        ModerationCategories::Unknown => "Unknown"@,
    }
}

/// The name of a category.
pub fn category_name(c: &ModerationCategories) -> (r: &'static str)
    ensures
        r@ == spec_category_name(*c),
{
    match *c {
        ModerationCategories::ExplicitNudity => "ExplicitNudity",
        ModerationCategories::Suggestive => "Suggestive",
        ModerationCategories::Violence => "Violence",
        ModerationCategories::VisuallyDisturbing => "VisuallyDisturbing",
        ModerationCategories::Rude => "Rude",
        ModerationCategories::Drugs => "Drugs",
        ModerationCategories::Tobacco => "Tobacco",
        ModerationCategories::Alcohol => "Alcohol",
        ModerationCategories::Gambling => "Gambling",
        ModerationCategories::Hate => "Hate",
        ModerationCategories::ExplicitContent => "ExplicitContent",
        ModerationCategories::DrugsAndTobacco => "DrugsAndTobacco",
        ModerationCategories::Unknown => "Unknown",
    }
}

/// The category a stored name denotes, if it is one of the thirteen.
pub open spec fn spec_category_of_name(s: Seq<char>) -> Option<ModerationCategories> {
    if s == "ExplicitNudity"@ {
        Some(ModerationCategories::ExplicitNudity)
    } else if s == "Suggestive"@ {
        Some(ModerationCategories::Suggestive)
    } else if s == "Violence"@ {
        Some(ModerationCategories::Violence)
    } else if s == "VisuallyDisturbing"@ {
        Some(ModerationCategories::VisuallyDisturbing)
    } else if s == "Rude"@ {
        Some(ModerationCategories::Rude)
    } else if s == "Drugs"@ {
        Some(ModerationCategories::Drugs)
    } else if s == "Tobacco"@ {
        Some(ModerationCategories::Tobacco)
    } else if s == "Alcohol"@ {
        Some(ModerationCategories::Alcohol)
    } else if s == "Gambling"@ {
        Some(ModerationCategories::Gambling)
    } else if s == "Hate"@ {
        Some(ModerationCategories::Hate)
    } else if s == "ExplicitContent"@ {
        Some(ModerationCategories::ExplicitContent)
    } else if s == "DrugsAndTobacco"@ {
        Some(ModerationCategories::DrugsAndTobacco)
    } else if s == "Unknown"@ {
        Some(ModerationCategories::Unknown)
    } else {
        None
    }
}

/// Looks a stored name up in the closed category list.
pub fn category_of_name(s: &str) -> (r: Option<ModerationCategories>)
    ensures
        r == spec_category_of_name(s@),
{
    if str_eq(s, "ExplicitNudity") {
        Some(ModerationCategories::ExplicitNudity)
    } else if str_eq(s, "Suggestive") {
        Some(ModerationCategories::Suggestive)
    } else if str_eq(s, "Violence") {
        Some(ModerationCategories::Violence)
    } else if str_eq(s, "VisuallyDisturbing") {
        Some(ModerationCategories::VisuallyDisturbing)
    } else if str_eq(s, "Rude") {
        Some(ModerationCategories::Rude)
    } else if str_eq(s, "Drugs") {
        Some(ModerationCategories::Drugs)
    } else if str_eq(s, "Tobacco") {
        Some(ModerationCategories::Tobacco)
    } else if str_eq(s, "Alcohol") {
        Some(ModerationCategories::Alcohol)
    } else if str_eq(s, "Gambling") {
        Some(ModerationCategories::Gambling)
    } else if str_eq(s, "Hate") {
        Some(ModerationCategories::Hate)
    } else if str_eq(s, "ExplicitContent") {
        Some(ModerationCategories::ExplicitContent)
    } else if str_eq(s, "DrugsAndTobacco") {
        Some(ModerationCategories::DrugsAndTobacco)
    } else if str_eq(s, "Unknown") {
        Some(ModerationCategories::Unknown)
    } else {
        None
    }
}

/// The comma-separated quoted names inside the JSON array.
pub open spec fn spec_categories_inner(cats: Seq<ModerationCategories>) -> Seq<char>
    decreases cats.len(),
{
    if cats.len() == 0 {
        Seq::empty()
    } else if cats.len() == 1 {
        "\""@ + spec_category_name(cats[0]) + "\""@
    } else {
        spec_categories_inner(cats.drop_last()) + ","@ + "\""@ + spec_category_name(cats.last())
            + "\""@
    }
}

/// The JSON array of category names.
pub open spec fn spec_categories_json(cats: Seq<ModerationCategories>) -> Seq<char> {
    "["@ + spec_categories_inner(cats) + "]"@
}

/// Prints a category list as a JSON array of names.
pub fn categories_to_json(cats: &Vec<ModerationCategories>) -> (r: String)
    ensures
        r@ == spec_categories_json(cats@),
{
    let mut out = "[".to_owned();
    let mut i: usize = 0;
    while i < cats.len()
        invariant
            i <= cats@.len(),
            out@ == "["@ + spec_categories_inner(cats@.take(i as int)),
        decreases cats@.len() - i,
    {
        if i > 0 {
            out.append(",");
        }
        out.append("\"");
        out.append(category_name(&cats[i]));
        out.append("\"");
        i = i + 1;
        proof {
            assert(cats@.take(i as int).drop_last() =~= cats@.take(i as int - 1));
            assert(cats@.take(i as int).last() == cats@[i as int - 1]);
            assert(out@ =~= "["@ + spec_categories_inner(cats@.take(i as int)));
        }
    }
    out.append("]");
    proof {
        assert(cats@.take(cats@.len() as int) =~= cats@);
        assert(out@ =~= spec_categories_json(cats@));
    }
    out
}

/// One element of the printed array, with its separating comma: what the
/// print appends for the category at position `k`.
pub open spec fn spec_seg(cats: Seq<ModerationCategories>, k: int) -> Seq<char> {
    (if k == 0 {
        Seq::<char>::empty()
    } else {
        ","@
    }) + "\""@ + spec_category_name(cats[k]) + "\""@
}

/// Where the element at position `k` starts inside the printed array.
pub open spec fn spec_elem_pos(cats: Seq<ModerationCategories>, k: int) -> int {
    1 + spec_categories_inner(cats.take(k)).len() as int
}

/// Category names are nonempty and contain no quote character.
pub proof fn lemma_name_shape(c: ModerationCategories)
    ensures
        spec_category_name(c).len() >= 1,
        forall|j: int|
            0 <= j < spec_category_name(c).len() ==> #[trigger] spec_category_name(c)[j] != '"',
{
    reveal_strlit("ExplicitNudity");
    reveal_strlit("Suggestive");
    reveal_strlit("Violence");
    reveal_strlit("VisuallyDisturbing");
    reveal_strlit("Rude");
    reveal_strlit("Drugs");
    reveal_strlit("Tobacco");
    reveal_strlit("Alcohol");
    reveal_strlit("Gambling");
    reveal_strlit("Hate");
    reveal_strlit("ExplicitContent");
    reveal_strlit("DrugsAndTobacco");
    reveal_strlit("Unknown");
}

/// Looking a category's own name up finds the category back.
pub proof fn lemma_name_round(c: ModerationCategories)
    ensures
        spec_category_of_name(spec_category_name(c)) == Some(c),
{
    reveal_strlit("ExplicitNudity");
    reveal_strlit("Suggestive");
    reveal_strlit("Violence");
    reveal_strlit("VisuallyDisturbing");
    reveal_strlit("Rude");
    reveal_strlit("Drugs");
    reveal_strlit("Tobacco");
    reveal_strlit("Alcohol");
    reveal_strlit("Gambling");
    reveal_strlit("Hate");
    reveal_strlit("ExplicitContent");
    reveal_strlit("DrugsAndTobacco");
    reveal_strlit("Unknown");
    match c {
        ModerationCategories::ExplicitNudity => {
        },
        ModerationCategories::Suggestive => {
            assert("Suggestive"@ != "ExplicitNudity"@) by {
                assert("Suggestive"@.len() != "ExplicitNudity"@.len());
            }
        },
        ModerationCategories::Violence => {
            assert("Violence"@ != "ExplicitNudity"@) by {
                assert("Violence"@.len() != "ExplicitNudity"@.len());
            }
            assert("Violence"@ != "Suggestive"@) by {
                assert("Violence"@.len() != "Suggestive"@.len());
            }
        },
        ModerationCategories::VisuallyDisturbing => {
            assert("VisuallyDisturbing"@ != "ExplicitNudity"@) by {
                assert("VisuallyDisturbing"@.len() != "ExplicitNudity"@.len());
            }
            assert("VisuallyDisturbing"@ != "Suggestive"@) by {
                assert("VisuallyDisturbing"@.len() != "Suggestive"@.len());
            }
            assert("VisuallyDisturbing"@ != "Violence"@) by {
                assert("VisuallyDisturbing"@.len() != "Violence"@.len());
            }
        },
        ModerationCategories::Rude => {
            assert("Rude"@ != "ExplicitNudity"@) by {
                assert("Rude"@.len() != "ExplicitNudity"@.len());
            }
            assert("Rude"@ != "Suggestive"@) by {
                assert("Rude"@.len() != "Suggestive"@.len());
            }
            assert("Rude"@ != "Violence"@) by {
                assert("Rude"@.len() != "Violence"@.len());
            }
            assert("Rude"@ != "VisuallyDisturbing"@) by {
                assert("Rude"@.len() != "VisuallyDisturbing"@.len());
            }
        },
        ModerationCategories::Drugs => {
            assert("Drugs"@ != "ExplicitNudity"@) by {
                assert("Drugs"@.len() != "ExplicitNudity"@.len());
            }
            assert("Drugs"@ != "Suggestive"@) by {
                assert("Drugs"@.len() != "Suggestive"@.len());
            }
            assert("Drugs"@ != "Violence"@) by {
                assert("Drugs"@.len() != "Violence"@.len());
            }
            assert("Drugs"@ != "VisuallyDisturbing"@) by {
                assert("Drugs"@.len() != "VisuallyDisturbing"@.len());
            }
            assert("Drugs"@ != "Rude"@) by {
                assert("Drugs"@.len() != "Rude"@.len());
            }
        },
        ModerationCategories::Tobacco => {
            assert("Tobacco"@ != "ExplicitNudity"@) by {
                assert("Tobacco"@.len() != "ExplicitNudity"@.len());
            }
            assert("Tobacco"@ != "Suggestive"@) by {
                assert("Tobacco"@.len() != "Suggestive"@.len());
            }
            assert("Tobacco"@ != "Violence"@) by {
                assert("Tobacco"@.len() != "Violence"@.len());
            }
            assert("Tobacco"@ != "VisuallyDisturbing"@) by {
                assert("Tobacco"@.len() != "VisuallyDisturbing"@.len());
            }
            assert("Tobacco"@ != "Rude"@) by {
                assert("Tobacco"@.len() != "Rude"@.len());
            }
            assert("Tobacco"@ != "Drugs"@) by {
                assert("Tobacco"@.len() != "Drugs"@.len());
            }
        },
        ModerationCategories::Alcohol => {
            assert("Alcohol"@ != "ExplicitNudity"@) by {
                assert("Alcohol"@.len() != "ExplicitNudity"@.len());
            }
            assert("Alcohol"@ != "Suggestive"@) by {
                assert("Alcohol"@.len() != "Suggestive"@.len());
            }
            assert("Alcohol"@ != "Violence"@) by {
                assert("Alcohol"@.len() != "Violence"@.len());
            }
            assert("Alcohol"@ != "VisuallyDisturbing"@) by {
                assert("Alcohol"@.len() != "VisuallyDisturbing"@.len());
            }
            assert("Alcohol"@ != "Rude"@) by {
                assert("Alcohol"@.len() != "Rude"@.len());
            }
            assert("Alcohol"@ != "Drugs"@) by {
                assert("Alcohol"@.len() != "Drugs"@.len());
            }
            assert("Alcohol"@ != "Tobacco"@) by {
                assert("Alcohol"@[0] != "Tobacco"@[0]);
            }
        },
        ModerationCategories::Gambling => {
            assert("Gambling"@ != "ExplicitNudity"@) by {
                assert("Gambling"@.len() != "ExplicitNudity"@.len());
            }
            assert("Gambling"@ != "Suggestive"@) by {
                assert("Gambling"@.len() != "Suggestive"@.len());
            }
            assert("Gambling"@ != "Violence"@) by {
                assert("Gambling"@[0] != "Violence"@[0]);
            }
            assert("Gambling"@ != "VisuallyDisturbing"@) by {
                assert("Gambling"@.len() != "VisuallyDisturbing"@.len());
            }
            assert("Gambling"@ != "Rude"@) by {
                assert("Gambling"@.len() != "Rude"@.len());
            }
            assert("Gambling"@ != "Drugs"@) by {
                assert("Gambling"@.len() != "Drugs"@.len());
            }
            assert("Gambling"@ != "Tobacco"@) by {
                assert("Gambling"@.len() != "Tobacco"@.len());
            }
            assert("Gambling"@ != "Alcohol"@) by {
                assert("Gambling"@.len() != "Alcohol"@.len());
            }
        },
        ModerationCategories::Hate => {
            assert("Hate"@ != "ExplicitNudity"@) by {
                assert("Hate"@.len() != "ExplicitNudity"@.len());
            }
            assert("Hate"@ != "Suggestive"@) by {
                assert("Hate"@.len() != "Suggestive"@.len());
            }
            assert("Hate"@ != "Violence"@) by {
                assert("Hate"@.len() != "Violence"@.len());
            }
            assert("Hate"@ != "VisuallyDisturbing"@) by {
                assert("Hate"@.len() != "VisuallyDisturbing"@.len());
            }
            assert("Hate"@ != "Rude"@) by {
                assert("Hate"@[0] != "Rude"@[0]);
            }
            assert("Hate"@ != "Drugs"@) by {
                assert("Hate"@.len() != "Drugs"@.len());
            }
            assert("Hate"@ != "Tobacco"@) by {
                assert("Hate"@.len() != "Tobacco"@.len());
            }
            assert("Hate"@ != "Alcohol"@) by {
                assert("Hate"@.len() != "Alcohol"@.len());
            }
            assert("Hate"@ != "Gambling"@) by {
                assert("Hate"@.len() != "Gambling"@.len());
            }
        },
        ModerationCategories::ExplicitContent => {
            assert("ExplicitContent"@ != "ExplicitNudity"@) by {
                assert("ExplicitContent"@.len() != "ExplicitNudity"@.len());
            }
            assert("ExplicitContent"@ != "Suggestive"@) by {
                assert("ExplicitContent"@.len() != "Suggestive"@.len());
            }
            assert("ExplicitContent"@ != "Violence"@) by {
                assert("ExplicitContent"@.len() != "Violence"@.len());
            }
            assert("ExplicitContent"@ != "VisuallyDisturbing"@) by {
                assert("ExplicitContent"@.len() != "VisuallyDisturbing"@.len());
            }
            assert("ExplicitContent"@ != "Rude"@) by {
                assert("ExplicitContent"@.len() != "Rude"@.len());
            }
            assert("ExplicitContent"@ != "Drugs"@) by {
                assert("ExplicitContent"@.len() != "Drugs"@.len());
            }
            assert("ExplicitContent"@ != "Tobacco"@) by {
                assert("ExplicitContent"@.len() != "Tobacco"@.len());
            }
            assert("ExplicitContent"@ != "Alcohol"@) by {
                assert("ExplicitContent"@.len() != "Alcohol"@.len());
            }
            assert("ExplicitContent"@ != "Gambling"@) by {
                assert("ExplicitContent"@.len() != "Gambling"@.len());
            }
            assert("ExplicitContent"@ != "Hate"@) by {
                assert("ExplicitContent"@.len() != "Hate"@.len());
            }
        },
        ModerationCategories::DrugsAndTobacco => {
            assert("DrugsAndTobacco"@ != "ExplicitNudity"@) by {
                assert("DrugsAndTobacco"@.len() != "ExplicitNudity"@.len());
            }
            assert("DrugsAndTobacco"@ != "Suggestive"@) by {
                assert("DrugsAndTobacco"@.len() != "Suggestive"@.len());
            }
            assert("DrugsAndTobacco"@ != "Violence"@) by {
                assert("DrugsAndTobacco"@.len() != "Violence"@.len());
            }
            assert("DrugsAndTobacco"@ != "VisuallyDisturbing"@) by {
                assert("DrugsAndTobacco"@.len() != "VisuallyDisturbing"@.len());
            }
            assert("DrugsAndTobacco"@ != "Rude"@) by {
                assert("DrugsAndTobacco"@.len() != "Rude"@.len());
            }
            assert("DrugsAndTobacco"@ != "Drugs"@) by {
                assert("DrugsAndTobacco"@.len() != "Drugs"@.len());
            }
            assert("DrugsAndTobacco"@ != "Tobacco"@) by {
                assert("DrugsAndTobacco"@.len() != "Tobacco"@.len());
            }
            assert("DrugsAndTobacco"@ != "Alcohol"@) by {
                assert("DrugsAndTobacco"@.len() != "Alcohol"@.len());
            }
            assert("DrugsAndTobacco"@ != "Gambling"@) by {
                assert("DrugsAndTobacco"@.len() != "Gambling"@.len());
            }
            assert("DrugsAndTobacco"@ != "Hate"@) by {
                assert("DrugsAndTobacco"@.len() != "Hate"@.len());
            }
            assert("DrugsAndTobacco"@ != "ExplicitContent"@) by {
                assert("DrugsAndTobacco"@[0] != "ExplicitContent"@[0]);
            }
        },
        ModerationCategories::Unknown => {
            assert("Unknown"@ != "ExplicitNudity"@) by {
                assert("Unknown"@.len() != "ExplicitNudity"@.len());
            }
            assert("Unknown"@ != "Suggestive"@) by {
                assert("Unknown"@.len() != "Suggestive"@.len());
            }
            assert("Unknown"@ != "Violence"@) by {
                assert("Unknown"@.len() != "Violence"@.len());
            }
            assert("Unknown"@ != "VisuallyDisturbing"@) by {
                assert("Unknown"@.len() != "VisuallyDisturbing"@.len());
            }
            assert("Unknown"@ != "Rude"@) by {
                assert("Unknown"@.len() != "Rude"@.len());
            }
            assert("Unknown"@ != "Drugs"@) by {
                assert("Unknown"@.len() != "Drugs"@.len());
            }
            assert("Unknown"@ != "Tobacco"@) by {
                assert("Unknown"@[0] != "Tobacco"@[0]);
            }
            assert("Unknown"@ != "Alcohol"@) by {
                assert("Unknown"@[0] != "Alcohol"@[0]);
            }
            assert("Unknown"@ != "Gambling"@) by {
                assert("Unknown"@.len() != "Gambling"@.len());
            }
            assert("Unknown"@ != "Hate"@) by {
                assert("Unknown"@.len() != "Hate"@.len());
            }
            assert("Unknown"@ != "ExplicitContent"@) by {
                assert("Unknown"@.len() != "ExplicitContent"@.len());
            }
            assert("Unknown"@ != "DrugsAndTobacco"@) by {
                assert("Unknown"@.len() != "DrugsAndTobacco"@.len());
            }
        },
    }
}

/// One printing step: the inner text of the first `k + 1` elements is the
/// inner text of the first `k` followed by the `k`-th segment.
pub proof fn lemma_inner_step(cats: Seq<ModerationCategories>, k: int)
    requires
        0 <= k < cats.len(),
    ensures
        spec_categories_inner(cats.take(k + 1)) == spec_categories_inner(cats.take(k)) + spec_seg(
            cats,
            k,
        ),
{
    assert(cats.take(k + 1).drop_last() =~= cats.take(k));
    assert(cats.take(k + 1).last() == cats[k]);
    if k == 0 {
        assert(spec_categories_inner(cats.take(1)) =~= spec_categories_inner(cats.take(0))
            + spec_seg(cats, 0));
    } else {
        assert(spec_categories_inner(cats.take(k + 1)) =~= spec_categories_inner(cats.take(k))
            + spec_seg(cats, k));
    }
}

/// The inner text of a prefix of the list is a prefix of the whole inner
/// text.
pub proof fn lemma_inner_prefix(cats: Seq<ModerationCategories>, m: int)
    requires
        0 <= m <= cats.len(),
    ensures
        spec_categories_inner(cats.take(m)).len() <= spec_categories_inner(cats).len(),
        spec_categories_inner(cats).subrange(0, spec_categories_inner(cats.take(m)).len() as int)
            == spec_categories_inner(cats.take(m)),
    decreases cats.len() - m,
{
    if m == cats.len() {
        assert(cats.take(m) =~= cats);
    } else {
        lemma_inner_prefix(cats, m + 1);
        lemma_inner_step(cats, m);
        let whole = spec_categories_inner(cats);
        let a = spec_categories_inner(cats.take(m));
        let b = spec_categories_inner(cats.take(m + 1));
        assert(whole.subrange(0, b.len() as int) == b);
        assert(whole.subrange(0, a.len() as int) =~= a) by {
            assert(forall|t: int| #![auto] 0 <= t < a.len() ==> b[t] == a[t]);
            assert(forall|t: int| #![auto]
                0 <= t < b.len() ==> whole[t] == whole.subrange(0, b.len() as int)[t]);
        }
    }
}

/// The characters of the `k`-th element inside the printed array: the
/// whole print is bracket, the elements in order, bracket.
pub proof fn lemma_print_at(cats: Seq<ModerationCategories>, k: int)
    requires
        0 <= k < cats.len(),
    ensures
        spec_elem_pos(cats, k + 1) == spec_elem_pos(cats, k) + spec_seg(cats, k).len(),
        spec_elem_pos(cats, k + 1) <= spec_categories_json(cats).len() - 1,
        forall|u: int|
            #![trigger spec_categories_json(cats)[u]]
            spec_elem_pos(cats, k) <= u < spec_elem_pos(cats, k + 1) ==> spec_categories_json(
                cats,
            )[u] == spec_seg(cats, k)[u - spec_elem_pos(cats, k)],
{
    reveal_strlit("[");
    reveal_strlit("]");
    lemma_inner_step(cats, k);
    lemma_inner_prefix(cats, k + 1);
    let whole = spec_categories_json(cats);
    let inner = spec_categories_inner(cats);
    let a = spec_categories_inner(cats.take(k));
    let b = spec_categories_inner(cats.take(k + 1));
    let seg = spec_seg(cats, k);
    assert(whole.len() == 2 + inner.len());
    assert forall|u: int|
        spec_elem_pos(cats, k) <= u < spec_elem_pos(cats, k + 1) implies #[trigger] whole[u]
        == seg[u - spec_elem_pos(cats, k)] by {
        let t = u - spec_elem_pos(cats, k);
        assert(whole[u] == inner[u - 1]);
        assert(inner[u - 1] == inner.subrange(0, b.len() as int)[u - 1]);
        assert(inner.subrange(0, b.len() as int) == b);
        assert(b[a.len() as int + t] == seg[t]);
    }
}

/// The element positions grow with the list, and the last one ends at the
/// closing bracket.
pub proof fn lemma_pos_bounds(cats: Seq<ModerationCategories>, k: int)
    requires
        0 <= k <= cats.len(),
    ensures
        1 <= spec_elem_pos(cats, k),
        k < cats.len() ==> spec_elem_pos(cats, k) < spec_categories_json(cats).len() - 1,
        k == cats.len() ==> spec_elem_pos(cats, k) == spec_categories_json(cats).len() - 1,
    decreases cats.len() - k,
{
    reveal_strlit("[");
    reveal_strlit("]");
    if k == cats.len() {
        assert(cats.take(k) =~= cats);
    } else {
        lemma_pos_bounds(cats, k + 1);
        lemma_inner_step(cats, k);
        lemma_name_shape(cats[k]);
    }
}

/// Scans a JSON array of quoted names into categories. On every string
/// that is the exact print of a list, the scan succeeds with a list that
/// prints back to the input.
fn scan_categories(s: &str) -> (r: Option<Vec<ModerationCategories>>)
    ensures
        (exists|c: Seq<ModerationCategories>| s@ == spec_categories_json(c)) ==> (r matches Some(
            cs,
        ) && s@ == spec_categories_json(cs@)),
{
    proof {
        reveal_strlit("[");
        reveal_strlit("]");
        reveal_strlit(",");
        reveal_strlit("\"");
    }
    let ghost has_w = exists|c: Seq<ModerationCategories>| s@ == spec_categories_json(c);
    let ghost w: Seq<ModerationCategories> = if has_w {
        choose|c: Seq<ModerationCategories>| s@ == spec_categories_json(c)
    } else {
        Seq::empty()
    };
    let n = s.unicode_len();
    if n < 2 {
        proof {
            reveal_strlit("[");
            reveal_strlit("]");
            if has_w {
                assert(s@.len() == 2 + spec_categories_inner(w).len());
            }
        }
        return None;
    }
    if !(s.get_char(0) == '[' && s.get_char(n - 1) == ']') {
        proof {
            reveal_strlit("[");
            reveal_strlit("]");
            if has_w {
                let inner = spec_categories_inner(w);
                assert(s@.len() == 2 + inner.len());
                assert(s@[0] == '[');
                assert(s@[s@.len() - 1] == ']');
            }
        }
        return None;
    }
    let mut cats: Vec<ModerationCategories> = Vec::new();
    let mut i: usize = 1;
    while i < n - 1
        invariant
            n == s@.len(),
            2 <= n,
            1 <= i <= n - 1,
            has_w == exists|c: Seq<ModerationCategories>| s@ == spec_categories_json(c),
            has_w ==> s@ == spec_categories_json(w),
            has_w ==> {
                &&& cats@.len() <= w.len()
                &&& cats@ == w.take(cats@.len() as int)
                &&& i == spec_elem_pos(w, cats@.len() as int)
                &&& (i < n - 1 <==> cats@.len() < w.len())
            },
        decreases n - i,
    {
        let ghost k = cats@.len() as int;
        let ghost base = spec_elem_pos(w, k);
        let ghost off: int = if k == 0 { 0 } else { 1 };
        let ghost name = if has_w { spec_category_name(w[k]) } else { Seq::empty() };
        let ghost seg = if has_w { spec_seg(w, k) } else { Seq::empty() };
        proof {
            reveal_strlit(",");
            reveal_strlit("\"");
            if has_w {
                lemma_pos_bounds(w, k);
                lemma_pos_bounds(w, k + 1);
                lemma_print_at(w, k);
                lemma_name_shape(w[k]);
                assert(seg.len() == off + 2 + name.len());
                assert(k > 0 ==> seg[0] == ',');
                assert(seg[off] == '"');
                assert(forall|t: int| #![auto] 0 <= t < name.len() ==> seg[off + 1 + t] == name[t]);
                assert(seg[off + 1 + name.len()] == '"');
            }
        }
        if cats.len() > 0 {
            if s.get_char(i) != ',' {
                proof {
                    if has_w {
                        assert(s@[i as int] == seg[i as int - base]);
                    }
                }
                return None;
            }
            i = i + 1;
        }
        proof {
            if has_w {
                assert(i as int == base + off);
                assert(i < n - 1);
            }
        }
        if i >= n - 1 {
            return None;
        }
        if s.get_char(i) != '"' {
            proof {
                if has_w {
                    assert(s@[i as int] == seg[i as int - base]);
                }
            }
            return None;
        }
        let start = i + 1;
        let mut j = start;
        proof {
            if has_w {
                assert(forall|t: int|
                    0 <= t < name.len() ==> #[trigger] s@[start as int + t] == seg[off + 1 + t]);
                assert(s@[start as int + name.len()] == seg[off + 1 + name.len()]);
            }
        }
        while j < n - 1 && s.get_char(j) != '"'
            invariant
                n == s@.len(),
                start <= j <= n - 1,
                start >= 1,
                forall|t: int| start <= t < j ==> s@[t] != '"',
            decreases n - j,
        {
            j = j + 1;
        }
        let ghost close = start as int + name.len();
        if j >= n - 1 {
            proof {
                if has_w {
                    assert(s@[close] == seg[off + 1 + name.len()]);
                    assert(s@[close] == '"');
                    assert(close <= n - 1);
                    assert(s@[j as int] != '"' || j == n - 1);
                }
            }
            return None;
        }
        let name_slice = s.substring_char(start, j);
        proof {
            if has_w {
                assert(s@[close] == seg[off + 1 + name.len()]);
                assert(s@[close] == '"');
                assert(j as int == close) by {
                    if (j as int) < close {
                        assert(s@[j as int] == seg[off + 1 + (j as int - start as int)]);
                        assert(s@[j as int] == name[j as int - start as int]);
                        assert(name[j as int - start as int] != '"');
                    }
                    if (j as int) > close {
                        assert(s@[close] != '"');
                    }
                }
                assert(name_slice@ =~= name) by {
                    assert(forall|t: int| #![auto]
                        0 <= t < name.len() ==> s@[start as int + t] == name[t]);
                }
                lemma_name_round(w[k]);
            }
        }
        match category_of_name(name_slice) {
            Some(c) => {
                cats.push(c);
            },
            Option::None => {
                return None;
            },
        }
        i = j + 1;
        proof {
            if has_w {
                assert(cats@ =~= w.take(k + 1));
                assert(i as int == base + seg.len());
                assert(i == spec_elem_pos(w, k + 1));
            }
        }
    }
    proof {
        if has_w {
            assert(cats@.len() == w.len());
            assert(cats@ =~= w);
        }
    }
    Some(cats)
}

/// Parses the stored JSON form of a category list: accepted strings are
/// exactly the prints. The parse is sound by construction — it answers
/// only when re-printing its result gives the input back — and complete,
/// because on every printed string the scan succeeds with a list that
/// prints back to it.
pub fn categories_from_json(s: &str) -> (r: Option<Vec<ModerationCategories>>)
    ensures
        r matches Some(cats) ==> s@ == spec_categories_json(cats@),
        r is None ==> forall|cats: Seq<ModerationCategories>| s@ != spec_categories_json(cats),
{
    let cats = match scan_categories(s) {
        Some(cats) => cats,
        Option::None => {
            return None;
        },
    };
    let printed = categories_to_json(&cats);
    if str_eq(printed.as_str(), s) {
        Some(cats)
    } else {
        proof {
            assert(forall|c: Seq<ModerationCategories>| s@ != spec_categories_json(c)) by {
                if exists|c: Seq<ModerationCategories>| s@ == spec_categories_json(c) {
                    assert(s@ == spec_categories_json(cats@));
                }
            }
        }
        None
    }
}

} // verus!
