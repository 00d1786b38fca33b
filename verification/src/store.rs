//! The in-memory verdict store: rows keyed by URL hash, user reports
//! keyed by their identifier. Verdicts are inserted once and kept
//! (later inserts of the same hash do nothing); a separate update path
//! overwrites; reports are append-only.

use vstd::prelude::*;

use crate::hashing::sha256;
use crate::hashing::sha256_digest;
use crate::hashing::hex_of_bytes;
use crate::moderation::ModerationCategories;
use crate::moderation::ModerationService;
use crate::strings::str_eq;
use vstd::pervasive::VecAdditionalExecFns;

verus! {

/// The URL hash that keys verdicts: lowercase-hex SHA-256 of the URL's
/// UTF-8 bytes.
pub open spec fn spec_url_hash(url: Seq<char>) -> Seq<char> {
    hex_of_bytes(sha256_digest(vstd::utf8::encode_utf8(url)))
}

/// The URL hash of a URL string.
pub fn url_hash(url: &str) -> (r: String)
    ensures
        r@ == spec_url_hash(url@),
{
    sha256(url.as_bytes())
}

/// One verdict row.
pub struct DbModerationRow {
    pub blocked: bool,
    pub categories: Vec<ModerationCategories>,
    pub provider: ModerationService,
    pub url: String,
}

/// The mathematical content of a verdict row.
pub ghost struct ModRowView {
    pub blocked: bool,
    pub categories: Seq<ModerationCategories>,
    pub provider: ModerationService,
    pub url: Seq<char>,
}

impl View for DbModerationRow {
    type V = ModRowView;

    open spec fn view(&self) -> ModRowView {
        ModRowView {
            blocked: self.blocked,
            categories: self.categories@,
            provider: self.provider,
            url: self.url@,
        }
    }
}

/// One user report row.
pub struct DbReportRow {
    pub id: u128,
    pub url: String,
    pub categories: Vec<ModerationCategories>,
    pub updated_at: i64,
}

/// The mathematical content of a report row.
pub ghost struct ReportRowView {
    pub id: u128,
    pub url: Seq<char>,
    pub categories: Seq<ModerationCategories>,
    pub updated_at: i64,
}

impl View for DbReportRow {
    type V = ReportRowView;

    open spec fn view(&self) -> ReportRowView {
        ReportRowView {
            id: self.id,
            url: self.url@,
            categories: self.categories@,
            updated_at: self.updated_at,
        }
    }
}

/// Relies on chrono's `Utc::now`: the current wall-clock time in
/// milliseconds; nothing is assumed of its value.
#[verifier::external_body]
fn now_millis() -> i64 {
    chrono::Utc::now().timestamp_millis()
}

/// A copy of a category list.
pub fn copy_categories(cats: &Vec<ModerationCategories>) -> (r: Vec<ModerationCategories>)
    ensures
        r@ == cats@,
{
    let mut out: Vec<ModerationCategories> = Vec::new();
    let mut i: usize = 0;
    while i < cats.len()
        invariant
            i <= cats@.len(),
            out@ =~= cats@.take(i as int),
        decreases cats@.len() - i,
    {
        out.push(cats[i]);
        i = i + 1;
    }
    proof {
        assert(cats@.take(cats@.len() as int) =~= cats@);
    }
    out
}

impl DbModerationRow {
    /// A copy with the same content.
    pub fn duplicate(&self) -> (r: DbModerationRow)
        ensures
            r@ == self@,
    {
        DbModerationRow {
            blocked: self.blocked,
            categories: copy_categories(&self.categories),
            provider: self.provider,
            url: self.url.clone(),
        }
    }
}

impl DbReportRow {
    /// A copy with the same content.
    pub fn duplicate(&self) -> (r: DbReportRow)
        ensures
            r@ == self@,
    {
        DbReportRow {
            id: self.id,
            url: self.url.clone(),
            categories: copy_categories(&self.categories),
            updated_at: self.updated_at,
        }
    }
}

/// The in-memory store: verdicts keyed by URL hash, reports in insertion
/// order with distinct identifiers.
pub struct DummyDatabase {
    moderation_store: Vec<(String, DbModerationRow)>,
    report_store: Vec<DbReportRow>,
}

impl DummyDatabase {
    /// The stored verdicts as pairs of URL hash and row, oldest first.
    pub closed spec fn mod_entries(&self) -> Seq<(String, DbModerationRow)> {
        self.moderation_store@
    }

    /// The stored reports, oldest first.
    pub closed spec fn report_entries(&self) -> Seq<DbReportRow> {
        self.report_store@
    }

    /// Whether a verdict is stored under the hash.
    pub open spec fn has_hash(&self, h: Seq<char>) -> bool {
        exists|i: int| 0 <= i < self.mod_entries().len() && self.mod_entries()[i].0@ == h
    }

    /// The position of a stored hash.
    pub open spec fn hash_index(&self, h: Seq<char>) -> int {
        choose|i: int| 0 <= i < self.mod_entries().len() && self.mod_entries()[i].0@ == h
    }

    /// The verdict stored under a hash.
    pub open spec fn row_of(&self, h: Seq<char>) -> ModRowView {
        self.mod_entries()[self.hash_index(h)].1@
    }

    /// Whether a report with the identifier is stored.
    pub open spec fn has_report(&self, id: u128) -> bool {
        exists|i: int| 0 <= i < self.report_entries().len() && self.report_entries()[i].id == id
    }

    /// Well-formedness: verdict hashes are distinct, and so are report
    /// identifiers.
    pub closed spec fn wf(&self) -> bool {
        &&& forall|i: int, j: int|
            0 <= i < j < self.moderation_store@.len() ==> self.moderation_store@[i].0@
                != self.moderation_store@[j].0@
        &&& forall|i: int, j: int|
            0 <= i < j < self.report_store@.len() ==> self.report_store@[i].id
                != self.report_store@[j].id
    }

    /// An empty store.
    pub fn new() -> (r: DummyDatabase)
        ensures
            r.wf(),
            r.mod_entries() =~= Seq::<(String, DbModerationRow)>::empty(),
            r.report_entries() =~= Seq::<DbReportRow>::empty(),
    {
        DummyDatabase { moderation_store: Vec::new(), report_store: Vec::new() }
    }

    fn find_hash(&self, h: &str) -> (r: Option<usize>)
        requires
            self.wf(),
        ensures
            match r {
                Some(i) => self.has_hash(h@) && self.hash_index(h@) == i as int && i
                    < self.mod_entries().len(),
                None => !self.has_hash(h@),
            },
    {
        let mut i: usize = 0;
        while i < self.moderation_store.len()
            invariant
                self.wf(),
                i <= self.moderation_store@.len(),
                forall|j: int| 0 <= j < i ==> self.moderation_store@[j].0@ != h@,
            decreases self.moderation_store@.len() - i,
        {
            if str_eq(self.moderation_store[i].0.as_str(), h) {
                proof {
                    assert((i as int) < self.mod_entries().len() && self.mod_entries()[i as int].0@
                        == h@);
                    let ki = self.hash_index(h@);
                    assert(0 <= ki < self.mod_entries().len() && self.mod_entries()[ki].0@ == h@);
                    if ki < i as int {
                        assert(self.moderation_store@[ki].0@ != self.moderation_store@[i as int].0@);
                    }
                    if (i as int) < ki {
                        assert(self.moderation_store@[i as int].0@ != self.moderation_store@[ki].0@);
                    }
                }
                return Some(i);
            }
            i = i + 1;
        }
        proof {
            assert(forall|j: int|
                0 <= j < self.mod_entries().len() ==> #[trigger] self.mod_entries()[j].0@ != h@);
        }
        None
    }

    /// Records a verdict under the URL's hash; an existing verdict for the
    /// same hash stays untouched.
    pub fn add_moderation_result(
        &mut self,
        url: &str,
        provider: ModerationService,
        blocked: bool,
        categories: &Vec<ModerationCategories>,
    )
        requires
            old(self).wf(),
        ensures
            final(self).wf(),
            final(self).report_entries() == old(self).report_entries(),
            old(self).has_hash(spec_url_hash(url@)) ==> *final(self) == *old(self),
            !old(self).has_hash(spec_url_hash(url@)) ==> {
                &&& final(self).has_hash(spec_url_hash(url@))
                &&& final(self).row_of(spec_url_hash(url@)) == (ModRowView {
                    blocked,
                    categories: categories@,
                    provider,
                    url: url@,
                })
                &&& forall|h: Seq<char>|
                    #[trigger] old(self).has_hash(h) ==> final(self).has_hash(h) && final(self).row_of(h) == old(self).row_of(h)
            },
    {
        let h = url_hash(url);
        if let Some(_i) = self.find_hash(h.as_str()) {
            return ;
        }
        let row = DbModerationRow {
            blocked,
            categories: copy_categories(categories),
            provider,
            url: url.to_owned(),
        };
        let ghost pre = self.moderation_store@;
        self.moderation_store.push((h, row));
        proof {
            assert(self.moderation_store@.drop_last() =~= pre);
            DummyDatabase::lemma_push_preserves(*old(self), *self, spec_url_hash(url@));
        }
    }

    /// Overwrites the verdict stored under the URL's hash; a hash with no
    /// verdict stays absent.
    pub fn update_moderation_result(
        &mut self,
        url: &str,
        provider: ModerationService,
        blocked: bool,
        categories: &Vec<ModerationCategories>,
    )
        requires
            old(self).wf(),
        ensures
            final(self).wf(),
            final(self).report_entries() == old(self).report_entries(),
            !old(self).has_hash(spec_url_hash(url@)) ==> *final(self) == *old(self),
            old(self).has_hash(spec_url_hash(url@)) ==> {
                &&& final(self).has_hash(spec_url_hash(url@))
                &&& final(self).row_of(spec_url_hash(url@)) == (ModRowView {
                    blocked,
                    categories: categories@,
                    provider,
                    url: url@,
                })
                &&& forall|h: Seq<char>|
                    h != spec_url_hash(url@) ==> (#[trigger] old(self).has_hash(h) <==> final(self).has_hash(h)) && (old(self).has_hash(h) ==> final(self).row_of(h) == old(self).row_of(h))
            },
    {
        let h = url_hash(url);
        let i = match self.find_hash(h.as_str()) {
            Some(i) => i,
            Option::None => {
                return ;
            },
        };
        let row = DbModerationRow {
            blocked,
            categories: copy_categories(categories),
            provider,
            url: url.to_owned(),
        };
        let ghost target = spec_url_hash(url@);
        self.moderation_store.set(i, (h, row));
        proof {
            DummyDatabase::lemma_update_preserves(*old(self), *self, target, i as int);
        }
    }

    /// Fetches the stored verdicts for the URLs, in input order, skipping
    /// URLs with no verdict.
    pub fn get_moderation_result(&self, urls: &Vec<String>) -> (r: Vec<DbModerationRow>)
        requires
            self.wf(),
        ensures
            r@.map_values(|row: DbModerationRow| row@) == spec_lookup(
                *self,
                urls@.map_values(|u: String| u@),
            ),
    {
        let mut out: Vec<DbModerationRow> = Vec::new();
        let mut i: usize = 0;
        while i < urls.len()
            invariant
                self.wf(),
                i <= urls@.len(),
                out@.map_values(|row: DbModerationRow| row@) =~= spec_lookup(
                    *self,
                    urls@.map_values(|u: String| u@).take(i as int),
                ),
            decreases urls@.len() - i,
        {
            let h = url_hash(urls[i].as_str());
            match self.find_hash(h.as_str()) {
                Some(idx) => {
                    out.push(self.moderation_store[idx].1.duplicate());
                },
                Option::None => {},
            }
            i = i + 1;
            proof {
                let us = urls@.map_values(|u: String| u@);
                assert(us.take(i as int).drop_last() =~= us.take(i as int - 1));
                assert(us.take(i as int).last() == us[i as int - 1]);
                assert(out@.map_values(|row: DbModerationRow| row@) =~= spec_lookup(
                    *self,
                    us.take(i as int),
                ));
            }
        }
        proof {
            let us = urls@.map_values(|u: String| u@);
            assert(us.take(us.len() as int) =~= us);
        }
        out
    }

    /// Appends a report under a fresh identifier; a duplicate identifier
    /// is dropped.
    pub fn add_report(&mut self, id: u128, url: &str, categories: &Vec<ModerationCategories>)
        requires
            old(self).wf(),
        ensures
            final(self).wf(),
            final(self).mod_entries() == old(self).mod_entries(),
            old(self).has_report(id) ==> *final(self) == *old(self),
            !old(self).has_report(id) ==> {
                &&& final(self).report_entries().len() == old(self).report_entries().len() + 1
                &&& final(self).report_entries().drop_last() == old(self).report_entries()
                &&& final(self).report_entries().last().id == id
                &&& final(self).report_entries().last().url@ == url@
                &&& final(self).report_entries().last().categories@ == categories@
            },
    {
        let mut i: usize = 0;
        while i < self.report_store.len()
            invariant
                *self == *old(self),
                old(self).wf(),
                i <= self.report_store@.len(),
                forall|j: int| 0 <= j < i ==> self.report_store@[j].id != id,
            decreases self.report_store@.len() - i,
        {
            if self.report_store[i].id == id {
                proof {
                    assert((i as int) < self.report_entries().len()
                        && self.report_entries()[i as int].id == id);
                }
                return ;
            }
            i = i + 1;
        }
        proof {
            assert(forall|j: int|
                0 <= j < self.report_entries().len() ==> #[trigger] self.report_entries()[j].id
                    != id);
        }
        let row = DbReportRow {
            id,
            url: url.to_owned(),
            categories: copy_categories(categories),
            updated_at: now_millis(),
        };
        let ghost pre = self.report_store@;
        self.report_store.push(row);
        proof {
            assert(self.report_store@.drop_last() =~= pre);
        }
    }

    /// All stored reports, oldest first.
    pub fn get_reports(&self) -> (r: Vec<DbReportRow>)
        ensures
            r@.len() == self.report_entries().len(),
            forall|j: int| 0 <= j < r@.len() ==> (#[trigger] r@[j])@ == self.report_entries()[j]@,
    {
        let mut out: Vec<DbReportRow> = Vec::new();
        let mut i: usize = 0;
        while i < self.report_store.len()
            invariant
                i <= self.report_store@.len(),
                out@.len() == i,
                forall|j: int| 0 <= j < i ==> (#[trigger] out@[j])@ == self.report_store@[j]@,
            decreases self.report_store@.len() - i,
        {
            out.push(self.report_store[i].duplicate());
            i = i + 1;
        }
        out
    }

    proof fn lemma_push_preserves(pre_db: DummyDatabase, post_db: DummyDatabase, fresh: Seq<char>)
        requires
            pre_db.wf(),
            !pre_db.has_hash(fresh),
            post_db.mod_entries().len() == pre_db.mod_entries().len() + 1,
            post_db.mod_entries().drop_last() == pre_db.mod_entries(),
            post_db.mod_entries().last().0@ == fresh,
            post_db.report_entries() == pre_db.report_entries(),
        ensures
            post_db.wf(),
            post_db.has_hash(fresh),
            post_db.hash_index(fresh) == pre_db.mod_entries().len(),
            forall|h: Seq<char>|
                #[trigger] pre_db.has_hash(h) ==> post_db.has_hash(h) && post_db.row_of(h)
                    == pre_db.row_of(h),
    {
        let pre = pre_db.mod_entries();
        let post = post_db.mod_entries();
        assert(forall|i: int| #![auto] 0 <= i < pre.len() ==> post[i] == pre[i]);
        assert forall|i: int| 0 <= i < pre.len() implies pre[i].0@ != fresh by {
            if pre[i].0@ == fresh {
                assert(pre_db.has_hash(fresh));
            }
        }
        assert forall|i: int, j: int| 0 <= i < j < post.len() implies post[i].0@ != post[j].0@ by {
            if j < post.len() - 1 {
                assert(post[i] == pre[i] && post[j] == pre[j]);
            } else {
                assert(post[i] == pre[i]);
                assert(post[j].0@ == fresh);
            }
        }
        assert(post[pre.len() as int].0@ == fresh);
        assert(post_db.has_hash(fresh));
        let ki = post_db.hash_index(fresh);
        assert(0 <= ki < post.len() && post[ki].0@ == fresh);
        if ki < pre.len() {
            assert(pre[ki].0@ == fresh);
        }
        assert forall|h: Seq<char>| #[trigger] pre_db.has_hash(h) implies post_db.has_hash(h)
            && post_db.row_of(h) == pre_db.row_of(h) by {
            let i = pre_db.hash_index(h);
            assert(0 <= i < pre.len() && pre[i].0@ == h);
            assert(post[i].0@ == h);
            assert(post_db.has_hash(h));
            let k = post_db.hash_index(h);
            assert(0 <= k < post.len() && post[k].0@ == h);
            if k != i {
                if k < pre.len() {
                    assert(post[k] == pre[k] && post[i] == pre[i]);
                    if k < i {
                        assert(pre[k].0@ != pre[i].0@);
                    } else {
                        assert(pre[i].0@ != pre[k].0@);
                    }
                } else {
                    assert(post[k].0@ == fresh);
                    assert(pre_db.has_hash(fresh));
                }
            }
            assert(post[k].1@ == pre[i].1@);
        }
    }

    proof fn lemma_update_preserves(
        pre_db: DummyDatabase,
        post_db: DummyDatabase,
        target: Seq<char>,
        at: int,
    )
        requires
            pre_db.wf(),
            0 <= at < pre_db.mod_entries().len(),
            pre_db.mod_entries()[at].0@ == target,
            post_db.mod_entries().len() == pre_db.mod_entries().len(),
            forall|i: int|
                0 <= i < pre_db.mod_entries().len() && i != at ==> post_db.mod_entries()[i]
                    == pre_db.mod_entries()[i],
            post_db.mod_entries()[at].0@ == target,
            post_db.report_entries() == pre_db.report_entries(),
        ensures
            post_db.wf(),
            post_db.has_hash(target),
            post_db.hash_index(target) == at,
            forall|h: Seq<char>|
                h != target ==> ((#[trigger] pre_db.has_hash(h) <==> post_db.has_hash(h)) && (
                pre_db.has_hash(h) ==> post_db.row_of(h) == pre_db.row_of(h))),
    {
        let pre = pre_db.mod_entries();
        let post = post_db.mod_entries();
        assert forall|i: int, j: int| 0 <= i < j < post.len() implies post[i].0@ != post[j].0@ by {
            assert(post[i].0@ == pre[i].0@);
            assert(post[j].0@ == pre[j].0@);
        }
        assert(post[at].0@ == target);
        assert(post_db.has_hash(target));
        let ki = post_db.hash_index(target);
        assert(0 <= ki < post.len() && post[ki].0@ == target);
        if ki != at {
            assert(post[ki].0@ != post[at].0@) by {
                if ki < at {
                    assert(pre[ki].0@ != pre[at].0@);
                } else {
                    assert(pre[at].0@ != pre[ki].0@);
                }
            }
        }
        assert forall|h: Seq<char>| h != target implies ((#[trigger] pre_db.has_hash(h)
            <==> post_db.has_hash(h)) && (pre_db.has_hash(h) ==> post_db.row_of(h)
            == pre_db.row_of(h))) by {
            if pre_db.has_hash(h) {
                let i = pre_db.hash_index(h);
                assert(0 <= i < pre.len() && pre[i].0@ == h);
                assert(i != at);
                assert(post[i].0@ == h);
                assert(post_db.has_hash(h));
                let k = post_db.hash_index(h);
                assert(0 <= k < post.len() && post[k].0@ == h);
                assert(k != at);
                assert(post[k] == pre[k]);
                if k != i {
                    if k < i {
                        assert(pre[k].0@ != pre[i].0@);
                    } else {
                        assert(pre[i].0@ != pre[k].0@);
                    }
                }
                assert(post_db.row_of(h) == pre_db.row_of(h));
            }
            if post_db.has_hash(h) {
                let k = post_db.hash_index(h);
                assert(0 <= k < post.len() && post[k].0@ == h);
                assert(k != at);
                assert(pre[k].0@ == h);
                assert(pre_db.has_hash(h));
            }
        }
    }
}

/// The verdicts stored for a list of URLs, in list order, absent URLs
/// skipped.
pub open spec fn spec_lookup(db: DummyDatabase, urls: Seq<Seq<char>>) -> Seq<ModRowView>
    decreases urls.len(),
{
    if urls.len() == 0 {
        Seq::empty()
    } else {
        let rest = spec_lookup(db, urls.drop_last());
        let h = spec_url_hash(urls.last());
        if db.has_hash(h) {
            rest.push(db.row_of(h))
        } else {
            rest
        }
    }
}

} // verus!
