//! The fetch pipeline: the decisions of one `img_proxy_fetch` call as an
//! explicit machine. The driver performs the outside work — the verdict
//! query, the origin fetch, the resize, the moderation call, the persist —
//! and feeds each outcome back as an event; every decision between two
//! outcomes is made and checked here.
//!
//! A stored blocking verdict answers at once, with no fetch, unless the
//! caller forces; a stored allowing verdict serves the document; with no
//! stored verdict the call fetches, resizes when the moderator would
//! refuse the payload, moderates, persists, then answers. Bytes of a
//! blocked document never travel in an answer unless forced.

use vstd::prelude::*;

use crate::document::Document;
use crate::errors::Errors;
use crate::moderation::spec_mime_from;
use crate::moderation::is_blocked;
use crate::moderation::ModerationCategories;
use crate::moderation::ModerationResponse;
use crate::moderation::ModerationService;
use crate::moderation::SupportedMimeTypes;
use crate::rpc::ModerationResult;
use crate::rpc::ModerationStatus;
use crate::store::copy_categories;
use crate::store::DbModerationRow;

verus! {

/// What the driver must do next.
pub enum FetchAction {
    QueryVerdicts { url: String },
    LookupCache { cache_key: String },
    FetchUrl { url: String },
    StoreCache { cache_key: String, document: Document },
    Resize { document: Document, max_size: u64 },
    Moderate { document: Document },
    Persist { url: String, provider: ModerationService, blocked: bool, categories: Vec<ModerationCategories> },
    RespondOk { result: ModerationResult },
    RespondErr { error: Errors },
}

/// What the outside work came back with.
pub enum FetchEvent {
    Started,
    VerdictRows { rows: Vec<DbModerationRow> },
    DbFailed,
    CacheHit { document: Document },
    CacheMiss,
    Fetched { document: Document },
    FetchFailed { error: Errors },
    Resized { document: Document },
    ResizeFailed { error: Errors },
    Moderated { response: ModerationResponse },
    ModerationFailed { error: Errors },
    Persisted { ok: bool },
}

/// Where the call stands.
pub enum FlowState {
    Start,
    AwaitVerdict,
    AwaitCache { verdict: Option<DbModerationRow> },
    AwaitFetch { verdict: Option<DbModerationRow> },
    AwaitResize { original: Document },
    AwaitModeration { original: Document },
    AwaitPersist { original: Document, blocked: bool, categories: Vec<ModerationCategories> },
    Done,
}

/// One fetch call: its inputs, the moderator's knobs, and the state.
pub struct FetchFlow {
    pub url: String,
    pub force: bool,
    pub req_id: u128,
    pub cache_enabled: bool,
    pub max_document_size: u64,
    pub supported_types: Vec<SupportedMimeTypes>,
    pub state: FlowState,
}

/// The answer for a decided call: a forced call reports `Allowed` with no
/// categories and carries the document; an unforced blocked call reports
/// the categories and carries nothing; an unforced allowed call reports
/// its categories and carries the document.
pub open spec fn spec_final_result(
    force: bool,
    blocked: bool,
    categories: Seq<ModerationCategories>,
    document: Option<Document>,
    r: ModerationResult,
) -> bool {
    &&& r.data@.len() == 0
    &&& if force {
        &&& r.moderation_status == ModerationStatus::Allowed
        &&& r.categories@.len() == 0
        &&& r.document == document
    } else if blocked {
        &&& r.moderation_status == ModerationStatus::Blocked
        &&& r.categories@ == categories
        &&& r.document is None
    } else {
        &&& r.moderation_status == ModerationStatus::Allowed
        &&& r.categories@ == categories
        &&& r.document == document
    }
}

/// Blocked answers never carry bytes.
pub proof fn lemma_blocked_answers_carry_nothing(
    force: bool,
    blocked: bool,
    categories: Seq<ModerationCategories>,
    document: Option<Document>,
    r: ModerationResult,
)
    requires
        spec_final_result(force, blocked, categories, document, r),
        r.moderation_status == ModerationStatus::Blocked,
    ensures
        r.document is None,
{
}

/// Builds the answer for a decided call.
pub fn final_result(
    force: bool,
    blocked: bool,
    categories: &Vec<ModerationCategories>,
    document: Option<Document>,
) -> (r: ModerationResult)
    ensures
        spec_final_result(force, blocked, categories@, document, r),
{
    if force {
        ModerationResult {
            moderation_status: ModerationStatus::Allowed,
            categories: Vec::new(),
            data: String::new(),
            document,
        }
    } else if blocked {
        ModerationResult {
            moderation_status: ModerationStatus::Blocked,
            categories: copy_categories(categories),
            data: String::new(),
            document: Option::None,
        }
    } else {
        ModerationResult {
            moderation_status: ModerationStatus::Allowed,
            categories: copy_categories(categories),
            data: String::new(),
            document,
        }
    }
}

/// Whether a media type is in the supported list.
pub fn mime_supported(supported: &Vec<SupportedMimeTypes>, t: SupportedMimeTypes) -> (r: bool)
    ensures
        r == supported@.contains(t),
{
    let mut i: usize = 0;
    while i < supported.len()
        invariant
            i <= supported@.len(),
            forall|j: int| 0 <= j < i ==> supported@[j] != t,
        decreases supported@.len() - i,
    {
        if supported[i] == t {
            return true;
        }
        i = i + 1;
    }
    false
}

/// Whether a document must be re-encoded before moderation: it is too
/// large for the provider, or its media type is not accepted directly.
pub fn needs_resize(
    document: &Document,
    max_document_size: u64,
    supported: &Vec<SupportedMimeTypes>,
) -> (r: bool)
    ensures
        r == (document.bytes@.len() >= max_document_size || !supported@.contains(
            spec_mime_from(document.content_type@),
        )),
{
    let size = document.size_in_bytes();
    let mime = SupportedMimeTypes::from_string(content_type_of(document));
    size >= max_document_size || !mime_supported(supported, mime)
}

/// The media type of a document.
fn content_type_of(document: &Document) -> (r: &str)
    ensures
        r@ == document.content_type@,
{
    document.content_type.as_str()
}

impl FetchFlow {
    /// A fresh call in its start state.
    pub fn new(
        url: String,
        force: bool,
        req_id: u128,
        cache_enabled: bool,
        max_document_size: u64,
        supported_types: Vec<SupportedMimeTypes>,
    ) -> (r: FetchFlow)
        ensures
            r.state is Start,
            r.url == url,
            r.force == force,
            r.req_id == req_id,
            r.cache_enabled == cache_enabled,
            r.max_document_size == max_document_size,
            r.supported_types == supported_types,
    {
        FetchFlow { url, force, req_id, cache_enabled, max_document_size, supported_types, state: FlowState::Start }
    }

    /// Every fetched document is classified first: a media type outside
    /// the cacheable list rejects it.
    fn classify(&self, document: &Document) -> (r: Result<(), Errors>)
        ensures
            spec_mime_from(document.content_type@) == SupportedMimeTypes::Unsupported ==> r
                == Err::<(), Errors>(Errors::UnsupportedImageType),
            spec_mime_from(document.content_type@) != SupportedMimeTypes::Unsupported ==> r is Ok,
    {
        let mime = SupportedMimeTypes::from_string(content_type_of(document));
        if mime == SupportedMimeTypes::Unsupported {
            Err(Errors::UnsupportedImageType)
        } else {
            Ok(())
        }
    }

    /// Decides what to do with a document in hand when no verdict exists
    /// yet: re-encode it first when the moderator would refuse it, else
    /// moderate it directly.
    fn toward_moderation(self, document: Document) -> (r: (FetchFlow, Vec<FetchAction>))
        ensures
            needs_resize_spec(document, self.max_document_size, self.supported_types@) ==> {
                &&& r.0.state matches FlowState::AwaitResize { original } && original == document
                &&& r.1@.len() == 1
                &&& r.1@[0] matches FetchAction::Resize { document: d, max_size } && d@ == document@
                    && max_size == self.max_document_size
            },
            !needs_resize_spec(document, self.max_document_size, self.supported_types@) ==> {
                &&& r.0.state matches FlowState::AwaitModeration { original } && original
                    == document
                &&& r.1@.len() == 1
                &&& r.1@[0] matches FetchAction::Moderate { document: d } && d@ == document@
            },
            unchanged_inputs(self, r.0),
    {
        let mut actions: Vec<FetchAction> = Vec::new();
        if needs_resize(&document, self.max_document_size, &self.supported_types) {
            let max_size = self.max_document_size;
            actions.push(FetchAction::Resize { document: document.duplicate(), max_size });
            let next = FetchFlow { state: FlowState::AwaitResize { original: document }, ..self };
            (next, actions)
        } else {
            actions.push(FetchAction::Moderate { document: document.duplicate() });
            let next = FetchFlow {
                state: FlowState::AwaitModeration { original: document },
                ..self
            };
            (next, actions)
        }
    }

    /// Advances the call by one outcome. The returned actions are what the
    /// driver performs next; a `RespondOk` or `RespondErr` action ends the
    /// call.
    #[verifier::rlimit(60)]
    pub fn step(self, event: FetchEvent) -> (r: (FetchFlow, Vec<FetchAction>))
        ensures
            unchanged_inputs(self, r.0),
            // Every answer respects the blocking rule.
            forall|k: int|
                0 <= k < r.1@.len() ==> ((#[trigger] r.1@[k]) matches FetchAction::RespondOk {
                    result,
                } ==> (result.moderation_status == ModerationStatus::Blocked
                    ==> result.document is None)),
            // The call starts by querying the verdict store.
            self.state is Start && event is Started ==> r.0.state is AwaitVerdict && r.1@.len()
                == 1 && (r.1@[0] matches FetchAction::QueryVerdicts { url } && url@ == self.url@),
            // A store failure is fatal.
            self.state is AwaitVerdict && event is DbFailed ==> r.0.state is Done && r.1@.len()
                == 1 && r.1@[0] == (FetchAction::RespondErr { error: Errors::InternalError }),
            // The verdict answer decides the path: a blocking verdict
            // without force answers at once, with the stored categories
            // and no fetch and no bytes; anything else goes after the
            // document, through the cache when one is configured.
            self.state is AwaitVerdict ==> (event matches FetchEvent::VerdictRows { rows } ==> {
                &&& (rows@.len() > 0 && rows@[0].blocked && !self.force) ==> r.0.state is Done
                    && r.1@.len() == 1 && (r.1@[0] matches FetchAction::RespondOk { result }
                    && spec_final_result(false, true, rows@[0].categories@, None, result))
                &&& (!(rows@.len() > 0 && rows@[0].blocked && !self.force) && self.cache_enabled)
                    ==> (r.0.state matches FlowState::AwaitCache { verdict } && verdict_of(verdict)
                    == first_row(rows@) && r.1@.len() == 1 && (r.1@[0] matches
                    FetchAction::LookupCache { cache_key } && cache_key@
                    == crate::store::spec_url_hash(self.url@)))
                &&& (!(rows@.len() > 0 && rows@[0].blocked && !self.force) && !self.cache_enabled)
                    ==> (r.0.state matches FlowState::AwaitFetch { verdict } && verdict_of(verdict)
                    == first_row(rows@) && r.1@.len() == 1 && (r.1@[0] matches
                    FetchAction::FetchUrl { url } && url@ == self.url@))
            }),
            // A cache miss fetches from the origin; a cache hit with a
            // stored verdict answers with the document; one without a
            // verdict heads to moderation.
            self.state matches FlowState::AwaitCache { verdict } ==> {
                &&& event is CacheMiss ==> (r.0.state matches FlowState::AwaitFetch { verdict: v2 }
                    && verdict_of(v2) == verdict_of(verdict) && r.1@.len() == 1 && (r.1@[0] matches
                    FetchAction::FetchUrl { url } && url@ == self.url@))
                &&& (event matches FetchEvent::CacheHit { document } ==> match verdict {
                    Some(row) => r.0.state is Done && r.1@.len() == 1 && (r.1@[0] matches
                        FetchAction::RespondOk { result } && spec_final_result(
                        self.force,
                        row.blocked,
                        row.categories@,
                        Some(document),
                        result,
                    )),
                    None => toward_moderation_post(self, document, r.0, r.1@, false),
                })
            },
            // A fetch failure is fatal with its own error. A fetched
            // document passes the media-type gate, is cached when a cache
            // is configured, and then answers (stored verdict) or heads to
            // moderation (no verdict).
            self.state matches FlowState::AwaitFetch { verdict } ==> {
                &&& (event matches FetchEvent::FetchFailed { error } ==> r.0.state is Done
                    && r.1@.len() == 1 && r.1@[0] == (FetchAction::RespondErr { error }))
                &&& (event matches FetchEvent::Fetched { document } ==> {
                    &&& spec_mime_from(document.content_type@) == SupportedMimeTypes::Unsupported
                        ==> (r.0.state is Done && r.1@.len() == 1 && r.1@[0] == (
                    FetchAction::RespondErr { error: Errors::UnsupportedImageType }))
                    &&& (spec_mime_from(document.content_type@) != SupportedMimeTypes::Unsupported
                        ==> match verdict {
                        Some(row) => r.0.state is Done && (r.1@.last() matches
                            FetchAction::RespondOk { result } && spec_final_result(
                            self.force,
                            row.blocked,
                            row.categories@,
                            Some(document),
                            result,
                        )) && (self.cache_enabled ==> r.1@.len() == 2 && (r.1@[0] matches
                            FetchAction::StoreCache { cache_key, document: d } && cache_key@
                            == crate::store::spec_url_hash(self.url@) && d@ == document@)) && (
                        !self.cache_enabled ==> r.1@.len() == 1),
                        None => toward_moderation_post(
                            self,
                            document,
                            r.0,
                            r.1@,
                            self.cache_enabled,
                        ),
                    })
                })
            },
            // Resize outcomes: the moderator sees the re-encoded bytes,
            // the caller keeps the original; a resize failure is fatal.
            self.state matches FlowState::AwaitResize { original } ==> {
                &&& (event matches FetchEvent::Resized { document } ==> r.0.state matches
                    FlowState::AwaitModeration { original: o2 } && o2@ == original@ && r.1@.len()
                    == 1 && (r.1@[0] matches FetchAction::Moderate { document: d } && d@
                    == document@))
                &&& (event matches FetchEvent::ResizeFailed { error } ==> r.0.state is Done
                    && r.1@.len() == 1 && r.1@[0] == (FetchAction::RespondErr { error }))
            },
            // Moderation outcomes: the verdict is persisted before the
            // answer; a provider failure is fatal.
            self.state matches FlowState::AwaitModeration { original } ==> {
                &&& (event matches FetchEvent::Moderated { response } ==> r.0.state matches
                    FlowState::AwaitPersist { original: o2, blocked, categories } && o2@
                    == original@ && blocked == (response.categories@.len() != 0) && categories@
                    == response.categories@ && r.1@.len() == 1 && (r.1@[0] matches
                    FetchAction::Persist { url, provider, blocked: b2, categories: c2 } && url@
                    == self.url@ && provider == response.provider && b2 == blocked && c2@
                    == response.categories@))
                &&& (event matches FetchEvent::ModerationFailed { error } ==> r.0.state is Done
                    && r.1@.len() == 1 && r.1@[0] == (FetchAction::RespondErr { error }))
            },
            // The persist outcome never fails the call; the answer follows
            // the fresh verdict.
            self.state matches FlowState::AwaitPersist { original, blocked, categories } ==> (event
                matches FetchEvent::Persisted { ok } ==> r.0.state is Done && r.1@.len() == 1 && (
            r.1@[0] matches FetchAction::RespondOk { result } && spec_final_result(
                self.force,
                blocked,
                categories@,
                Some(original),
                result,
            ))),
    {
        let FetchFlow { url, force, req_id, cache_enabled, max_document_size, supported_types, state } = self;
        let base = FetchFlow {
            url,
            force,
            req_id,
            cache_enabled,
            max_document_size,
            supported_types,
            state: FlowState::Done,
        };
        match state {
            FlowState::Start => {
                match event {
                    FetchEvent::Started => {
                        let u = base.url.clone();
                        let mut actions: Vec<FetchAction> = Vec::new();
                        actions.push(FetchAction::QueryVerdicts { url: u });
                        (FetchFlow { state: FlowState::AwaitVerdict, ..base }, actions)
                    },
                    _ => abort(base),
                }
            },
            FlowState::AwaitVerdict => {
                match event {
                    FetchEvent::DbFailed => respond_err(base, Errors::InternalError),
                    FetchEvent::VerdictRows { mut rows } => {
                        if rows.len() > 0 {
                            let row = rows.remove(0);
                            if row.blocked && !base.force {
                                let result = final_result(
                                    false,
                                    true,
                                    &row.categories,
                                    Option::None,
                                );
                                respond_ok(base, result)
                            } else {
                                go_for_document(base, Some(row))
                            }
                        } else {
                            go_for_document(base, Option::None)
                        }
                    },
                    _ => abort(base),
                }
            },
            FlowState::AwaitCache { verdict } => {
                match event {
                    FetchEvent::CacheMiss => {
                        let u = base.url.clone();
                        let mut actions: Vec<FetchAction> = Vec::new();
                        actions.push(FetchAction::FetchUrl { url: u });
                        (FetchFlow { state: FlowState::AwaitFetch { verdict }, ..base }, actions)
                    },
                    FetchEvent::CacheHit { document } => {
                        match verdict {
                            Some(row) => {
                                let result = final_result(
                                    base.force,
                                    row.blocked,
                                    &row.categories,
                                    Some(document),
                                );
                                respond_ok(base, result)
                            },
                            Option::None => base.toward_moderation(document),
                        }
                    },
                    _ => abort(base),
                }
            },
            FlowState::AwaitFetch { verdict } => {
                match event {
                    FetchEvent::FetchFailed { error } => respond_err(base, error),
                    FetchEvent::Fetched { document } => {
                        let gate = base.classify(&document);
                        match gate {
                            Err(e) => respond_err(base, e),
                            Ok(()) => {
                                match verdict {
                                    Some(row) => {
                                        let mut actions: Vec<FetchAction> = Vec::new();
                                        if base.cache_enabled {
                                            let cache_key = crate::store::url_hash(
                                                base.url.as_str(),
                                            );
                                            actions.push(
                                                FetchAction::StoreCache {
                                                    cache_key,
                                                    document: document.duplicate(),
                                                },
                                            );
                                        }
                                        let result = final_result(
                                            base.force,
                                            row.blocked,
                                            &row.categories,
                                            Some(document),
                                        );
                                        actions.push(FetchAction::RespondOk { result });
                                        (FetchFlow { state: FlowState::Done, ..base }, actions)
                                    },
                                    Option::None => {
                                        if base.cache_enabled {
                                            let cache_key = crate::store::url_hash(
                                                base.url.as_str(),
                                            );
                                            let stored = document.duplicate();
                                            let (next, mut actions) = base.toward_moderation(
                                                document,
                                            );
                                            actions.insert(
                                                0,
                                                FetchAction::StoreCache {
                                                    cache_key,
                                                    document: stored,
                                                },
                                            );
                                            (next, actions)
                                        } else {
                                            base.toward_moderation(document)
                                        }
                                    },
                                }
                            },
                        }
                    },
                    _ => abort(base),
                }
            },
            FlowState::AwaitResize { original } => {
                match event {
                    FetchEvent::Resized { document } => {
                        let mut actions: Vec<FetchAction> = Vec::new();
                        actions.push(FetchAction::Moderate { document });
                        (
                            FetchFlow { state: FlowState::AwaitModeration { original }, ..base },
                            actions,
                        )
                    },
                    FetchEvent::ResizeFailed { error } => respond_err(base, error),
                    _ => abort(base),
                }
            },
            FlowState::AwaitModeration { original } => {
                match event {
                    FetchEvent::Moderated { response } => {
                        let blocked = is_blocked(&response.categories);
                        let u = base.url.clone();
                        let mut actions: Vec<FetchAction> = Vec::new();
                        actions.push(
                            FetchAction::Persist {
                                url: u,
                                provider: response.provider,
                                blocked,
                                categories: copy_categories(&response.categories),
                            },
                        );
                        (
                            FetchFlow {
                                state: FlowState::AwaitPersist {
                                    original,
                                    blocked,
                                    categories: response.categories,
                                },
                                ..base
                            },
                            actions,
                        )
                    },
                    FetchEvent::ModerationFailed { error } => respond_err(base, error),
                    _ => abort(base),
                }
            },
            FlowState::AwaitPersist { original, blocked, categories } => {
                match event {
                    FetchEvent::Persisted { ok: _ } => {
                        let result = final_result(base.force, blocked, &categories, Some(original));
                        respond_ok(base, result)
                    },
                    _ => abort(base),
                }
            },
            FlowState::Done => abort(base),
        }
    }
}

/// The inputs of a call never change while it runs.
pub open spec fn unchanged_inputs(a: FetchFlow, b: FetchFlow) -> bool {
    &&& a.url == b.url
    &&& a.force == b.force
    &&& a.req_id == b.req_id
    &&& a.cache_enabled == b.cache_enabled
    &&& a.max_document_size == b.max_document_size
    &&& a.supported_types == b.supported_types
}

/// The first row of a verdict answer, if any.
pub open spec fn first_row(rows: Seq<DbModerationRow>) -> Option<crate::store::ModRowView> {
    if rows.len() > 0 {
        Some(rows[0]@)
    } else {
        None
    }
}

/// The verdict a state holds, by content.
pub open spec fn verdict_of(v: Option<DbModerationRow>) -> Option<crate::store::ModRowView> {
    match v {
        Some(row) => Some(row@),
        None => None,
    }
}

/// Whether a document must be re-encoded before moderation.
pub open spec fn needs_resize_spec(
    document: Document,
    max_document_size: u64,
    supported: Seq<SupportedMimeTypes>,
) -> bool {
    document.bytes@.len() >= max_document_size || !supported.contains(
        spec_mime_from(document.content_type@),
    )
}

/// What heading to moderation must produce: a resize action when the
/// moderator would refuse the document, a moderation action otherwise,
/// with a cache store in front when asked for.
pub open spec fn toward_moderation_post(
    flow: FetchFlow,
    document: Document,
    next: FetchFlow,
    actions: Seq<FetchAction>,
    with_store: bool,
) -> bool {
    let base: int = if with_store {
        1
    } else {
        0
    };
    &&& actions.len() == base + 1
    &&& (with_store ==> (actions[0] matches FetchAction::StoreCache { cache_key, document: d }
        && cache_key@ == crate::store::spec_url_hash(flow.url@) && d@ == document@))
    &&& if needs_resize_spec(document, flow.max_document_size, flow.supported_types@) {
        &&& next.state matches FlowState::AwaitResize { original } && original@ == document@
        &&& actions[base] matches FetchAction::Resize { document: d, max_size } && d@ == document@
            && max_size == flow.max_document_size
    } else {
        &&& next.state matches FlowState::AwaitModeration { original } && original@ == document@
        &&& actions[base] matches FetchAction::Moderate { document: d } && d@ == document@
    }
}

/// A step that answers with an error and ends the call.
fn respond_err(flow: FetchFlow, error: Errors) -> (r: (FetchFlow, Vec<FetchAction>))
    ensures
        unchanged_inputs(flow, r.0),
        r.0.state is Done,
        r.1@.len() == 1,
        r.1@[0] == (FetchAction::RespondErr { error }),
{
    let mut actions: Vec<FetchAction> = Vec::new();
    actions.push(FetchAction::RespondErr { error });
    (FetchFlow { state: FlowState::Done, ..flow }, actions)
}

/// A step that answers with a result and ends the call.
fn respond_ok(flow: FetchFlow, result: ModerationResult) -> (r: (FetchFlow, Vec<FetchAction>))
    ensures
        unchanged_inputs(flow, r.0),
        r.0.state is Done,
        r.1@.len() == 1,
        r.1@[0] == (FetchAction::RespondOk { result }),
{
    let mut actions: Vec<FetchAction> = Vec::new();
    actions.push(FetchAction::RespondOk { result });
    (FetchFlow { state: FlowState::Done, ..flow }, actions)
}

/// An unexpected event ends the call as an internal error.
fn abort(flow: FetchFlow) -> (r: (FetchFlow, Vec<FetchAction>))
    ensures
        unchanged_inputs(flow, r.0),
        r.0.state is Done,
        r.1@.len() == 1,
        r.1@[0] == (FetchAction::RespondErr { error: Errors::InternalError }),
{
    respond_err(flow, Errors::InternalError)
}

/// Consults the verdict first: the document round only starts after the
/// verdict answer, through the cache when one is configured.
fn go_for_document(flow: FetchFlow, verdict: Option<DbModerationRow>) -> (r: (
    FetchFlow,
    Vec<FetchAction>,
))
    ensures
        unchanged_inputs(flow, r.0),
        flow.cache_enabled ==> (r.0.state matches FlowState::AwaitCache { verdict: v2 }
            && verdict_of(v2) == verdict_of(verdict) && r.1@.len() == 1 && (r.1@[0] matches
            FetchAction::LookupCache { cache_key } && cache_key@ == crate::store::spec_url_hash(
            flow.url@,
        ))),
        !flow.cache_enabled ==> (r.0.state matches FlowState::AwaitFetch { verdict: v2 }
            && verdict_of(v2) == verdict_of(verdict) && r.1@.len() == 1 && (r.1@[0] matches
            FetchAction::FetchUrl { url } && url@ == flow.url@)),
{
    let mut actions: Vec<FetchAction> = Vec::new();
    if flow.cache_enabled {
        let cache_key = crate::store::url_hash(flow.url.as_str());
        actions.push(FetchAction::LookupCache { cache_key });
        (FetchFlow { state: FlowState::AwaitCache { verdict }, ..flow }, actions)
    } else {
        let url = flow.url.clone();
        actions.push(FetchAction::FetchUrl { url });
        (FetchFlow { state: FlowState::AwaitFetch { verdict }, ..flow }, actions)
    }
}

} // verus!
