//! Startup metadata from memory, fetched anew from the official service in the background.
use axum::http::HeaderMap;
use vstd::prelude::*;

use crate::bytes::copy_bytes;
use crate::get_me_cache::{refresh_outcome, RefreshOutcome};
use crate::http::{copy_headers, empty_proto, set_content_length, Reply};
use crate::startup_timing::MetadataSource;
use crate::text::{append, hex};
use crate::text_map::TextMap;
use crate::token::token_hash;

verus! {

/// What a reply is kept under: the endpoint and the account.
#[derive(Debug, PartialEq, Eq)]
pub struct CacheKey {
    pub path: String,
    pub token: [u8; 32],
}

/// The value of a [`CacheKey`].
pub struct KeyView {
    pub path: Seq<char>,
    pub token: Seq<u8>,
}

impl View for CacheKey {
    type V = KeyView;

    open spec fn view(&self) -> KeyView {
        KeyView { path: self.path@, token: self.token@ }
    }
}

impl KeyView {
    /// The key as a text: the account, then the endpoint.
    pub open spec fn text(self) -> Seq<char> {
        crate::text::hex_text(self.token) + self.path
    }
}

impl CacheKey {
    /// The key as a text: the account, then the endpoint.
    fn text(&self) -> (r: String)
        ensures
            r@ == self@.text(),
    {
        append(hex(vstd::array::array_as_slice(&self.token)).as_str(), self.path.as_str())
    }
}

/// Keys of tokens of the same length have the same text only where they are the same.
proof fn lemma_keys_are_distinct(a: KeyView, b: KeyView)
    requires
        a.token.len() == b.token.len(),
        a.text() == b.text(),
    ensures
        a == b,
{
    crate::text::law_hex_is_injective(a.token, b.token);
    crate::text::law_hex_is_injective(b.token, a.token);
    let split = 2 * a.token.len() as int;
    assert(crate::text::hex_text(a.token) =~= a.text().take(split));
    assert(crate::text::hex_text(b.token) =~= b.text().take(split));
    assert(a.path =~= a.text().skip(split));
    assert(b.path =~= b.text().skip(split));
}

/// A reply that is kept.
#[derive(Debug)]
pub struct CachedMetadata {
    pub status: u16,
    pub headers: HeaderMap,
    pub body: Vec<u8>,
    /// When it was kept, in milliseconds of the caller's clock.
    pub stored_at: u64,
}

/// The value of a [`CachedMetadata`].
pub struct CachedView {
    pub status: u16,
    pub headers: Map<Seq<char>, Seq<Seq<u8>>>,
    pub body: Seq<u8>,
    pub stored_at: u64,
}

impl View for CachedMetadata {
    type V = CachedView;

    open spec fn view(&self) -> CachedView {
        CachedView {
            status: self.status,
            headers: crate::http::headers_of(self.headers),
            body: self.body@,
            stored_at: self.stored_at,
        }
    }
}

impl CachedView {
    /// Whether the headers have room for the length.
    pub open spec fn has_room(self) -> bool {
        self.headers.dom().len() <= crate::http::MAX_HEADER_NAMES
    }

    /// The reply as it is served: what was kept, with the length of the body.
    pub open spec fn reply(self) -> crate::http::ReplyView {
        crate::http::ReplyView {
            status: self.status,
            headers: crate::http::with_length(self.headers, self.body.len()),
            body: self.body,
        }
    }
}

/// The reply as it is served: what was kept, with the length of the body.
pub fn cached_response(cached: CachedMetadata) -> (r: Reply)
    requires
        cached@.has_room(),
    ensures
        r@ == cached@.reply(),
{
    let mut headers: HeaderMap = cached.headers;
    set_content_length(&mut headers, cached.body.len());
    Reply { status: cached.status, headers, body: cached.body }
}

/// The replies that are kept, and those that are being fetched anew.
#[derive(Debug)]
pub struct MetadataCache {
    entries: TextMap<CachedMetadata>,
    refreshing: TextMap<()>,
}

/// The value of a [`MetadataCache`].
pub struct CacheView {
    /// Replies by the texts of their keys.
    pub entries: Map<Seq<char>, CachedView>,
    /// The texts of the keys whose reply is being fetched.
    pub refreshing: Set<Seq<char>>,
}

impl View for MetadataCache {
    type V = CacheView;

    closed spec fn view(&self) -> CacheView {
        CacheView { entries: self.entries@, refreshing: self.refreshing@.dom() }
    }
}

impl CacheView {
    /// Whether every reply that is kept can be served.
    pub open spec fn is_sound(self) -> bool {
        forall|text: Seq<char>| #[trigger]
            self.entries.contains_key(text) ==> self.entries[text].has_room()
    }

    /// The reply that is kept under a key.
    pub open spec fn entry(self, key: KeyView) -> Option<CachedView> {
        if self.entries.contains_key(key.text()) {
            Some(self.entries[key.text()])
        } else {
            None
        }
    }

    /// Whether the reply of a key is being fetched.
    pub open spec fn refreshes(self, key: KeyView) -> bool {
        self.refreshing.contains(key.text())
    }

    /// The cache after a reply was kept.
    pub open spec fn stored(self, key: KeyView, cached: CachedView) -> CacheView {
        CacheView { entries: self.entries.insert(key.text(), cached), ..self }
    }

    /// The cache after the fetching of a reply began.
    pub open spec fn begun(self, key: KeyView) -> CacheView {
        CacheView { refreshing: self.refreshing.insert(key.text()), ..self }
    }

    /// The cache after the fetching of a reply ended.
    pub open spec fn finished(self, key: KeyView) -> CacheView {
        CacheView { refreshing: self.refreshing.remove(key.text()), ..self }
    }
}

/// The value of an optional reply that is kept.
pub open spec fn optional_cached(cached: Option<CachedMetadata>) -> Option<CachedView> {
    match cached {
        Some(cached) => Some(cached@),
        None => None,
    }
}

impl MetadataCache {
    /// A cache that holds nothing.
    pub fn new() -> (r: Self)
        ensures
            r@ == (CacheView { entries: Map::empty(), refreshing: Set::empty() }),
            r@.is_sound(),
    {
        let r = MetadataCache { entries: TextMap::new(), refreshing: TextMap::new() };
        proof {
            assert(r@.refreshing =~= Set::empty());
        }
        r
    }

    /// The reply that is kept under a key.
    pub fn get(&self, key: &CacheKey) -> (r: Option<CachedMetadata>)
        ensures
            optional_cached(r) == self@.entry(key@),
    {
        match self.entries.get(key.text().as_str()) {
            Some(cached) => Some(
                CachedMetadata {
                    status: cached.status,
                    headers: copy_headers(&cached.headers),
                    body: copy_bytes(cached.body.as_slice()),
                    stored_at: cached.stored_at,
                },
            ),
            None => None,
        }
    }

    /// Keeps a reply under a key, in place of the one that is kept there.
    pub fn store(
        &mut self,
        key: &CacheKey,
        status: u16,
        headers: HeaderMap,
        body: Vec<u8>,
        stored_at: u64,
    )
        ensures
            final(self)@ == old(self)@.stored(
                key@,
                CachedView {
                    status,
                    headers: crate::http::headers_of(headers),
                    body: body@,
                    stored_at,
                },
            ),
    {
        self.entries.insert(key.text(), CachedMetadata { status, headers, body, stored_at });
    }

    /// Notes that the reply of a key is being fetched, and returns whether that begins with
    /// this.
    pub fn begin_refresh(&mut self, key: &CacheKey) -> (r: bool)
        ensures
            r == !old(self)@.refreshes(key@),
            final(self)@ == old(self)@.begun(key@),
    {
        let text: String = key.text();
        let fresh: bool = !self.refreshing.contains_key(text.as_str());
        self.refreshing.insert(text, ());
        proof {
            assert(self@.refreshing =~= old(self)@.refreshing.insert(key@.text()));
        }
        fresh
    }

    /// Notes that the reply of a key is no longer being fetched.
    pub fn finish_refresh(&mut self, key: &CacheKey)
        ensures
            final(self)@ == old(self)@.finished(key@),
    {
        self.refreshing.remove(key.text().as_str());
        proof {
            assert(self@.refreshing =~= old(self)@.refreshing.remove(key@.text()));
        }
    }
}

/// How metadata requests are served.
#[derive(Clone, Copy, Debug, PartialEq, Eq, Structural)]
pub enum ServeMode {
    /// By the official service.
    Forward,
    /// With a message that has no fields.
    Empty,
    /// From memory.
    Cache,
}

/// How metadata requests are served: a token of this side's own is never shown to the official
/// service; another one is served from memory only where that is switched on.
pub open spec fn mode_for(uses_local_token: bool, enabled: bool) -> ServeMode {
    if uses_local_token {
        ServeMode::Empty
    } else if enabled {
        ServeMode::Cache
    } else {
        ServeMode::Forward
    }
}

/// How metadata requests are served.
pub fn serve_mode(uses_local_token: bool, enabled: bool) -> (r: ServeMode)
    ensures
        r == mode_for(uses_local_token, enabled),
{
    if uses_local_token {
        ServeMode::Empty
    } else if enabled {
        ServeMode::Cache
    } else {
        ServeMode::Forward
    }
}

/// How a request is served from memory.
#[derive(Debug)]
pub struct Served {
    pub reply: Reply,
    pub source: MetadataSource,
    pub cache_hit: bool,
    /// When what is served was kept, where it was.
    pub stored_at: Option<u64>,
    /// What is to be fetched anew.
    pub refresh: Option<CacheKey>,
}

/// The value of a [`Served`].
pub struct ServedView {
    pub reply: crate::http::ReplyView,
    pub source: MetadataSource,
    pub cache_hit: bool,
    pub stored_at: Option<u64>,
    pub refresh: Option<KeyView>,
}

impl View for Served {
    type V = ServedView;

    open spec fn view(&self) -> ServedView {
        ServedView {
            reply: self.reply@,
            source: self.source,
            cache_hit: self.cache_hit,
            stored_at: self.stored_at,
            refresh: match self.refresh {
                Some(key) => Some(key@),
                None => None,
            },
        }
    }
}

impl ServedView {
    /// The answer where nothing is kept: a message that has no fields.
    pub open spec fn nothing(refresh: Option<KeyView>) -> ServedView {
        ServedView {
            reply: crate::http::ReplyView::sized_proto(seq![]),
            source: MetadataSource::Local,
            cache_hit: false,
            stored_at: None,
            refresh,
        }
    }
}

impl CacheView {
    /// How a request for an endpoint is served, by the account that it speaks for: with what is
    /// kept, else with a message that has no fields. What is not being fetched yet is then
    /// fetched anew.
    pub open spec fn served(self, path: Seq<char>, token: Option<Seq<u8>>) -> ServedView {
        match token {
            None => ServedView::nothing(None),
            Some(token) => {
                let key = KeyView { path, token };
                let refresh = if self.refreshes(key) {
                    None
                } else {
                    Some(key)
                };
                match self.entry(key) {
                    Some(cached) => ServedView {
                        reply: cached.reply(),
                        source: MetadataSource::Cached,
                        cache_hit: true,
                        stored_at: Some(cached.stored_at),
                        refresh,
                    },
                    None => ServedView::nothing(refresh),
                }
            },
        }
    }

    /// The cache after a request for an endpoint.
    pub open spec fn after_serving(self, path: Seq<char>, token: Option<Seq<u8>>) -> CacheView {
        match token {
            None => self,
            Some(token) => self.begun(KeyView { path, token }),
        }
    }

    /// The cache after a reply was fetched anew, or did not come: one that succeeds is kept.
    pub open spec fn refreshed(
        self,
        key: KeyView,
        fetched: Option<crate::http::ReplyView>,
        now: u64,
    ) -> CacheView {
        match fetched {
            Some(reply) => if crate::http::succeeds(reply.status) {
                self.stored(
                    key,
                    CachedView {
                        status: reply.status,
                        headers: reply.headers,
                        body: reply.body,
                        stored_at: now,
                    },
                ).finished(key)
            } else {
                self.finished(key)
            },
            None => self.finished(key),
        }
    }
}

/// The answer where nothing is kept: a message that has no fields.
fn nothing_kept(refresh: Option<CacheKey>) -> (r: Served)
    ensures
        r@ == ServedView::nothing(
            match refresh {
                Some(key) => Some(key@),
                None => None,
            },
        ),
{
    Served {
        reply: empty_proto(),
        source: MetadataSource::Local,
        cache_hit: false,
        stored_at: None,
        refresh,
    }
}

/// Serves a request for an endpoint from memory.
pub fn serve_cached(cache: &mut MetadataCache, path: &str, token: Option<[u8; 32]>) -> (r: Served)
    requires
        old(cache)@.is_sound(),
    ensures
        r@ == old(cache)@.served(path@, crate::token::optional_hash(token)),
        final(cache)@ == old(cache)@.after_serving(path@, crate::token::optional_hash(token)),
        final(cache)@.is_sound(),
{
    let token: [u8; 32] = match token {
        Some(token) => token,
        None => {
            return nothing_kept(None);
        },
    };
    let key = CacheKey { path: path.to_owned(), token };
    let cached: Option<CachedMetadata> = cache.get(&key);
    let fresh: bool = cache.begin_refresh(&key);
    let refresh: Option<CacheKey> = if fresh {
        Some(key)
    } else {
        None
    };
    match cached {
        Some(cached) => {
            let stored_at: u64 = cached.stored_at;
            Served {
                reply: cached_response(cached),
                source: MetadataSource::Cached,
                cache_hit: true,
                stored_at: Some(stored_at),
                refresh,
            }
        },
        None => nothing_kept(refresh),
    }
}

/// What is to be done with a metadata request.
#[derive(Debug)]
pub enum CatalogStep {
    /// It goes to the official service.
    Forward,
    /// It is served here.
    Serve(Served),
}

/// The value of a [`CatalogStep`].
pub enum CatalogView {
    Forward,
    Serve(ServedView),
}

impl View for CatalogStep {
    type V = CatalogView;

    open spec fn view(&self) -> CatalogView {
        match self {
            CatalogStep::Forward => CatalogView::Forward,
            CatalogStep::Serve(served) => CatalogView::Serve(served@),
        }
    }
}

impl CacheView {
    /// What is to be done with a request for an endpoint.
    pub open spec fn step(
        self,
        mode: ServeMode,
        path: Seq<char>,
        token: Option<Seq<u8>>,
    ) -> CatalogView {
        match mode {
            ServeMode::Forward => CatalogView::Forward,
            ServeMode::Empty => CatalogView::Serve(ServedView::nothing(None)),
            ServeMode::Cache => CatalogView::Serve(self.served(path, token)),
        }
    }
}

/// Decides what is to be done with a request for an endpoint, and serves it where that is done
/// here.
pub fn serve(
    cache: &mut MetadataCache,
    uses_local_token: bool,
    enabled: bool,
    path: &str,
    headers: &HeaderMap,
) -> (r: CatalogStep)
    requires
        old(cache)@.is_sound(),
    ensures
        ({
            let mode = mode_for(uses_local_token, enabled);
            let token = crate::token::hash_of(crate::http::headers_of(*headers));
            &&& r@ == old(cache)@.step(mode, path@, token)
            &&& final(cache)@ == if mode == ServeMode::Cache {
                old(cache)@.after_serving(path@, token)
            } else {
                old(cache)@
            }
        }),
        final(cache)@.is_sound(),
{
    match serve_mode(uses_local_token, enabled) {
        ServeMode::Forward => CatalogStep::Forward,
        ServeMode::Empty => CatalogStep::Serve(nothing_kept(None)),
        ServeMode::Cache => CatalogStep::Serve(serve_cached(cache, path, token_hash(headers))),
    }
}

/// The value of an optional reply.
pub open spec fn optional_reply(reply: Option<Reply>) -> Option<crate::http::ReplyView> {
    match reply {
        Some(reply) => Some(reply@),
        None => None,
    }
}

/// Takes a reply that was fetched anew, or `None` where it did not come, and returns what came
/// of it. `now` is the caller's clock in milliseconds.
pub fn refresh(cache: &mut MetadataCache, key: &CacheKey, fetched: Option<Reply>, now: u64) -> (r:
    RefreshOutcome)
    requires
        old(cache)@.is_sound(),
        fetched is Some ==> fetched->0@.headers.dom().len() <= crate::http::MAX_HEADER_NAMES,
    ensures
        final(cache)@ == old(cache)@.refreshed(key@, optional_reply(fetched), now),
        final(cache)@.is_sound(),
        r == crate::get_me_cache::outcome_of(
            match fetched {
                Some(reply) => Some(reply.status),
                None => None,
            },
        ),
{
    let status: Option<u16> = match &fetched {
        Some(reply) => Some(reply.status),
        None => None,
    };
    let outcome = refresh_outcome(status);
    if let Some(reply) = fetched {
        if outcome == RefreshOutcome::Kept {
            cache.store(key, reply.status, reply.headers, reply.body, now);
        }
    }
    cache.finish_refresh(key);
    outcome
}

/// A token of this side's own never goes to the official service: neither is its request sent on,
/// nor is anything fetched for it.
pub proof fn law_local_tokens_stay_here(
    cache: CacheView,
    enabled: bool,
    path: Seq<char>,
    token: Option<Seq<u8>>,
)
    ensures
        cache.step(mode_for(true, enabled), path, token) matches CatalogView::Serve(served)
            && served.refresh is None,
{
}

/// What is kept for an endpoint and an account is what is read there, and nothing else changes:
/// neither another endpoint of the account nor the endpoint for another account.
pub proof fn law_cache_is_scoped_to_its_key(
    cache: CacheView,
    key: KeyView,
    cached: CachedView,
    other: KeyView,
)
    requires
        key.token.len() == 32,
        other.token.len() == 32,
    ensures
        cache.stored(key, cached).entry(key) == Some(cached),
        other != key ==> cache.stored(key, cached).entry(other) == cache.entry(other),
        other != key ==> cache.begun(key).refreshes(other) == cache.refreshes(other),
        other != key ==> cache.finished(key).refreshes(other) == cache.refreshes(other),
{
    if other.text() == key.text() {
        lemma_keys_are_distinct(other, key);
    }
}

/// A reply is fetched anew once at a time: a request for a reply that is being fetched fetches
/// nothing, and when it is done, the next one does.
pub proof fn law_one_fetch_at_a_time(
    cache: CacheView,
    key: KeyView,
    fetched: Option<crate::http::ReplyView>,
    now: u64,
)
    ensures
        cache.after_serving(key.path, Some(key.token)).served(
            key.path,
            Some(key.token),
        ).refresh is None,
        cache.refreshed(key, fetched, now).served(key.path, Some(key.token)).refresh == Some(key),
{
}

/// A reply that was fetched and succeeded is served from then on, with its status and its
/// headers, and with the length of its body. One that failed, or did not come, leaves what is
/// kept as it is.
pub proof fn law_only_successful_replies_are_served(
    cache: CacheView,
    key: KeyView,
    fetched: Option<crate::http::ReplyView>,
    now: u64,
)
    ensures
        fetched is Some && crate::http::succeeds(fetched->0.status) ==> cache.refreshed(
            key,
            fetched,
            now,
        ).served(key.path, Some(key.token)).reply == (crate::http::ReplyView {
            headers: crate::http::with_length(fetched->0.headers, fetched->0.body.len()),
            ..fetched->0
        }),
        !(fetched is Some && crate::http::succeeds(fetched->0.status)) ==> cache.refreshed(
            key,
            fetched,
            now,
        ).entries == cache.entries,
{
}

/// A token of this side's own is answered with nothing; any other request is served from memory
/// where that is switched on, and else passed on.
pub proof fn law_mode_is_told_by_the_token_and_the_switch(
    cache: CacheView,
    enabled: bool,
    path: Seq<char>,
    token: Option<Seq<u8>>,
)
    ensures
        mode_for(true, enabled) is Empty,
        mode_for(false, true) is Cache,
        mode_for(false, false) is Forward,
        cache.step(ServeMode::Forward, path, token) is Forward,
        cache.step(ServeMode::Empty, path, token) matches CatalogView::Serve(served)
            && served.reply.status == 200 && served.reply.body.len() == 0 && served.source is Local
            && !served.cache_hit && served.stored_at is None && served.refresh is None,
        cache.step(ServeMode::Cache, path, token) == CatalogView::Serve(cache.served(path, token)),
{
}

/// A request that speaks for no account is answered with an empty message, and nothing is fetched
/// or noted for it.
pub proof fn law_requests_without_an_account_are_answered_with_nothing(
    cache: CacheView,
    path: Seq<char>,
)
    ensures
        cache.served(path, None).reply == crate::http::ReplyView::sized_proto(seq![]),
        cache.served(path, None).source is Local,
        !cache.served(path, None).cache_hit,
        cache.served(path, None).stored_at is None,
        cache.served(path, None).refresh is None,
        cache.after_serving(path, None) == cache,
{
}

/// A request that speaks for an account is answered with what is kept for the endpoint and the
/// account, byte for byte, with its status, its headers and the length of its body, or with an
/// empty message where nothing is. It is fetched anew exactly where it is not being fetched. What is
/// kept does not change.
pub proof fn law_requests_are_answered_with_what_is_kept(
    cache: CacheView,
    key: KeyView,
    name: Seq<char>,
)
    ensures
        cache.entry(key) matches Some(kept) ==> {
            let served = cache.served(key.path, Some(key.token));
            &&& served.reply.status == kept.status
            &&& served.reply.body == kept.body
            &&& crate::http::header_value(served.reply.headers, "content-length"@) == Some(
                crate::http::ascii_bytes(crate::text::decimal_text(kept.body.len())),
            )
            &&& name != "content-length"@ ==> crate::http::header_value(served.reply.headers, name)
                == crate::http::header_value(kept.headers, name)
            &&& served.source is Cached
            &&& served.cache_hit
            &&& served.stored_at == Some(kept.stored_at)
        },
        cache.entry(key) is None ==> {
            let served = cache.served(key.path, Some(key.token));
            &&& served.reply == crate::http::ReplyView::sized_proto(seq![])
            &&& served.source is Local
            &&& !served.cache_hit
            &&& served.stored_at is None
        },
        cache.refreshes(key) ==> cache.served(key.path, Some(key.token)).refresh is None,
        !cache.refreshes(key) ==> cache.served(key.path, Some(key.token)).refresh == Some(key),
        cache.after_serving(key.path, Some(key.token)).entries == cache.entries,
        cache.after_serving(key.path, Some(key.token)).refreshes(key),
        cache.after_serving(key.path, Some(key.token)) == cache.begun(key),
{
}

/// Keeping a reply keeps it whole, and says nothing of what is being fetched; what is being fetched
/// says nothing of what is kept. A reply that was fetched is kept, with its status, headers, body
/// and time, exactly where its status is one of the two hundreds, and in any case no longer being
/// fetched.
pub proof fn law_fetched_replies_are_kept_whole(
    cache: CacheView,
    key: KeyView,
    cached: CachedView,
    fetched: crate::http::ReplyView,
    now: u64,
)
    ensures
        cache.stored(key, cached).entry(key) == Some(cached),
        cache.stored(key, cached).refreshing == cache.refreshing,
        cache.begun(key).entries == cache.entries,
        cache.begun(key).refreshes(key),
        cache.finished(key).entries == cache.entries,
        !cache.finished(key).refreshes(key),
        fetched.status / 100 == 2 ==> (cache.refreshed(key, Some(fetched), now).entry(key)
            matches Some(kept) && kept.status == fetched.status && kept.headers == fetched.headers
            && kept.body == fetched.body && kept.stored_at == now),
        fetched.status / 100 != 2 ==> cache.refreshed(key, Some(fetched), now).entries
            == cache.entries,
        cache.refreshed(key, None, now).entries == cache.entries,
        !cache.refreshed(key, Some(fetched), now).refreshes(key),
        !cache.refreshed(key, None, now).refreshes(key),
{
}

/// What is fetched or kept for an endpoint and an account changes nothing for another endpoint or
/// another account.
pub proof fn law_fetching_is_scoped_to_its_key(
    cache: CacheView,
    key: KeyView,
    other: KeyView,
    fetched: Option<crate::http::ReplyView>,
    now: u64,
)
    requires
        key.token.len() == 32,
        other.token.len() == 32,
        other != key,
    ensures
        cache.refreshed(key, fetched, now).entry(other) == cache.entry(other),
        cache.refreshed(key, fetched, now).refreshes(other) == cache.refreshes(other),
        cache.after_serving(key.path, Some(key.token)).entry(other) == cache.entry(other),
        cache.after_serving(key.path, Some(key.token)).refreshes(other) == cache.refreshes(other),
{
    if other.text() == key.text() {
        lemma_keys_are_distinct(other, key);
    }
}

} // verus!
