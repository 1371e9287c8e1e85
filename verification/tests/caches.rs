use std::path::Path;

use axum::http::header;
use axum::http::{HeaderMap, HeaderValue};
use cursor_routing::get_me_cache;
use cursor_routing::get_me_cache::{cache_file, refresh_outcome, GetMeStep, RefreshGate, RefreshOutcome};
use cursor_routing::http::{empty_proto, has_room, is_success, proto_reply, proto_response, Reply};
use cursor_routing::plugin_catalog::{
    cached_response, refresh, serve as serve_catalog, serve_cached, serve_mode, CacheKey,
    CachedMetadata, CatalogStep, MetadataCache, ServeMode, Served,
};
use cursor_routing::startup_timing::{log_metadata, MetadataRecord, MetadataSource};
use cursor_routing::text::{decimal, hex};
use cursor_routing::token::{bearer_token, token_hash};

fn authorized(value: &str) -> HeaderMap {
    let mut headers = HeaderMap::new();
    headers.insert(header::AUTHORIZATION, HeaderValue::from_str(value).unwrap());
    headers
}

#[test]
fn source_labels_match_plan_contract() {
    assert_eq!(MetadataSource::Local.as_str(), "local");
    assert_eq!(MetadataSource::Cached.as_str(), "cached");
    assert_eq!(MetadataSource::Upstream.as_str(), "upstream");
    assert_eq!(MetadataSource::Merged.as_str(), "merged");
}

#[test]
fn records_hold_whole_milliseconds() {
    assert_eq!(
        log_metadata(
            "/GetMe",
            MetadataSource::Upstream,
            (1u128 << 64) + 12,
            Some(7),
            Some(false),
            None
        ),
        MetadataRecord {
            path: "/GetMe".into(),
            source: "upstream",
            total_ms: 12,
            upstream_ms: Some(7),
            cache_hit: Some(false),
            cache_age_ms: None,
        }
    );
}

#[test]
fn cache_file_name_is_the_token_hash_not_the_token() {
    let token = [0xab, 0xcd, 0x10, 0xff].repeat(8);
    let token: [u8; 32] = token.try_into().unwrap();
    let path = Path::new("/tmp/get-me").join(hex(&token));
    assert_eq!(path.file_name().unwrap(), hex(&token).as_str());
    assert!(!path.to_string_lossy().contains("secret"));
    assert_eq!(hex(&token).len(), 64);
    assert_eq!(cache_file(&token), vec!["cache".to_owned(), "get_me".to_owned(), hex(&token)]);
    assert_eq!(hex(&[0x00, 0x0f, 0xa5]), "000fa5");
}

#[test]
fn tokens_are_hashed_without_their_scheme() {
    let hash = token_hash(&authorized("Bearer abc")).unwrap();
    assert_eq!(hex(&hash), "ba7816bf8f01cfea414140de5dae2223b00361a396177a9cb410ff61f20015ad");
    assert_eq!(bearer_token(&authorized("Bearer abc")).unwrap(), b"abc".to_vec());
    assert!(token_hash(&HeaderMap::new()).is_none());
    assert!(token_hash(&authorized("Bearer ")).is_none());
    assert!(token_hash(&authorized("bearer abc")).is_none());
    assert!(token_hash(&authorized("Basic abc")).is_none());
    let mut unreadable = HeaderMap::new();
    unreadable.insert(header::AUTHORIZATION, HeaderValue::from_bytes(b"Bearer \xff").unwrap());
    assert!(token_hash(&unreadable).is_none());
}

#[test]
fn official_tokens_use_the_persistent_cache_only_when_enabled() {
    // Whether a token is this side's own is told by the caller.
    let uses_local_token =
        |headers: &HeaderMap| bearer_token(headers).unwrap() == b"local-cursor-token".to_vec();
    let headers = authorized("Bearer official-cursor-token");
    assert_eq!(serve_mode(uses_local_token(&headers), true), ServeMode::Cache);
    assert_eq!(serve_mode(uses_local_token(&headers), false), ServeMode::Forward);

    let headers = authorized("Bearer local-cursor-token");
    assert_eq!(serve_mode(uses_local_token(&headers), true), ServeMode::Empty);
    assert_eq!(serve_mode(uses_local_token(&headers), false), ServeMode::Empty);
}

#[test]
fn cache_is_scoped_to_the_endpoint_and_refreshes_once_at_a_time() {
    let mut cache = MetadataCache::new();
    let plugins = CacheKey { path: "/GetEffectiveUserPlugins".into(), token: [7u8; 32] };
    let privacy = CacheKey { path: "/GetUserPrivacyMode".into(), token: [7u8; 32] };
    cache.store(&plugins, 200, HeaderMap::new(), b"plugins".to_vec(), 0);
    assert_eq!(cache.get(&plugins).unwrap().body, b"plugins");
    assert!(cache.get(&privacy).is_none());
    assert!(cache.begin_refresh(&plugins));
    assert!(!cache.begin_refresh(&plugins));
    assert!(cache.begin_refresh(&privacy));
    cache.finish_refresh(&plugins);
    assert!(cache.begin_refresh(&plugins));
}

fn values<'a>(headers: &'a HeaderMap, name: &str) -> Vec<&'a str> {
    headers.get_all(name).iter().map(|value| value.to_str().unwrap()).collect()
}

#[test]
fn catalog_serves_what_was_fetched() {
    let mut cache = MetadataCache::new();
    let token = Some([3u8; 32]);
    let first = serve_cached(&mut cache, "/plugins", token);
    assert_eq!(first.source, MetadataSource::Local);
    assert!(!first.cache_hit);
    assert_eq!(first.stored_at, None);
    assert!(first.reply.body.is_empty());
    let key = first.refresh.unwrap();
    assert_eq!(key, CacheKey { path: "/plugins".into(), token: [3u8; 32] });
    assert!(serve_cached(&mut cache, "/plugins", token).refresh.is_none());

    let mut headers = HeaderMap::new();
    headers.append("content-length", HeaderValue::from_static("999"));
    headers.append("content-length", HeaderValue::from_static("998"));
    headers.append("x-a", HeaderValue::from_static("1"));
    headers.append("x-a", HeaderValue::from_static("2"));
    let fetched = Reply { status: 201, headers, body: b"fetched".to_vec() };
    assert_eq!(refresh(&mut cache, &key, Some(fetched), 40), RefreshOutcome::Kept);

    let second = serve_cached(&mut cache, "/plugins", token);
    assert_eq!(second.source, MetadataSource::Cached);
    assert!(second.cache_hit);
    assert_eq!(second.stored_at, Some(40));
    assert_eq!(second.reply.status, 201);
    assert_eq!(second.reply.body, b"fetched");
    assert_eq!(values(&second.reply.headers, "content-length"), vec!["7"]);
    assert_eq!(values(&second.reply.headers, "x-a"), vec!["1", "2"]);
    assert!(second.refresh.is_some());

    let rejected = Reply { status: 500, headers: HeaderMap::new(), body: b"error".to_vec() };
    assert_eq!(refresh(&mut cache, &key, Some(rejected), 50), RefreshOutcome::Rejected);
    assert_eq!(refresh(&mut cache, &key, None, 60), RefreshOutcome::Failed);
    assert_eq!(serve_cached(&mut cache, "/plugins", token).reply.body, b"fetched");
    assert!(!serve_cached(&mut cache, "/plugins", Some([4u8; 32])).cache_hit);

    let unknown = serve_cached(&mut cache, "/plugins", None);
    assert!(unknown.refresh.is_none());
    assert!(!unknown.cache_hit);
}

#[test]
fn requests_with_local_tokens_are_served_here() {
    let mut cache = MetadataCache::new();
    let headers = authorized("Bearer abc");
    let step = serve_catalog(&mut cache, true, true, "/plugins", &headers);
    assert!(matches!(
        step,
        CatalogStep::Serve(Served { refresh: None, cache_hit: false, .. })
    ));
    assert!(matches!(
        serve_catalog(&mut cache, false, false, "/plugins", &headers),
        CatalogStep::Forward
    ));
    let step = serve_catalog(&mut cache, false, true, "/plugins", &headers);
    let CatalogStep::Serve(served) = step else { panic!("expected to be served") };
    let key = served.refresh.unwrap();
    assert_eq!((key.path.as_str(), key.token), ("/plugins", token_hash(&headers).unwrap()));
}

#[test]
fn account_reply_is_served_from_what_was_kept() {
    let mut gate = RefreshGate::new();
    let token = Some([9u8; 32]);
    assert!(matches!(get_me_cache::serve(&mut gate, None, None), GetMeStep::Forward));
    assert!(matches!(get_me_cache::serve(&mut gate, token, None), GetMeStep::Fetch));
    // An empty file holds no reply.
    assert!(matches!(get_me_cache::serve(&mut gate, token, Some(vec![])), GetMeStep::Fetch));
    let GetMeStep::Reply { reply, refresh } =
        get_me_cache::serve(&mut gate, token, Some(b"get-me-body".to_vec()))
    else {
        panic!("expected a reply")
    };
    assert!(refresh);
    assert_eq!(reply.status, 200);
    assert_eq!(reply.body, b"get-me-body");
    assert_eq!(values(&reply.headers, "content-type"), vec!["application/proto"]);
    assert_eq!(values(&reply.headers, "content-length"), vec!["11"]);
    let again = get_me_cache::serve(&mut gate, token, Some(b"get-me-body".to_vec()));
    assert!(matches!(again, GetMeStep::Reply { refresh: false, .. }));
    let other = get_me_cache::serve(&mut gate, Some([8u8; 32]), Some(b"other".to_vec()));
    assert!(matches!(other, GetMeStep::Reply { refresh: true, .. }));
    gate.finish_refresh(&[9u8; 32]);
    assert!(gate.begin_refresh(&[9u8; 32]));
    assert!(!gate.begin_refresh(&[8u8; 32]));
}

#[test]
fn accounts_have_their_own_files() {
    let mut other = [9u8; 32];
    other[31] = 10;
    assert_ne!(cache_file(&[9u8; 32]), cache_file(&other));
}

#[test]
fn only_replies_that_succeed_are_kept() {
    assert_eq!(refresh_outcome(Some(204)), RefreshOutcome::Kept);
    assert_eq!(refresh_outcome(Some(300)), RefreshOutcome::Rejected);
    assert_eq!(refresh_outcome(Some(199)), RefreshOutcome::Rejected);
    assert_eq!(refresh_outcome(None), RefreshOutcome::Failed);
    assert!(is_success(299));
    assert!(!is_success(404));
}

#[test]
fn replies_tell_their_length() {
    let empty = empty_proto();
    assert_eq!(values(&empty.headers, "content-length"), vec!["0"]);
    assert_eq!(values(&empty.headers, "content-type"), vec!["application/proto"]);
    let sized = proto_response(vec![0u8; 1234]);
    assert_eq!(values(&sized.headers, "content-length"), vec!["1234"]);
    let plain = proto_reply(vec![1]);
    assert!(plain.headers.get("content-length").is_none());
    assert_eq!(plain.status, 200);
    let cached = CachedMetadata {
        status: 203,
        headers: HeaderMap::new(),
        body: b"abc".to_vec(),
        stored_at: 0,
    };
    assert!(has_room(&cached.headers));
    let reply = cached_response(cached);
    assert_eq!((reply.status, values(&reply.headers, "content-length")), (203, vec!["3"]));
    assert_eq!(decimal(usize::MAX), usize::MAX.to_string());
    assert_eq!(decimal(10), "10");
}

#[test]
fn a_map_of_many_headers_has_no_room() {
    let mut headers = HeaderMap::new();
    for i in 0..6554 {
        headers.insert(
            header::HeaderName::from_bytes(format!("x-{i}").as_bytes()).unwrap(),
            HeaderValue::from_static("1"),
        );
    }
    assert!(!has_room(&headers));
    headers.remove("x-0");
    assert!(has_room(&headers));
}
