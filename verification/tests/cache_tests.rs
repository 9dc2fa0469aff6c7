use zaiko_edge::cache::{cache_key, Lookup, ResponseCache};
use zaiko_edge::response::{
    cache_control, max_age, Failure, FailureKind, Header, Response, FAILURE_MAX_AGE,
    STATUS_BAD_REQUEST, STATUS_INTERNAL_ERROR, STATUS_OK, SUCCESS_MAX_AGE,
};

fn header(name: &str, value: &str) -> Header {
    Header { name: name.to_string(), value: value.to_string() }
}

fn response(status: u16, body: &str) -> Response {
    Response {
        status,
        headers: vec![header("content-type", "text/plain"), header("x-served-by", "edge")],
        body: body.as_bytes().to_vec(),
    }
}

fn parts(response: &Response) -> (u16, Vec<(String, String)>, Vec<u8>) {
    (
        response.status,
        response.headers.iter().map(|h| (h.name.clone(), h.value.clone())).collect(),
        response.body.clone(),
    )
}

fn pair(name: &str, value: &str) -> (String, String) {
    (name.to_string(), value.to_string())
}

fn hit(lookup: Lookup) -> Response {
    match lookup {
        Lookup::Hit(response) => response,
        other => panic!("expected a hit, got {other:?}"),
    }
}

#[test]
fn max_age_is_long_for_success_and_short_otherwise() {
    assert_eq!(max_age(200), 3600);
    assert_eq!(max_age(201), 3600);
    assert_eq!(max_age(204), 3600);
    assert_eq!(max_age(299), 3600);
    assert_eq!(max_age(199), 300);
    assert_eq!(max_age(300), 300);
    assert_eq!(max_age(304), 300);
    assert_eq!(max_age(400), 300);
    assert_eq!(max_age(500), 300);
    assert_eq!(max_age(0), 300);
    assert_eq!((SUCCESS_MAX_AGE, FAILURE_MAX_AGE), (3600, 300));
    assert_eq!((STATUS_OK, STATUS_BAD_REQUEST, STATUS_INTERNAL_ERROR), (200, 400, 500));
    assert_ne!(max_age(200), max_age(500));
}

#[test]
fn cache_control_names_the_max_age() {
    assert_eq!(cache_control(200), "public, max-age=3600");
    assert_eq!(cache_control(204), "public, max-age=3600");
    assert_eq!(cache_control(302), "public, max-age=300");
    assert_eq!(cache_control(400), "public, max-age=300");
    assert_eq!(cache_control(500), "public, max-age=300");
    assert_eq!(cache_control(200), format!("public, max-age={}", max_age(200)));
    assert_eq!(cache_control(503), format!("public, max-age={}", max_age(503)));
}

#[test]
fn annotate_stamps_the_directive_and_keeps_the_rest() {
    let stamped = response(200, "ok").annotate();
    assert_eq!(
        parts(&stamped),
        (
            200,
            vec![
                pair("content-type", "text/plain"),
                pair("x-served-by", "edge"),
                pair("cache-control", "public, max-age=3600"),
            ],
            b"ok".to_vec()
        )
    );
    let mut failed = response(500, "no");
    failed.headers.insert(0, header("cache-control", "no-store"));
    failed.headers.push(header("cache-control", "private"));
    let stamped = failed.annotate();
    assert_eq!(
        parts(&stamped).1,
        vec![
            pair("content-type", "text/plain"),
            pair("x-served-by", "edge"),
            pair("cache-control", "public, max-age=300"),
        ]
    );
    assert_eq!(stamped.body, b"no");
    let again = stamped.duplicate().annotate();
    assert_eq!(parts(&again), parts(&stamped));
}

#[test]
fn header_reads_the_last_value_of_a_name() {
    let mut answer = response(200, "");
    assert_eq!(answer.header("content-type").as_deref(), Some("text/plain"));
    assert_eq!(answer.header("x-served-by").as_deref(), Some("edge"));
    assert_eq!(answer.header("cache-control"), None);
    assert_eq!(answer.header("Content-Type"), None);
    answer.headers.push(header("content-type", "image/png"));
    assert_eq!(answer.header("content-type").as_deref(), Some("image/png"));
    answer.headers.clear();
    assert_eq!(answer.header("content-type"), None);
}

#[test]
fn annotate_gives_every_success_status_the_long_directive() {
    for status in [200, 201, 204, 206, 299] {
        let stamped = response(status, "").annotate();
        assert_eq!(stamped.header("cache-control").as_deref(), Some("public, max-age=3600"));
    }
    for status in [100, 199, 300, 301, 404, 500, 503] {
        let stamped = response(status, "").annotate();
        assert_eq!(stamped.header("cache-control").as_deref(), Some("public, max-age=300"));
    }
}

#[test]
fn duplicate_copies_every_field() {
    let stamped = response(200, "body").annotate();
    assert_eq!(parts(&stamped.duplicate()), parts(&stamped));
}

#[test]
fn failures_map_to_status_and_text() {
    let kinds = [
        (FailureKind::UpstreamFetch, 500, "Something went wrong: detail"),
        (FailureKind::Extraction, 500, "Something went wrong: detail"),
        (FailureKind::Decode, 500, "Something went wrong: detail"),
        (FailureKind::Encode, 500, "Something went wrong: detail"),
        (FailureKind::Validation, 400, "url not allowed"),
    ];
    for (kind, status, text) in kinds {
        let failure = Failure { kind, detail: "detail".to_string() };
        assert_eq!(failure.status(), status);
        assert_eq!(failure.text(), text);
    }
}

#[test]
fn cache_key_joins_method_path_and_query() {
    assert_eq!(cache_key("GET", "/square.png", "u=a"), "GET /square.png?u=a");
    assert_eq!(cache_key("GET", "/zaiko/events/1", ""), "GET /zaiko/events/1?");
    assert_ne!(cache_key("GET", "/p", "a=1&b=2"), cache_key("GET", "/p", "b=2&a=1"));
}

#[test]
fn a_new_cache_tells_the_first_request_to_compute() {
    let mut cache = ResponseCache::new(3600);
    assert_eq!(cache.lifespan(), 3600);
    assert!(matches!(cache.begin("k", 0), Lookup::Compute));
}

#[test]
fn concurrent_requests_for_one_key_compute_once() {
    let mut cache = ResponseCache::new(3600);
    let mut computations = 0;
    for _ in 0..5 {
        match cache.begin("GET /square.png?u=X", 10) {
            Lookup::Compute => computations += 1,
            Lookup::Join => {}
            other => panic!("unexpected lookup {other:?}"),
        }
    }
    assert_eq!(computations, 1);
    cache.complete("GET /square.png?u=X", response(200, "png"), 12);
    assert_eq!(hit(cache.begin("GET /square.png?u=X", 12)).body, b"png");
    assert_eq!(hit(cache.begin("GET /square.png?u=X", 13)).body, b"png");
}

#[test]
fn requests_for_other_keys_are_not_held_up() {
    let mut cache = ResponseCache::new(3600);
    assert!(matches!(cache.begin("a", 0), Lookup::Compute));
    assert!(matches!(cache.begin("b", 0), Lookup::Compute));
    assert!(matches!(cache.begin("a", 0), Lookup::Join));
    cache.complete("a", response(200, "A"), 1);
    assert!(matches!(cache.begin("b", 1), Lookup::Join));
    assert_eq!(hit(cache.begin("a", 1)).body, b"A");
}

#[test]
fn an_entry_is_served_until_its_lifespan_has_passed() {
    let mut cache = ResponseCache::new(3600);
    assert!(matches!(cache.begin("k", 100), Lookup::Compute));
    cache.complete("k", response(200, "first").annotate(), 100);
    for now in [100, 101, 3699] {
        let served = hit(cache.begin("k", now));
        assert_eq!(served.body, b"first");
        assert_eq!(served.header("cache-control").as_deref(), Some("public, max-age=3600"));
    }
    assert!(matches!(cache.begin("k", 3700), Lookup::Compute));
    assert!(matches!(cache.begin("k", 3701), Lookup::Join));
    cache.complete("k", response(200, "second"), 3701);
    assert_eq!(hit(cache.begin("k", 3702)).body, b"second");
    assert!(matches!(cache.begin("k", 3701 + 3600), Lookup::Compute));
}

#[test]
fn a_cache_without_lifespan_never_serves() {
    let mut cache = ResponseCache::new(0);
    cache.complete("k", response(200, "x"), 5);
    assert!(matches!(cache.begin("k", 5), Lookup::Compute));
}

#[test]
fn an_abandoned_computation_stores_nothing() {
    let mut cache = ResponseCache::new(60);
    assert!(matches!(cache.begin("k", 0), Lookup::Compute));
    cache.abandon("k");
    assert!(matches!(cache.begin("k", 1), Lookup::Compute));
    cache.abandon("unknown");
    assert!(matches!(cache.begin("unknown", 1), Lookup::Compute));
}

#[test]
fn a_failure_response_is_cached_with_its_short_directive() {
    let mut cache = ResponseCache::new(3600);
    cache.complete("k", response(500, "Something went wrong: x").annotate(), 0);
    for now in [0, 1, 2, 3599] {
        let served = hit(cache.begin("k", now));
        assert_eq!(served.status, 500);
        assert_eq!(served.header("cache-control").as_deref(), Some("public, max-age=300"));
    }
}

#[test]
fn get_or_compute_computes_once_per_lifespan() {
    let mut cache = ResponseCache::new(10);
    let mut calls = 0;
    for now in [0, 1, 5, 9] {
        let served = cache
            .get_or_compute("k", now, || {
                calls += 1;
                response(200, "computed").annotate()
            })
            .unwrap();
        assert_eq!(served.body, b"computed");
        assert_eq!(served.header("cache-control").as_deref(), Some("public, max-age=3600"));
    }
    assert_eq!(calls, 1);
    let served = cache
        .get_or_compute("k", 10, || {
            calls += 1;
            response(200, "again")
        })
        .unwrap();
    assert_eq!(served.body, b"again");
    assert_eq!(calls, 2);
    let other = cache
        .get_or_compute("other", 10, || {
            calls += 1;
            response(404, "other")
        })
        .unwrap();
    assert_eq!(other.status, 404);
    assert_eq!(calls, 3);
}

#[test]
fn get_or_compute_does_not_start_a_second_computation() {
    let mut cache = ResponseCache::new(10);
    assert!(matches!(cache.begin("k", 0), Lookup::Compute));
    let mut calls = 0;
    let served = cache.get_or_compute("k", 0, || {
        calls += 1;
        response(200, "x")
    });
    assert!(served.is_none());
    assert_eq!(calls, 0);
}
