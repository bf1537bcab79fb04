use axio_demo::compress::gunzip;
use axio_demo::config::deadline_exceeded;
use axio_demo::config::timeout_response;
use axio_demo::cors::CorsConfig;
use axio_demo::handlers::CacheModel;
use axio_demo::handlers::CreateUser;
use axio_demo::handlers::create_user;
use axio_demo::handlers::create_user_status;
use axio_demo::handlers::root_exchange;
use axio_demo::http::Header;
use axio_demo::http::Method;
use axio_demo::http::Request;
use axio_demo::http::Response;
use axio_demo::lifecycle::Phase;
use axio_demo::lifecycle::StartupError;
use axio_demo::lifecycle::startup;
use axio_demo::pipeline::PipelineConfig;
use axio_demo::pipeline::complete_exchange;
use axio_demo::pool::AcquireOutcome;
use axio_demo::pool::Pool;
use axio_demo::pool::PoolError;
use axio_demo::router::CREATE_USER_HANDLER;
use axio_demo::router::ROOT_HANDLER;
use axio_demo::router::RouteOutcome;
use axio_demo::router::router;

fn header(name: &str, value: &str) -> Header {
    Header { name: name.to_string(), value: value.to_string() }
}

fn config() -> PipelineConfig {
    PipelineConfig {
        compression_threshold: 16,
        capture_limit: 8,
        cors: CorsConfig { allowed_origins: vec!["https://ok.example".to_string()] },
    }
}

fn request(method: Method, path: &str, headers: Vec<Header>, body: Vec<u8>) -> Request {
    Request { method, path: path.to_string(), headers, body }
}

fn plain_response(status: u16, body: Vec<u8>) -> Response {
    Response { status, headers: Vec::new(), body }
}

fn values_named<'a>(r: &'a Response, name: &str) -> Vec<&'a str> {
    r.headers.iter().filter(|h| h.name == name).map(|h| h.value.as_str()).collect()
}

#[test]
fn request_id_fresh_when_none_inbound() {
    let cfg = config();
    let rt = router();
    let req = request(Method::Get, "/", Vec::new(), Vec::new());
    let (resp, record, handled) =
        complete_exchange(&cfg, &rt, &req, "fresh-token-1", plain_response(200, b"ok".to_vec()));
    assert_eq!(handled, Some(ROOT_HANDLER));
    assert_eq!(values_named(&resp, "x-request-id"), vec!["fresh-token-1"]);
    assert_eq!(record.request_id, "fresh-token-1");
}

#[test]
fn request_id_inbound_is_reused() {
    let cfg = config();
    let rt = router();
    let req = request(
        Method::Get,
        "/",
        vec![header("x-request-id", "upstream-123")],
        Vec::new(),
    );
    let (resp, record, _) =
        complete_exchange(&cfg, &rt, &req, "fresh-token-2", plain_response(200, Vec::new()));
    assert_eq!(values_named(&resp, "x-request-id"), vec!["upstream-123"]);
    assert_eq!(record.request_id, "upstream-123");
}

#[test]
fn request_id_present_on_error_responses() {
    let cfg = config();
    let rt = router();
    let req = request(Method::Get, "/missing", Vec::new(), Vec::new());
    let (resp, _, handled) =
        complete_exchange(&cfg, &rt, &req, "fresh-token-3", plain_response(200, Vec::new()));
    assert_eq!(handled, None);
    assert_eq!(resp.status, 404);
    assert_eq!(values_named(&resp, "x-request-id"), vec!["fresh-token-3"]);
}

#[test]
fn handler_duplicate_request_id_is_replaced() {
    let cfg = config();
    let rt = router();
    let req = request(Method::Get, "/", Vec::new(), Vec::new());
    let mut resp = plain_response(200, Vec::new());
    resp.headers.push(header("x-request-id", "stale-a"));
    resp.headers.push(header("x-request-id", "stale-b"));
    let (out, _, _) = complete_exchange(&cfg, &rt, &req, "fresh-token-4", resp);
    assert_eq!(values_named(&out, "x-request-id"), vec!["fresh-token-4"]);
}

#[test]
fn pool_grants_queues_and_hands_over() {
    let mut p = Pool::new(2);
    assert_eq!(p.acquire(101), AcquireOutcome::Granted);
    assert_eq!(p.acquire(102), AcquireOutcome::Granted);
    assert_eq!(p.acquire(103), AcquireOutcome::Queued);
    assert_eq!(p.acquire(104), AcquireOutcome::Queued);
    // A release while callers wait hands the handle to the head of the queue.
    assert_eq!(p.release(), Some(103));
    assert_eq!(p.in_use, 2);
    assert_eq!(p.release(), Some(104));
    // No waiters left: the handle returns to the pool.
    assert_eq!(p.release(), None);
    assert_eq!(p.in_use, 1);
}

#[test]
fn pool_timeout_fails_with_pool_exhausted() {
    let mut p = Pool::new(1);
    assert_eq!(p.acquire(7), AcquireOutcome::Granted);
    assert_eq!(p.acquire(8), AcquireOutcome::Queued);
    assert_eq!(p.timeout(8), PoolError::PoolExhausted);
    assert_eq!(p.waiting.len(), 0);
    assert_eq!(p.in_use, 1);
}

#[test]
fn preflight_never_reaches_handler() {
    let cfg = config();
    let rt = router();
    let req = request(
        Method::Options,
        "/users",
        vec![header("origin", "https://ok.example")],
        Vec::new(),
    );
    let (resp, _, handled) =
        complete_exchange(&cfg, &rt, &req, "fresh-token-5", plain_response(200, Vec::new()));
    assert_eq!(handled, None);
    assert_eq!(resp.status, 204);
    assert_eq!(
        values_named(&resp, "access-control-allow-origin"),
        vec!["https://ok.example"]
    );
    assert_eq!(
        values_named(&resp, "access-control-allow-methods"),
        vec!["GET, POST, OPTIONS"]
    );
    assert_eq!(values_named(&resp, "x-request-id"), vec!["fresh-token-5"]);
}

#[test]
fn preflight_from_unlisted_origin_gets_no_echo() {
    let cfg = config();
    let rt = router();
    let req = request(
        Method::Options,
        "/",
        vec![header("origin", "https://evil.example")],
        Vec::new(),
    );
    let (resp, _, handled) =
        complete_exchange(&cfg, &rt, &req, "fresh-token-6", plain_response(200, Vec::new()));
    assert_eq!(handled, None);
    assert_eq!(resp.status, 204);
    assert!(values_named(&resp, "access-control-allow-origin").is_empty());
}

#[test]
fn unlisted_origin_is_rejected_outside_preflight() {
    let cfg = config();
    let rt = router();
    let req = request(
        Method::Get,
        "/",
        vec![header("origin", "https://evil.example")],
        Vec::new(),
    );
    let (resp, _, handled) =
        complete_exchange(&cfg, &rt, &req, "fresh-token-7", plain_response(200, Vec::new()));
    assert_eq!(handled, None);
    assert_eq!(resp.status, 403);
    assert_eq!(values_named(&resp, "x-request-id"), vec!["fresh-token-7"]);
}

#[test]
fn allowed_origin_is_echoed_on_ordinary_responses() {
    let cfg = config();
    let rt = router();
    let req = request(
        Method::Get,
        "/",
        vec![header("origin", "https://ok.example")],
        Vec::new(),
    );
    let (resp, _, handled) =
        complete_exchange(&cfg, &rt, &req, "fresh-token-8", plain_response(200, Vec::new()));
    assert_eq!(handled, Some(ROOT_HANDLER));
    assert_eq!(
        values_named(&resp, "access-control-allow-origin"),
        vec!["https://ok.example"]
    );
}

#[test]
fn small_body_is_never_compressed() {
    let cfg = config();
    let rt = router();
    let req = request(
        Method::Get,
        "/",
        vec![header("accept-encoding", "gzip")],
        Vec::new(),
    );
    let body = b"tiny body".to_vec();
    let (resp, _, _) =
        complete_exchange(&cfg, &rt, &req, "fresh-token-9", plain_response(200, body.clone()));
    assert_eq!(resp.body, body);
    assert!(values_named(&resp, "content-encoding").is_empty());
}

#[test]
fn large_body_compresses_and_round_trips() {
    let cfg = config();
    let rt = router();
    let req = request(
        Method::Get,
        "/",
        vec![header("accept-encoding", "gzip, deflate")],
        Vec::new(),
    );
    let body = vec![b'a'; 300];
    let mut handler_resp = plain_response(200, body.clone());
    handler_resp.headers.push(header("content-type", "text/plain"));
    let (resp, record, _) =
        complete_exchange(&cfg, &rt, &req, "fresh-token-10", handler_resp);
    assert_eq!(values_named(&resp, "content-encoding"), vec!["gzip"]);
    assert_ne!(resp.body, body);
    let back = gunzip(&resp.body).expect("a stream the encoder produced decodes");
    assert_eq!(back, body);
    // The trace records the pre-compression body, truncated to the limit.
    assert_eq!(record.response_body, vec![b'a'; 8]);
}

#[test]
fn client_without_gzip_support_gets_identity() {
    let cfg = config();
    let rt = router();
    let req = request(
        Method::Get,
        "/",
        vec![header("accept-encoding", "br")],
        Vec::new(),
    );
    let body = vec![b'z'; 300];
    let (resp, _, _) =
        complete_exchange(&cfg, &rt, &req, "fresh-token-11", plain_response(200, body.clone()));
    assert_eq!(resp.body, body);
    assert!(values_named(&resp, "content-encoding").is_empty());
}

#[test]
fn precompressed_content_type_is_left_alone() {
    let cfg = config();
    let rt = router();
    let req = request(
        Method::Get,
        "/",
        vec![header("accept-encoding", "gzip")],
        Vec::new(),
    );
    let body = vec![0u8; 300];
    let mut handler_resp = plain_response(200, body.clone());
    handler_resp.headers.push(header("content-type", "image/png"));
    let (resp, _, _) =
        complete_exchange(&cfg, &rt, &req, "fresh-token-12", handler_resp);
    assert_eq!(resp.body, body);
    assert!(values_named(&resp, "content-encoding").is_empty());
}

#[test]
fn hook_failure_aborts_before_serving() {
    let hooks = vec![true, false, true];
    let (lc, err) = startup(true, &hooks);
    assert_eq!(err, Some(StartupError::HookFailure));
    assert_ne!(lc.phase, Phase::Serving);
    assert_ne!(lc.exit_code(), 0);
}

#[test]
fn startup_serves_when_all_hooks_pass() {
    let hooks = vec![true, true];
    let (lc, err) = startup(true, &hooks);
    assert_eq!(err, None);
    assert_eq!(lc.phase, Phase::Serving);
}

#[test]
fn malformed_config_is_fatal() {
    let hooks = vec![true];
    let (lc, err) = startup(false, &hooks);
    assert_eq!(err, Some(StartupError::ConfigError));
    assert_ne!(lc.phase, Phase::Serving);
    assert_ne!(lc.exit_code(), 0);
}

#[test]
fn create_user_scenario() {
    let cfg = config();
    let rt = router();
    let body = br#"{"username":"alice"}"#.to_vec();
    let req = request(Method::Post, "/users", Vec::new(), body);
    // The store's insert assigned id 1; the verified decision echoes the row.
    let payload = CreateUser { username: "alice".to_string() };
    let user = create_user(payload, 1).expect("a non-empty username validates");
    assert_eq!(user.id, 1);
    assert_eq!(user.username, "alice");
    let status = create_user_status(true);
    assert_eq!(status, 201);
    let echo = format!("{{\"id\":{},\"username\":\"{}\"}}", user.id, user.username);
    assert_eq!(echo, r#"{"id":1,"username":"alice"}"#);
    let (resp, _, handled) = complete_exchange(
        &cfg,
        &rt,
        &req,
        "fresh-token-13",
        plain_response(status, echo.into_bytes()),
    );
    assert_eq!(handled, Some(CREATE_USER_HANDLER));
    assert_eq!(resp.status, 201);
    assert_eq!(values_named(&resp, "x-request-id"), vec!["fresh-token-13"]);
}

#[test]
fn create_user_empty_username_is_rejected() {
    let cfg = config();
    let rt = router();
    let req = request(Method::Post, "/users", Vec::new(), br#"{"username":""}"#.to_vec());
    let payload = CreateUser { username: String::new() };
    let err = create_user(payload, 1).err().expect("an empty username is rejected");
    assert_eq!(err.message(), "Can not be empty");
    let status = create_user_status(false);
    assert!(status >= 400 && status < 500);
    let (resp, _, _) = complete_exchange(
        &cfg,
        &rt,
        &req,
        "fresh-token-14",
        plain_response(status, Vec::new()),
    );
    assert_eq!(resp.status, 422);
    assert_eq!(values_named(&resp, "x-request-id"), vec!["fresh-token-14"]);
}

#[test]
fn wrong_method_on_known_path() {
    let rt = router();
    assert_eq!(rt.dispatch(Method::Get, "/"), RouteOutcome::Found(ROOT_HANDLER));
    assert_eq!(rt.dispatch(Method::Post, "/users"), RouteOutcome::Found(CREATE_USER_HANDLER));
    assert_eq!(rt.dispatch(Method::Post, "/"), RouteOutcome::MethodNotAllowed);
    assert_eq!(rt.dispatch(Method::Get, "/users"), RouteOutcome::MethodNotAllowed);
    assert_eq!(rt.dispatch(Method::Get, "/nope"), RouteOutcome::NotFound);
}

#[test]
fn method_not_allowed_carries_request_id() {
    let cfg = config();
    let rt = router();
    let req = request(Method::Post, "/", Vec::new(), Vec::new());
    let (resp, _, handled) =
        complete_exchange(&cfg, &rt, &req, "fresh-token-15", plain_response(200, Vec::new()));
    assert_eq!(handled, None);
    assert_eq!(resp.status, 405);
    assert_eq!(values_named(&resp, "x-request-id"), vec!["fresh-token-15"]);
}

#[test]
fn cached_greeting_within_ttl_skips_second_write() {
    let mut cache = CacheModel { present: false, value: Vec::new(), expires: 0 };
    let (first, wrote_first) = root_exchange(&mut cache, 100);
    assert!(wrote_first);
    assert_eq!(first, b"Hello, axio-demo!".to_vec());
    let (second, wrote_second) = root_exchange(&mut cache, 105);
    assert!(!wrote_second);
    assert_eq!(second, first);
}

#[test]
fn expired_greeting_is_written_again() {
    let mut cache = CacheModel { present: false, value: Vec::new(), expires: 0 };
    let (_, wrote_first) = root_exchange(&mut cache, 100);
    assert!(wrote_first);
    let (third, wrote_third) = root_exchange(&mut cache, 110);
    assert!(wrote_third);
    assert_eq!(third, b"Hello, axio-demo!".to_vec());
}

fn sample_config(pool_size: usize) -> axio_demo::config::Config {
    axio_demo::config::Config {
        listen_addr: "127.0.0.1:8080".to_string(),
        pool_size,
        acquire_timeout_ms: 5000,
        request_deadline_ms: 30000,
        grace_period_ms: 10000,
        compression_threshold: 1024,
        capture_limit: 4096,
        allowed_origins: vec!["https://ok.example".to_string()],
    }
}

#[test]
fn config_validation_and_pipeline_knobs() {
    let good = sample_config(8);
    assert!(good.validate());
    let p = good.pipeline();
    assert_eq!(p.compression_threshold, 1024);
    assert_eq!(p.capture_limit, 4096);
    assert_eq!(p.cors.allowed_origins, vec!["https://ok.example".to_string()]);
    let empty_pool = sample_config(0);
    assert!(!empty_pool.validate());
    let mut no_addr = sample_config(8);
    no_addr.listen_addr = String::new();
    assert!(!no_addr.validate());
}

#[test]
fn deadline_and_timeout_response() {
    assert!(!deadline_exceeded(1000, 30000, 1000));
    assert!(!deadline_exceeded(1000, 30000, 30999));
    assert!(deadline_exceeded(1000, 30000, 31000));
    assert!(!deadline_exceeded(1000, 30000, 500));
    let r = timeout_response();
    assert_eq!(r.status, 504);
    assert!(r.body.is_empty());
}

#[test]
fn request_body_snapshot_is_truncated() {
    let cfg = config();
    let rt = router();
    let req = request(Method::Get, "/", Vec::new(), vec![7u8; 32]);
    let (_, record, _) =
        complete_exchange(&cfg, &rt, &req, "fresh-token-16", plain_response(200, Vec::new()));
    assert_eq!(record.request_body, vec![7u8; 8]);
}
