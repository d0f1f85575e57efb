use microservice_rust_workshop::interceptor::authorize;
use microservice_rust_workshop::interceptor::check_body_size;
use microservice_rust_workshop::interceptor::enter;
use microservice_rust_workshop::interceptor::leave;
use microservice_rust_workshop::interceptor::Stage;
use microservice_rust_workshop::kv_store::kv_error::ErrorKind;
use microservice_rust_workshop::log::LogEvent;
use microservice_rust_workshop::log::Phase;
use microservice_rust_workshop::log::Verbosity;
use microservice_rust_workshop::request::Operation;
use microservice_rust_workshop::request::Request;
use microservice_rust_workshop::service::Config;
use microservice_rust_workshop::service::empty_reply;
use microservice_rust_workshop::service::handle;
use microservice_rust_workshop::service::run_chain;
use microservice_rust_workshop::service::serve;
use microservice_rust_workshop::service::standard_chain;
use microservice_rust_workshop::service::text_reply;
use microservice_rust_workshop::state::AppState;

fn config() -> Config {
    Config {
        max_body_size: 1024,
        admin_secret: "secret".to_string(),
        verbosity: Verbosity::All,
    }
}

fn request(method: &str, target: &str, operation: Operation, key: &str) -> Request {
    Request {
        method: method.to_string(),
        target: target.to_string(),
        operation,
        key: key.to_string(),
        content_type: String::new(),
        authorization: None,
        body: Vec::new(),
    }
}

fn post(key: &str, content_type: &str, body: &[u8]) -> Request {
    Request {
        content_type: content_type.to_string(),
        body: body.to_vec(),
        ..request("POST", &format!("/kv/{key}"), Operation::Write, key)
    }
}

fn get(key: &str) -> Request {
    request("GET", &format!("/kv/{key}"), Operation::Read, key)
}

fn delete_all(authorization: Option<&str>) -> Request {
    Request {
        authorization: authorization.map(str::to_string),
        ..request("DELETE", "/admin/kv", Operation::DeleteAll, "")
    }
}

fn delete_one(key: &str, authorization: Option<&str>) -> Request {
    Request {
        authorization: authorization.map(str::to_string),
        ..request("DELETE", &format!("/admin/kv/{key}"), Operation::DeleteOne, key)
    }
}

fn lines(log: &[LogEvent]) -> Vec<String> {
    log.iter().map(LogEvent::line).collect()
}

#[test]
fn entry_is_logged_first() {
    let mut state = AppState::default();
    let mut log = Vec::new();
    state.put(
        "/".to_string(),
        microservice_rust_workshop::state::StoredType::Other {
            content_type: "text/html".to_string(),
            bytes: b"<h1>Hello Axum</h1>".to_vec(),
        },
    )
    .unwrap();

    let response =
        serve(&config(), &mut state, request("GET", "/", Operation::Read, "/"), &mut log).unwrap();
    assert_eq!(&response.body[..], b"<h1>Hello Axum</h1>");

    assert_eq!("processing GET /", log[0].line().trim());
}

#[test]
fn entry_and_exit_are_logged_in_order() {
    let mut state = AppState::default();
    let mut log = Vec::new();
    state.put(
        "/".to_string(),
        microservice_rust_workshop::state::StoredType::Other {
            content_type: "text/html".to_string(),
            bytes: b"<h1>Hello Axum</h1>".to_vec(),
        },
    )
    .unwrap();

    let response =
        serve(&config(), &mut state, request("GET", "/", Operation::Read, "/"), &mut log).unwrap();
    assert_eq!(&response.body[..], b"<h1>Hello Axum</h1>");

    let output = lines(&log).join("\n");
    assert_eq!("processing GET /\nend processing GET /", output.trim());
}

#[test]
fn delete_all_without_credential_is_unauthorized() {
    let mut state = AppState::default();
    let mut log = Vec::new();

    let response =
        serve(&config(), &mut state, post("test", "text/plain", b"Hello World"), &mut log);
    assert!(response.is_ok());

    let response = serve(&config(), &mut state, get("test"), &mut log).unwrap();
    assert_eq!(&response.body[..], b"Hello World");

    let error = serve(&config(), &mut state, delete_all(None), &mut log).unwrap_err();
    assert_eq!(error.kind, ErrorKind::Unauthorized);
    assert_eq!(error.status(), 401);
}

#[test]
fn delete_all_with_credential_empties_the_store() {
    let mut state = AppState::default();
    let mut log = Vec::new();

    let response =
        serve(&config(), &mut state, post("test", "text/plain", b"Hello World"), &mut log);
    assert!(response.is_ok());

    let response = serve(&config(), &mut state, get("test"), &mut log).unwrap();
    assert_eq!(&response.body[..], b"Hello World");

    let response = serve(&config(), &mut state, delete_all(Some("Bearer secret")), &mut log);
    assert!(response.is_ok());

    let error = serve(&config(), &mut state, get("test"), &mut log).unwrap_err();
    assert_eq!(error.status(), 404);
}

#[test]
fn delete_one_with_credential_removes_the_key() {
    let mut state = AppState::default();
    let mut log = Vec::new();

    let response =
        serve(&config(), &mut state, post("test", "text/plain", b"Hello World"), &mut log);
    assert!(response.is_ok());

    let response = serve(&config(), &mut state, get("test"), &mut log).unwrap();
    assert_eq!(&response.body[..], b"Hello World");

    let response =
        serve(&config(), &mut state, delete_one("test", Some("Bearer secret")), &mut log);
    assert!(response.is_ok());

    let error = serve(&config(), &mut state, get("test"), &mut log).unwrap_err();
    assert_eq!(error.status(), 404);
}

#[test]
fn body_size_is_checked_against_the_ceiling() {
    assert!(check_body_size(0, 0).is_ok());
    assert!(check_body_size(10, 10).is_ok());
    assert!(check_body_size(9, 10).is_ok());
    assert!(check_body_size(usize::MAX, usize::MAX).is_ok());
    let error = check_body_size(11, 10).unwrap_err();
    assert_eq!(error.kind, ErrorKind::PayloadTooLarge);
    assert_eq!(error.status(), 413);
    assert_eq!(check_body_size(1, 0).unwrap_err().kind, ErrorKind::PayloadTooLarge);
}

#[test]
fn bearer_credential_must_match_exactly() {
    assert!(authorize(&Some("Bearer secret".to_string()), "secret").is_ok());
    assert!(authorize(&Some("Bearer ".to_string()), "").is_ok());
    assert!(authorize(&Some("Bearer a b".to_string()), "a b").is_ok());

    let refused = [
        None,
        Some(""),
        Some("secret"),
        Some("Bearer"),
        Some("Bearer "),
        Some("Bearer secre"),
        Some("Bearer secrets"),
        Some("Bearer Secret"),
        Some("Bearer  secret"),
        Some("Bearer secret "),
        Some(" Bearer secret"),
        Some("bearer secret"),
        Some("Basic secret"),
        Some("Bearersecret"),
    ];
    for presented in refused {
        let error = authorize(&presented.map(str::to_string), "secret").unwrap_err();
        assert_eq!(error.kind, ErrorKind::Unauthorized, "presented {presented:?}");
        assert_eq!(error.status(), 401);
    }
}

#[test]
fn oversized_body_never_reaches_the_store() {
    let mut state = AppState::new();
    let mut log = Vec::new();
    let small = Config {
        max_body_size: 4,
        admin_secret: "secret".to_string(),
        verbosity: Verbosity::All,
    };

    let error = serve(&small, &mut state, post("k", "text/plain", b"12345"), &mut log).unwrap_err();
    assert_eq!(error.kind, ErrorKind::PayloadTooLarge);
    assert!(log.is_empty());
    assert_eq!(
        serve(&small, &mut state, get("k"), &mut log).unwrap_err().kind,
        ErrorKind::NotFound
    );

    assert!(serve(&small, &mut state, post("k", "text/plain", b"1234"), &mut log).is_ok());
    assert_eq!(serve(&small, &mut state, get("k"), &mut log).unwrap().body, b"1234".to_vec());
}

#[test]
fn oversized_image_is_not_decoded() {
    let mut state = AppState::new();
    let mut log = Vec::new();
    let small = Config {
        max_body_size: 4,
        admin_secret: "secret".to_string(),
        verbosity: Verbosity::All,
    };
    let error =
        serve(&small, &mut state, post("k", "image/png", b"not a picture"), &mut log).unwrap_err();
    assert_eq!(error.kind, ErrorKind::PayloadTooLarge);
}

#[test]
fn size_limit_comes_before_the_credential() {
    let mut state = AppState::new();
    let mut log = Vec::new();
    let small = Config {
        max_body_size: 4,
        admin_secret: "secret".to_string(),
        verbosity: Verbosity::All,
    };
    let oversized = Request { body: b"12345".to_vec(), ..delete_all(None) };
    let error = serve(&small, &mut state, oversized, &mut log).unwrap_err();
    assert_eq!(error.kind, ErrorKind::PayloadTooLarge);
    assert!(log.is_empty());
}

#[test]
fn unauthorized_deletion_leaves_the_store_unchanged() {
    let mut state = AppState::new();
    let mut log = Vec::new();
    serve(&config(), &mut state, post("a", "text/plain", b"one"), &mut log).unwrap();
    serve(&config(), &mut state, post("b", "text/plain", b"two"), &mut log).unwrap();
    let logged = log.len();

    for presented in [None, Some("Bearer wrong"), Some("secret"), Some("Bearer secret!")] {
        let error = serve(&config(), &mut state, delete_all(presented), &mut log).unwrap_err();
        assert_eq!(error.kind, ErrorKind::Unauthorized);
        let error = serve(&config(), &mut state, delete_one("a", presented), &mut log).unwrap_err();
        assert_eq!(error.kind, ErrorKind::Unauthorized);
    }
    // A refused request is not logged: the logger sits inside the bearer check.
    assert_eq!(log.len(), logged);
    assert_eq!(serve(&config(), &mut state, get("a"), &mut log).unwrap().body, b"one".to_vec());
    assert_eq!(serve(&config(), &mut state, get("b"), &mut log).unwrap().body, b"two".to_vec());
}

#[test]
fn reads_and_writes_need_no_credential() {
    let mut state = AppState::new();
    let mut log = Vec::new();
    assert!(serve(&config(), &mut state, post("a", "text/plain", b"one"), &mut log).is_ok());
    assert!(serve(&config(), &mut state, get("a"), &mut log).is_ok());
    let transform = request("GET", "/kv/a/grayscale", Operation::Transform, "a");
    assert_eq!(
        serve(&config(), &mut state, transform, &mut log).unwrap_err().kind,
        ErrorKind::UnsupportedOperation
    );
}

#[test]
fn authorized_delete_one_removes_only_its_key() {
    let mut state = AppState::new();
    let mut log = Vec::new();
    serve(&config(), &mut state, post("a", "text/plain", b"one"), &mut log).unwrap();
    serve(&config(), &mut state, post("b", "text/plain", b"two"), &mut log).unwrap();

    let reply =
        serve(&config(), &mut state, delete_one("a", Some("Bearer secret")), &mut log).unwrap();
    assert!(reply.body.is_empty());
    assert_eq!(
        serve(&config(), &mut state, get("a"), &mut log).unwrap_err().kind,
        ErrorKind::NotFound
    );
    assert_eq!(serve(&config(), &mut state, get("b"), &mut log).unwrap().body, b"two".to_vec());
    // Deleting it again, or a key never written, succeeds all the same.
    assert!(serve(&config(), &mut state, delete_one("a", Some("Bearer secret")), &mut log).is_ok());
    assert!(serve(&config(), &mut state, delete_one("z", Some("Bearer secret")), &mut log).is_ok());
}

#[test]
fn logger_records_entry_then_exit() {
    let mut state = AppState::new();
    let mut log = Vec::new();
    serve(&config(), &mut state, post("test", "text/plain", b"Hello World"), &mut log).unwrap();
    assert_eq!(log.len(), 2);
    assert_eq!(log[0].phase, Phase::Entry);
    assert_eq!(log[0].method, "POST");
    assert_eq!(log[0].target, "/kv/test");
    assert_eq!(log[1].phase, Phase::Exit);
    assert_eq!(log[1].method, "POST");
    assert_eq!(log[1].target, "/kv/test");

    // A failing handler is logged like a succeeding one.
    let error = serve(&config(), &mut state, get("absent"), &mut log).unwrap_err();
    assert_eq!(error.kind, ErrorKind::NotFound);
    assert_eq!(
        lines(&log),
        vec![
            "processing POST /kv/test",
            "end processing POST /kv/test",
            "processing GET /kv/absent",
            "end processing GET /kv/absent",
        ]
    );
}

#[test]
fn logger_outside_a_refusing_stage_still_records_the_exit() {
    let mut state = AppState::new();
    let mut log = Vec::new();
    let stages = vec![Stage::Logger, Stage::BearerAuth("secret".to_string()), Stage::Logger];
    let error = run_chain(&stages, &mut state, delete_all(None), &mut log).unwrap_err();
    assert_eq!(error.kind, ErrorKind::Unauthorized);
    assert_eq!(lines(&log), vec!["processing DELETE /admin/kv", "end processing DELETE /admin/kv"]);

    let mut log = Vec::new();
    let reply = run_chain(&stages, &mut state, delete_all(Some("Bearer secret")), &mut log);
    assert!(reply.is_ok());
    assert_eq!(
        lines(&log),
        vec![
            "processing DELETE /admin/kv",
            "processing DELETE /admin/kv",
            "end processing DELETE /admin/kv",
            "end processing DELETE /admin/kv",
        ]
    );
}

#[test]
fn empty_chain_is_the_handler() {
    let mut state = AppState::new();
    let mut log = Vec::new();
    let stages = Vec::new();
    run_chain(&stages, &mut state, post("k", "text/plain", b"v"), &mut log).unwrap();
    assert!(log.is_empty());
    assert_eq!(run_chain(&stages, &mut state, get("k"), &mut log).unwrap().body, b"v".to_vec());
    // Without a bearer stage nothing asks for the credential.
    assert!(run_chain(&stages, &mut state, delete_all(None), &mut log).is_ok());
    assert_eq!(
        run_chain(&stages, &mut state, get("k"), &mut log).unwrap_err().kind,
        ErrorKind::NotFound
    );
}

#[test]
fn stages_apply_outermost_first() {
    let mut state = AppState::new();
    let mut log = Vec::new();
    let request = Request { body: vec![0; 8], ..delete_all(None) };
    let stages = vec![Stage::BearerAuth("secret".to_string()), Stage::BodyLimit(4)];
    assert_eq!(
        run_chain(&stages, &mut state, request, &mut log).unwrap_err().kind,
        ErrorKind::Unauthorized
    );
    let request = Request { body: vec![0; 8], ..delete_all(None) };
    let stages = vec![Stage::BodyLimit(4), Stage::BearerAuth("secret".to_string())];
    assert_eq!(
        run_chain(&stages, &mut state, request, &mut log).unwrap_err().kind,
        ErrorKind::PayloadTooLarge
    );
}

#[test]
fn standard_chain_has_the_bearer_check_for_deletions_only() {
    for operation in [Operation::Write, Operation::Read, Operation::Transform] {
        assert!(!operation.is_administrative());
        let stages = standard_chain(&config(), operation);
        assert!(matches!(stages[..], [Stage::BodyLimit(1024), Stage::Logger]));
    }
    for operation in [Operation::DeleteOne, Operation::DeleteAll] {
        assert!(operation.is_administrative());
        let stages = standard_chain(&config(), operation);
        match &stages[..] {
            [Stage::BodyLimit(1024), Stage::BearerAuth(secret), Stage::Logger] => {
                assert_eq!(secret, "secret")
            }
            other => panic!("unexpected stages {other:?}"),
        }
    }
}

#[test]
fn handler_replies_in_the_form_of_each_operation() {
    let mut state = AppState::new();
    let ack = handle(&mut state, post("k", "text/plain", b"v")).unwrap();
    assert_eq!(ack.content_type, "text/plain; charset=utf-8");
    assert_eq!(ack.body, b"OK".to_vec());

    let value = handle(&mut state, get("k")).unwrap();
    assert_eq!(value.content_type, "text/plain");
    assert_eq!(value.body, b"v".to_vec());

    let gone = handle(&mut state, delete_one("k", None)).unwrap();
    assert_eq!(gone.content_type, "");
    assert!(gone.body.is_empty());
    assert_eq!(handle(&mut state, get("k")).unwrap_err().kind, ErrorKind::NotFound);
}

#[test]
fn transform_through_the_service_is_a_png() {
    let mut state = AppState::new();
    let mut log = Vec::new();
    let mut bytes = Vec::new();
    image::DynamicImage::ImageRgb8(image::RgbImage::from_pixel(3, 2, image::Rgb([10, 200, 30])))
        .write_to(&mut std::io::Cursor::new(&mut bytes), image::ImageOutputFormat::Png)
        .unwrap();
    serve(&config(), &mut state, post("pic", "image/png", &bytes), &mut log).unwrap();
    let transform = request("GET", "/kv/pic/grayscale", Operation::Transform, "pic");
    let reply = serve(&config(), &mut state, transform, &mut log).unwrap();
    assert_eq!(reply.content_type, "image/png");
    let gray = image::load_from_memory(&reply.body).unwrap().to_luma8();
    // (2126 * 10 + 7152 * 200 + 722 * 30) / 10000 = 147.332
    assert!(gray.pixels().all(|pixel| pixel[0] == 147));
}

#[test]
fn replies_without_a_value() {
    let text = text_reply("héllo".to_string());
    assert_eq!(text.content_type, "text/plain; charset=utf-8");
    assert_eq!(text.body, "héllo".as_bytes().to_vec());
    let empty = empty_reply();
    assert_eq!(empty.content_type, "");
    assert!(empty.body.is_empty());
}

#[test]
fn poisoned_store_fails_the_service() {
    let mut state = AppState::new();
    let mut log = Vec::new();
    serve(&config(), &mut state, post("k", "text/plain", b"v"), &mut log).unwrap();
    state.poison();
    for asked in [
        get("k"),
        get("absent"),
        post("k", "text/plain", b"w"),
        request("GET", "/kv/k/grayscale", Operation::Transform, "k"),
        delete_one("k", Some("Bearer secret")),
        delete_all(Some("Bearer secret")),
    ] {
        let error = serve(&config(), &mut state, asked, &mut log).unwrap_err();
        assert_eq!(error.kind, ErrorKind::LockPoisoned);
        assert_eq!(error.status(), 500);
    }
    // The stages outside the store still answer first.
    assert_eq!(
        serve(&config(), &mut state, delete_all(None), &mut log).unwrap_err().kind,
        ErrorKind::Unauthorized
    );
}

#[test]
fn enter_counts_the_exits_that_are_owed() {
    let stages = vec![
        Stage::Logger,
        Stage::BodyLimit(4),
        Stage::Logger,
        Stage::BearerAuth("secret".to_string()),
        Stage::Logger,
    ];
    let mut log = Vec::new();
    let admitted = Request { body: vec![0; 4], ..delete_all(Some("Bearer secret")) };
    assert_eq!(enter(&stages, &admitted, &mut log).unwrap(), 3);
    assert_eq!(lines(&log), vec!["processing DELETE /admin/kv"; 3]);

    let mut log = Vec::new();
    let unauthorized = Request { body: vec![0; 4], ..delete_all(Some("Bearer wrong")) };
    assert_eq!(enter(&stages, &unauthorized, &mut log).unwrap_err().kind, ErrorKind::Unauthorized);
    assert_eq!(
        lines(&log),
        vec![
            "processing DELETE /admin/kv",
            "processing DELETE /admin/kv",
            "end processing DELETE /admin/kv",
            "end processing DELETE /admin/kv",
        ]
    );

    let mut log = Vec::new();
    let oversized = Request { body: vec![0; 5], ..delete_all(None) };
    assert_eq!(enter(&stages, &oversized, &mut log).unwrap_err().kind, ErrorKind::PayloadTooLarge);
    assert_eq!(
        lines(&log),
        vec!["processing DELETE /admin/kv", "end processing DELETE /admin/kv"]
    );

    let mut log = Vec::new();
    assert_eq!(enter(&Vec::new(), &oversized, &mut log).unwrap(), 0);
    assert!(log.is_empty());
}

#[test]
fn leave_records_the_exits() {
    let mut log = vec![LogEvent::entry(&get("k"))];
    let exit = LogEvent::exit(&get("k"));
    leave(0, &exit, &mut log);
    assert_eq!(log.len(), 1);
    leave(2, &exit, &mut log);
    assert_eq!(
        lines(&log),
        vec!["processing GET /kv/k", "end processing GET /kv/k", "end processing GET /kv/k"]
    );
    let again = exit.duplicate();
    assert_eq!(again.phase, Phase::Exit);
    assert_eq!(again.line(), exit.line());
}

#[test]
fn each_stage_checks_its_own() {
    let small = Request { body: vec![0; 3], ..delete_all(Some("Bearer secret")) };
    assert!(Stage::BodyLimit(3).check(&small).is_ok());
    assert_eq!(Stage::BodyLimit(2).check(&small).unwrap_err().kind, ErrorKind::PayloadTooLarge);
    assert!(Stage::BearerAuth("secret".to_string()).check(&small).is_ok());
    assert_eq!(
        Stage::BearerAuth("other".to_string()).check(&small).unwrap_err().kind,
        ErrorKind::Unauthorized
    );
    assert!(Stage::Logger.check(&small).is_ok());
}
