use microservice_rust_workshop::kv_store::kv_error::ErrorKind;
use microservice_rust_workshop::log::Verbosity;
use microservice_rust_workshop::request::Operation;
use microservice_rust_workshop::request::Request;
use microservice_rust_workshop::service::Config;
use microservice_rust_workshop::service::serve;
use microservice_rust_workshop::state::AppState;

fn asked(method: &str, target: &str, operation: Operation, key: &str) -> Request {
    Request {
        method: method.to_string(),
        target: target.to_string(),
        operation,
        key: key.to_string(),
        content_type: String::new(),
        authorization: None,
        body: Vec::new(),
    }
}

#[test]
fn write_read_refused_delete_then_delete() {
    let config = Config {
        max_body_size: 2 * 1024 * 1024,
        admin_secret: "secret".to_string(),
        verbosity: Verbosity::All,
    };
    let mut state = AppState::new();
    let mut log = Vec::new();

    let write = Request {
        content_type: "text/plain".to_string(),
        body: b"Hello World".to_vec(),
        ..asked("POST", "/kv/test", Operation::Write, "test")
    };
    let reply = serve(&config, &mut state, write, &mut log).unwrap();
    assert_eq!(reply.body, b"OK".to_vec());

    let reply =
        serve(&config, &mut state, asked("GET", "/kv/test", Operation::Read, "test"), &mut log)
            .unwrap();
    assert_eq!(reply.body, b"Hello World".to_vec());

    let refused =
        serve(&config, &mut state, asked("DELETE", "/admin/kv", Operation::DeleteAll, ""), &mut log)
            .unwrap_err();
    assert_eq!(refused.kind, ErrorKind::Unauthorized);
    assert_eq!(refused.status(), 401);

    let reply =
        serve(&config, &mut state, asked("GET", "/kv/test", Operation::Read, "test"), &mut log)
            .unwrap();
    assert_eq!(reply.body, b"Hello World".to_vec());

    let delete = Request {
        authorization: Some("Bearer secret".to_string()),
        ..asked("DELETE", "/admin/kv", Operation::DeleteAll, "")
    };
    assert!(serve(&config, &mut state, delete, &mut log).is_ok());

    let gone =
        serve(&config, &mut state, asked("GET", "/kv/test", Operation::Read, "test"), &mut log)
            .unwrap_err();
    assert_eq!(gone.kind, ErrorKind::NotFound);
    assert_eq!(gone.status(), 404);
}
