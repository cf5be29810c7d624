use sym_rest_rc::auth::AuthHeaders;
use sym_rest_rc::clock::Timestamp;
use sym_rest_rc::config::{select_config_path, Candidate, Config, ConfigError};
use sym_rest_rc::crypto::SigningError;
use sym_rest_rc::rest::{
    check_response, rest_request, rest_request_at, HttpMethod, RestFailure, RestOperation,
};

const SECRET: &str = "c2VjcmV0";

fn fixed_time() -> Timestamp {
    Timestamp { date_time: String::from("2024-01-02 03:04:05"), nanos: 678 }
}

fn config() -> Config {
    Config {
        host: String::from("example.org"),
        port: 8080,
        user: String::from("c1"),
        secretkey: String::from(SECRET),
        use_ws_for_learn: true,
        use_ws_for_predit: false,
    }
}

fn s(text: &str) -> String {
    text.to_string()
}

fn pairs(items: &[(&str, &str)]) -> Vec<(String, String)> {
    items.iter().map(|(k, v)| (k.to_string(), v.to_string())).collect()
}

#[test]
fn method_names() {
    assert_eq!(HttpMethod::Get.name(), "GET");
    assert_eq!(HttpMethod::Post.name(), "POST");
    assert_eq!(HttpMethod::Delete.name(), "DELETE");
}

#[test]
fn operations_have_their_methods() {
    let post = [
        RestOperation::CreateProject { name: s("p"), project_type: s("cpu"), enable_histogram: false },
        RestOperation::Learn { project: s("p") },
        RestOperation::Build { project: s("p"), model_type: s("t"), model_name: s("m") },
        RestOperation::AutoSelect { project: s("p"), task: s("t"), model_name: s("m") },
        RestOperation::Predict { project: s("p"), model: s("m") },
    ];
    for operation in post {
        assert_eq!(operation.method(), HttpMethod::Post);
    }
    assert_eq!(RestOperation::ProjectInfo { project: s("p") }.method(), HttpMethod::Get);
    assert_eq!(RestOperation::Job { id: s("j") }.method(), HttpMethod::Get);
    assert_eq!(RestOperation::DeleteProject { name: s("p") }.method(), HttpMethod::Delete);
    assert_eq!(
        RestOperation::DeleteModel { project: s("p"), model: s("m") }.method(),
        HttpMethod::Delete
    );
}

#[test]
fn operations_have_their_resources() {
    let user = "c1";
    assert_eq!(
        RestOperation::CreateProject { name: s("p"), project_type: s("cpu"), enable_histogram: true }
            .resource(user),
        "/symetry/rest/c1/projects"
    );
    assert_eq!(RestOperation::DeleteProject { name: s("p") }.resource(user), "/symetry/rest/c1/projects/p");
    assert_eq!(
        RestOperation::ProjectInfo { project: s("p") }.resource(user),
        "/symetry/rest/c1/projects/p/info"
    );
    assert_eq!(RestOperation::Learn { project: s("p") }.resource(user), "/symetry/rest/c1/projects/p/learn");
    assert_eq!(
        RestOperation::Build { project: s("p"), model_type: s("t"), model_name: s("m") }.resource(user),
        "/symetry/rest/c1/projects/p/build"
    );
    assert_eq!(
        RestOperation::AutoSelect { project: s("p"), task: s("t"), model_name: s("m") }.resource(user),
        "/symetry/rest/c1/projects/p/autoSelect"
    );
    assert_eq!(
        RestOperation::Predict { project: s("p"), model: s("m") }.resource(user),
        "/symetry/rest/c1/projects/p/predict/m"
    );
    assert_eq!(
        RestOperation::DeleteModel { project: s("p"), model: s("m") }.resource(user),
        "/symetry/rest/c1/projects/p/models/m"
    );
    assert_eq!(RestOperation::Job { id: s("42") }.resource(user), "/symetry/rest/c1/jobs/42");
}

#[test]
fn operations_have_their_queries() {
    assert_eq!(
        RestOperation::CreateProject { name: s("test"), project_type: s("cpu"), enable_histogram: false }
            .query(),
        Some(s("pid=test&persist=true&type=cpu&enableHistogram=false"))
    );
    assert_eq!(
        RestOperation::CreateProject { name: s("test"), project_type: s("gpu"), enable_histogram: true }
            .query(),
        Some(s("pid=test&persist=true&type=gpu&enableHistogram=true"))
    );
    assert_eq!(
        RestOperation::Build { project: s("p"), model_type: s("lda"), model_name: s("m1") }.query(),
        Some(s("algo=lda&modelid=m1"))
    );
    assert_eq!(
        RestOperation::AutoSelect { project: s("p"), task: s("classify"), model_name: s("m1") }.query(),
        Some(s("task=classify&modelid=m1"))
    );
    assert_eq!(RestOperation::Learn { project: s("p") }.query(), None);
    assert_eq!(RestOperation::Predict { project: s("p"), model: s("m") }.query(), None);
    assert_eq!(RestOperation::Job { id: s("1") }.query(), None);
    assert_eq!(RestOperation::ProjectInfo { project: s("p") }.query(), None);
    assert_eq!(RestOperation::DeleteProject { name: s("p") }.query(), None);
    assert_eq!(RestOperation::DeleteModel { project: s("p"), model: s("m") }.query(), None);
}

#[test]
fn request_without_body() {
    let operation = RestOperation::ProjectInfo { project: s("p") };
    let request = rest_request_at(&config(), SECRET, &operation, None, &fixed_time()).unwrap();
    let auth = AuthHeaders::generate_at(
        "GET",
        "/symetry/rest/c1/projects/p/info",
        None,
        None,
        "c1",
        SECRET,
        &fixed_time(),
    )
    .unwrap();
    assert_eq!(request.method, HttpMethod::Get);
    assert_eq!(request.url, "http://example.org:8080/symetry/rest/c1/projects/p/info");
    assert_eq!(request.body, None);
    assert_eq!(
        request.headers,
        pairs(&[
            ("Content-MD5", ""),
            ("Sym-date", "2024-01-02 03:04:05;678"),
            ("Customer-ID", "c1"),
            ("Authorization", auth.authorization.as_str()),
            ("sym-version", "6.3"),
        ])
    );
}

#[test]
fn request_with_body_and_query() {
    let operation =
        RestOperation::Build { project: s("p"), model_type: s("lda"), model_name: s("m1") };
    let request =
        rest_request_at(&config(), SECRET, &operation, Some(s("{}")), &fixed_time()).unwrap();
    let auth = AuthHeaders::generate_at(
        "POST",
        "/symetry/rest/c1/projects/p/build",
        Some("algo=lda&modelid=m1"),
        Some("{}"),
        "c1",
        SECRET,
        &fixed_time(),
    )
    .unwrap();
    assert_eq!(request.method, HttpMethod::Post);
    assert_eq!(
        request.url,
        "http://example.org:8080/symetry/rest/c1/projects/p/build?algo=lda&modelid=m1"
    );
    assert_eq!(request.body, Some(s("{}")));
    assert_eq!(
        request.headers,
        pairs(&[
            ("Content-MD5", "mZFLkyvTelC5g8XnyQrpOw=="),
            ("Sym-date", "2024-01-02 03:04:05;678"),
            ("Customer-ID", "c1"),
            ("Authorization", auth.authorization.as_str()),
            ("sym-version", "6.3"),
            ("Content-Type", "application/json"),
        ])
    );
}

#[test]
fn request_now_carries_a_date_and_its_signature() {
    let operation = RestOperation::Job { id: s("7") };
    let request = rest_request(&config(), SECRET, &operation, None).unwrap();
    assert_eq!(request.url, "http://example.org:8080/symetry/rest/c1/jobs/7");
    assert_eq!(request.headers.len(), 5);
    let date = request.headers[1].1.clone();
    let (seconds, nanos) = date.split_once(';').unwrap();
    let again = rest_request_at(
        &config(),
        SECRET,
        &operation,
        None,
        &Timestamp { date_time: seconds.to_string(), nanos: nanos.parse().unwrap() },
    )
    .unwrap();
    assert_eq!(again.headers, request.headers);
}

#[test]
fn request_with_bad_secret_is_not_prepared() {
    let operation = RestOperation::Job { id: s("7") };
    let r = rest_request(&config(), "not-base64!!", &operation, None);
    assert_eq!(r.err(), Some(SigningError::InvalidSecretKeyEncoding));
    let r = rest_request_at(&config(), "", &operation, Some(s("{}")), &fixed_time());
    assert_eq!(r.err(), Some(SigningError::InvalidSecretKeyLength));
}

#[test]
fn status_500_with_text_is_a_failure_that_carries_both() {
    let failure: RestFailure = check_response(500, s("boom")).unwrap_err();
    assert_eq!(failure.status, 500);
    assert_eq!(failure.text, "boom");
    assert_eq!(failure.message(), "Request failed with status: 500");
}

#[test]
fn success_is_any_status_from_200_to_299() {
    assert_eq!(check_response(200, s("ok")).unwrap(), "ok");
    assert_eq!(check_response(204, s("")).unwrap(), "");
    assert_eq!(check_response(299, s("x")).unwrap(), "x");
    assert_eq!(check_response(199, s("x")).unwrap_err().status, 199);
    assert_eq!(check_response(300, s("x")).unwrap_err().status, 300);
    assert_eq!(check_response(404, s("no")).unwrap_err().text, "no");
    assert_eq!(check_response(0, s("x")).unwrap_err().status, 0);
    assert_eq!(check_response(65535, s("x")).unwrap_err().status, 65535);
}

#[test]
fn config_getters() {
    let c = config();
    assert_eq!(c.host(), "example.org");
    assert_eq!(c.port(), 8080);
    assert_eq!(c.user(), "c1");
    assert!(c.use_ws_for_learn());
    assert!(!c.use_ws_for_predit());
}

#[test]
fn secret_key_from_outside_comes_first() {
    let c = config();
    assert_eq!(c.secretkey(None), SECRET);
    assert_eq!(c.secretkey(Some(s("b3RoZXI="))), "b3RoZXI=");
}

#[test]
fn config_path_precedence() {
    let candidates = vec![
        Candidate { path: s("./rc.conf"), exists: false },
        Candidate { path: s("/home/u/.config/sym-rest-rc/config.toml"), exists: true },
        Candidate { path: s("/home/u/.sym-rest-rc/config.toml"), exists: true },
    ];
    assert_eq!(select_config_path(Some(s("flag")), Some(s("env")), &candidates).unwrap(), "flag");
    assert_eq!(select_config_path(None, Some(s("env")), &candidates).unwrap(), "env");
    assert_eq!(
        select_config_path(None, None, &candidates).unwrap(),
        "/home/u/.config/sym-rest-rc/config.toml"
    );
}

#[test]
fn config_not_found_lists_the_defaults() {
    let candidates = vec![
        Candidate { path: s("./rc.conf"), exists: false },
        Candidate { path: s("/h/.config/sym-rest-rc/config.toml"), exists: false },
    ];
    let e = select_config_path(None, None, &candidates).unwrap_err();
    assert!(matches!(e, ConfigError::NotFound(_)));
    assert_eq!(
        e.message(),
        "No configuration file found. Tried:\n  - --config flag\n  - SML_CONFIG_FILE environment variable\n  - Default locations: ./rc.conf, /h/.config/sym-rest-rc/config.toml"
    );
    let e = select_config_path(None, None, &Vec::new()).unwrap_err();
    assert_eq!(
        e.message(),
        "No configuration file found. Tried:\n  - --config flag\n  - SML_CONFIG_FILE environment variable\n  - Default locations: "
    );
}

#[test]
fn config_error_messages() {
    assert_eq!(ConfigError::ReadError(s("denied")).message(), "Failed to read config file: denied");
    assert_eq!(ConfigError::ParseError(s("line 1")).message(), "Failed to parse config: line 1");
    assert_eq!(ConfigError::AlreadyInitialized.message(), "Config already initialized");
    assert_eq!(ConfigError::NotFound(s("nowhere")).message(), "nowhere");
}
