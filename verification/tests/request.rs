use bussard::environ::{add_per_request_environ, EnvEntry, EnvValue, EnvVar};
use bussard::header::HeaderField;
use bussard::request::BussardRequest;

fn request(path: &str, method: &str, body: &[u8]) -> BussardRequest {
    BussardRequest::new(path.to_owned(), Vec::new(), method.to_owned(), body.to_vec())
}

#[test]
fn new_request_starts_at_the_beginning() {
    let headers = vec![HeaderField { name: b"host".to_vec(), value: b"example".to_vec() }];
    let req = BussardRequest::new("/p".to_owned(), headers.clone(), "GET".to_owned(), vec![1, 2]);
    assert_eq!(req.path(), "/p");
    assert_eq!(req.method(), "GET");
    assert_eq!(req.header_map(), &headers);
    assert_eq!(req.body(), &vec![1, 2]);
    assert_eq!(req.position(), 0);
}

#[test]
fn read_without_size_takes_all_that_remains() {
    let mut req = request("", "POST", b"hello world");
    assert_eq!(req.read(None), b"hello world");
    assert_eq!(req.position(), 11);
    assert_eq!(req.read(None), b"");
    assert_eq!(req.position(), 11);
}

#[test]
fn read_with_size_takes_the_smaller_of_size_and_remainder() {
    let mut req = request("", "POST", b"hello world");
    assert_eq!(req.read(Some(5)), b"hello");
    assert_eq!(req.position(), 5);
    assert_eq!(req.read(Some(0)), b"");
    assert_eq!(req.position(), 5);
    assert_eq!(req.read(Some(1)), b" ");
    assert_eq!(req.read(Some(100)), b"world");
    assert_eq!(req.position(), 11);
    assert_eq!(req.read(Some(3)), b"");
    assert_eq!(req.read(Some(usize::MAX)), b"");
    assert_eq!(req.body(), b"hello world");
}

#[test]
fn read_of_an_empty_body_is_empty() {
    let mut req = request("", "GET", b"");
    assert_eq!(req.read(None), b"");
    assert_eq!(req.read(Some(10)), b"");
    assert_eq!(req.readline(None), b"");
    assert_eq!(req.position(), 0);
}

#[test]
fn readline_stops_after_the_newline() {
    let mut req = request("", "POST", b"one\ntwo\n\nlast");
    assert_eq!(req.readline(None), b"one\n");
    assert_eq!(req.position(), 4);
    assert_eq!(req.readline(None), b"two\n");
    assert_eq!(req.readline(None), b"\n");
    assert_eq!(req.readline(None), b"last");
    assert_eq!(req.readline(None), b"");
    assert_eq!(req.position(), 13);
}

#[test]
fn readline_is_limited_by_size() {
    let mut req = request("", "POST", b"abcdef\nxyz");
    assert_eq!(req.readline(Some(4)), b"abcd");
    assert_eq!(req.readline(Some(0)), b"");
    assert_eq!(req.readline(Some(3)), b"ef\n");
    assert_eq!(req.readline(Some(100)), b"xyz");
    assert_eq!(req.readline(Some(1)), b"");
}

#[test]
fn read_and_readline_share_the_cursor() {
    let mut req = request("", "POST", b"ab\ncd\nef");
    assert_eq!(req.read(Some(1)), b"a");
    assert_eq!(req.readline(None), b"b\n");
    assert_eq!(req.read(Some(3)), b"cd\n");
    assert_eq!(req.readline(None), b"ef");
}

fn keys(environ: &[EnvEntry]) -> Vec<&str> {
    environ.iter().map(|e| e.key.as_str()).collect()
}

#[test]
fn environment_of_a_request() {
    let req = request("/echo", "POST", b"ping");
    let environ = add_per_request_environ(req, &Vec::new());
    assert_eq!(
        keys(&environ),
        vec![
            "wsgi.url_scheme",
            "HTTP_HOST",
            "REQUEST_METHOD",
            "PATH_INFO",
            "CONTENT_LENGTH",
            "wsgi.input",
            "wsgi.version",
            "wsgi.run_once",
        ]
    );
    assert!(matches!(&environ[0].value, EnvValue::Text(t) if t == "http"));
    assert!(matches!(&environ[1].value, EnvValue::Text(t) if t == "localhost"));
    assert!(matches!(&environ[2].value, EnvValue::Text(t) if t == "POST"));
    assert!(matches!(&environ[3].value, EnvValue::Text(t) if t == "/echo"));
    assert!(matches!(&environ[4].value, EnvValue::Length(4)));
    assert!(matches!(&environ[6].value, EnvValue::Version(1, 0)));
    assert!(matches!(&environ[7].value, EnvValue::Flag(false)));
    match environ.into_iter().nth(5).unwrap().value {
        EnvValue::Input(mut input) => {
            assert_eq!(input.position(), 0);
            assert_eq!(input.read(Some(2)), b"pi");
            assert_eq!(input.read(None), b"ng");
        }
        other => panic!("{:?}", other),
    }
}

#[test]
fn empty_path_leaves_path_info_out() {
    let environ = add_per_request_environ(request("", "GET", b""), &Vec::new());
    assert_eq!(
        keys(&environ),
        vec![
            "wsgi.url_scheme",
            "HTTP_HOST",
            "REQUEST_METHOD",
            "CONTENT_LENGTH",
            "wsgi.input",
            "wsgi.version",
            "wsgi.run_once",
        ]
    );
    assert!(matches!(&environ[3].value, EnvValue::Length(0)));
}

#[test]
fn inherited_variables_come_first() {
    let inherited = vec![
        EnvVar { name: "PATH".to_owned(), value: "/bin".to_owned() },
        EnvVar { name: "HTTP_HOST".to_owned(), value: "elsewhere".to_owned() },
    ];
    let environ = add_per_request_environ(request("/", "GET", b""), &inherited);
    assert_eq!(environ.len(), 10);
    assert_eq!(environ[0].key, "PATH");
    assert!(matches!(&environ[0].value, EnvValue::Text(t) if t == "/bin"));
    assert_eq!(environ[1].key, "HTTP_HOST");
    assert!(matches!(&environ[1].value, EnvValue::Text(t) if t == "elsewhere"));
    assert_eq!(environ[2].key, "wsgi.url_scheme");
    let last_host = environ.iter().rev().find(|e| e.key == "HTTP_HOST").unwrap();
    assert!(matches!(&last_host.value, EnvValue::Text(t) if t == "localhost"));
}

#[test]
fn content_length_is_that_of_the_whole_body() {
    let mut req = request("/", "POST", b"0123456789");
    req.read(Some(4));
    let environ = add_per_request_environ(req, &Vec::new());
    assert!(matches!(&environ[4].value, EnvValue::Length(10)));
    match &environ[5].value {
        EnvValue::Input(input) => assert_eq!(input.position(), 4),
        other => panic!("{:?}", other),
    }
}
