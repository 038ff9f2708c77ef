use pony::message::{Method, Response};
use pony::pony::Step;
use pony::pony_builder::{PathKind, PonyBuilder};

type Handler = fn(Method) -> Response;

/// The file that a GET for `path` asks for first, under the base `w`.
fn asked_for(path: &str) -> Option<String> {
    let mut pb: PonyBuilder<Handler> = PonyBuilder::new();
    pb.use_static("w", PathKind::Directory).unwrap();
    pb.set_know_extensions(&["txt"]);
    match pb.done().call(Method::Get, path) {
        Step::Read { file, .. } => Some(file),
        _ => None,
    }
}

#[test]
fn plain_path_is_unchanged() {
    assert_eq!(asked_for("/a-b_c.txt"), Some("w/a-b_c.txt".to_string()));
}

#[test]
fn escapes_are_replaced() {
    assert_eq!(asked_for("/a%20b.txt"), Some("w/a b.txt".to_string()));
    assert_eq!(asked_for("/%41%42.txt"), Some("w/AB.txt".to_string()));
    assert_eq!(asked_for("/x%2Etxt"), Some("w/x.txt".to_string()));
    assert_eq!(asked_for("/x%2etxt"), Some("w/x.txt".to_string()));
    assert_eq!(asked_for("/a%2Fb.txt"), Some("w/a/b.txt".to_string()));
}

#[test]
fn percent_without_two_hex_digits_stays() {
    assert_eq!(asked_for("/a%zz.txt"), Some("w/a%zz.txt".to_string()));
    assert_eq!(asked_for("/a%4.txt"), Some("w/a%4.txt".to_string()));
    assert_eq!(asked_for("/a.txt%"), Some("w/a.txt%/index.html".to_string()));
    assert_eq!(asked_for("/a.txt%4"), Some("w/a.txt%4/index.html".to_string()));
    assert_eq!(asked_for("/%%41.txt"), Some("w/%A.txt".to_string()));
    assert_eq!(asked_for("/%4g.txt"), Some("w/%4g.txt".to_string()));
}

#[test]
fn decoding_is_one_pass() {
    assert_eq!(asked_for("/%2541.txt"), Some("w/%41.txt".to_string()));
}

#[test]
fn decoded_bytes_must_be_utf8() {
    assert_eq!(asked_for("/%ff.txt"), None);
    assert_eq!(asked_for("/%c3.txt"), None);
    assert_eq!(asked_for("/%c3%a9.txt"), Some("w/\u{e9}.txt".to_string()));
    assert_eq!(asked_for("/%e2%82%ac.txt"), Some("w/\u{20ac}.txt".to_string()));
    assert_eq!(asked_for("/\u{e9}.txt"), Some("w/\u{e9}.txt".to_string()));
}

#[test]
fn decoded_slash_and_dot_take_part_in_the_rewrite() {
    assert_eq!(asked_for("/dir%2F"), Some("w/dir/index.html".to_string()));
    assert_eq!(asked_for("%2Fa.txt"), Some("w/a.txt".to_string()));
}
