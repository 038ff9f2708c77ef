use pony::message::{ETag, Method, Response};
use pony::pony_builder::{ConfigError, PathKind, PonyBuilder};

type Handler = fn(Method) -> Response;

fn res(_method: Method) -> Response {
    Response::plain(Vec::new())
}

fn other(_method: Method) -> Response {
    Response::plain(vec![1])
}

#[test]
#[should_panic]
fn not_found_failed() {
    let mut pb: PonyBuilder<Handler> = PonyBuilder::new();
    pb.use_not_found("/404.html", PathKind::Missing).unwrap();
}

#[test]
#[should_panic]
fn not_found_dir() {
    let mut pb: PonyBuilder<Handler> = PonyBuilder::new();
    pb.use_not_found("/", PathKind::Directory).unwrap();
}

#[test]
fn not_found() {
    let path = "examples/public/index.html";
    let mut pb: PonyBuilder<Handler> = PonyBuilder::new();
    pb.use_not_found(&path, PathKind::File).unwrap();
    assert!(pb.settings().custom_not_found, "pb.custom_not_found was not set to true");
    assert!(pb.settings().not_found_path == path.to_string(), "pb.not_found_path did not match");
}

#[test]
#[should_panic]
fn static_test_failed() {
    let mut pb: PonyBuilder<Handler> = PonyBuilder::new();
    pb.use_static("junk/", PathKind::Missing).unwrap();
}

#[test]
#[should_panic]
fn static_test_file() {
    let mut pb: PonyBuilder<Handler> = PonyBuilder::new();
    pb.use_static("examples/public/index.html", PathKind::File).unwrap();
}

#[test]
fn pony_builder_static_test() {
    let mut pb: PonyBuilder<Handler> = PonyBuilder::new();
    let path = "examples/public/";
    pb.use_static(&path, PathKind::Directory).unwrap();
    assert!(pb.settings().static_enabled, "pb.static_enabled is not set to true");
    assert!(pb.settings().static_path == path, "pb.static_path does not match");
}

#[test]
fn pony_builder_get_test() {
    let mut pb: PonyBuilder<Handler> = PonyBuilder::new();
    pb.get("/get", res);
    assert!(pb.settings().gets.len() == 1, "pb.gets.len() != 1");
    pb.get("/get/2", res);
    assert!(pb.settings().gets.len() == 2, "pb.gets.len() != 2");
}

#[test]
fn pony_builder_post_test() {
    let mut pb: PonyBuilder<Handler> = PonyBuilder::new();
    pb.post("/post", res);
    assert!(pb.settings().posts.len() == 1, "pb.posts.len() != 1");
    pb.post("/post/2", res);
    assert!(pb.settings().posts.len() == 2, "pb.posts.len() != 2");
}

#[test]
fn pony_builder_put_test() {
    let mut pb: PonyBuilder<Handler> = PonyBuilder::new();
    pb.put("/put", res);
    assert!(pb.settings().puts.len() == 1, "pb.puts.len() != 1");
    pb.put("/put/2", res);
    assert!(pb.settings().puts.len() == 2, "pb.puts.len() != 2");
}

#[test]
fn pony_builder_delete_test() {
    let mut pb: PonyBuilder<Handler> = PonyBuilder::new();
    pb.delete("/delete", res);
    assert!(pb.settings().deletes.len() == 1, "pb.deletes.len() != 1");
    pb.delete("/delete/2", res);
    assert!(pb.settings().deletes.len() == 2, "pb.deletes.len() != 2");
}

#[test]
fn custom_extensions() {
    let mut pb: PonyBuilder<Handler> = PonyBuilder::new();
    let exts = ["html", "htm", "js", "css"];
    pb.set_know_extensions(&exts);
    assert!(
        pb.settings().known_extensions.len() == exts.len(),
        "Extention list/set length does not match"
    );
}

#[test]
fn add_ext() {
    let mut pb: PonyBuilder<Handler> = PonyBuilder::new();
    pb.add_known_extension(&["exe"]);
    assert!(pb.settings().known_extensions.contains("exe"));
}

#[test]
fn remove_ext() {
    let mut pb: PonyBuilder<Handler> = PonyBuilder::new();
    pb.remove_known_extension(&["html"]);
    assert!(!pb.settings().known_extensions.contains("html"));
}

#[test]
fn chain_test() {
    let mut pb: PonyBuilder<Handler> = PonyBuilder::new();
    pb.use_static("examples/public/", PathKind::Directory)
        .unwrap()
        .use_not_found("examples/public/index.html", PathKind::File)
        .unwrap()
        .get("/get", res)
        .post("/post", res)
        .put("/put", res)
        .delete("/delete", res);
    let s = pb.settings();
    assert!(s.static_enabled);
    assert!(s.custom_not_found);
    assert_eq!(s.gets.len(), 1);
    assert_eq!(s.posts.len(), 1);
    assert_eq!(s.puts.len(), 1);
    assert_eq!(s.deletes.len(), 1);
}

#[test]
fn new_builder_has_nothing_switched_on() {
    let pb: PonyBuilder<Handler> = PonyBuilder::new();
    let s = pb.settings();
    assert_eq!(s.gets.len(), 0);
    assert_eq!(s.posts.len(), 0);
    assert_eq!(s.puts.len(), 0);
    assert_eq!(s.deletes.len(), 0);
    assert_eq!(s.static_path, "");
    assert!(!s.static_enabled);
    assert_eq!(s.not_found_path, "");
    assert!(!s.custom_not_found);
    assert!(!s.static_logging);
    assert!(!s.use_gzip);
    assert_eq!(s.etag, ETag::Off);
    assert_eq!(s.known_extensions.len(), 14);
    for ext in [
        "html", "js", "css", "ico", "jpg", "png", "woff2", "ttf", "txt", "xml", "rss", "svg",
        "gif", "map",
    ] {
        assert!(s.known_extensions.contains(ext), "{}", ext);
    }
}

#[test]
fn repeated_registration_keeps_one_entry() {
    let mut pb: PonyBuilder<Handler> = PonyBuilder::new();
    pb.get("/get", res).get("/get", res).get("/get", res);
    assert_eq!(pb.settings().gets.len(), 1);
    let h = *pb.settings().gets.lookup("/get").unwrap();
    assert!(h(Method::Get).body.is_empty());
}

#[test]
fn later_registration_overwrites() {
    let mut pb: PonyBuilder<Handler> = PonyBuilder::new();
    pb.get("/a", res).get("/b", res).get("/a", other);
    assert_eq!(pb.settings().gets.len(), 2);
    let a = *pb.settings().gets.lookup("/a").unwrap();
    let b = *pb.settings().gets.lookup("/b").unwrap();
    assert_eq!(a(Method::Get).body, vec![1]);
    assert!(b(Method::Get).body.is_empty());
    assert!(pb.settings().posts.lookup("/a").is_none());
}

#[test]
fn use_static_errors() {
    let mut pb: PonyBuilder<Handler> = PonyBuilder::new();
    assert_eq!(
        pb.use_static("junk/", PathKind::Missing).err(),
        Some(ConfigError::StaticPathMissing)
    );
    assert_eq!(
        pb.use_static("examples/public/index.html", PathKind::File).err(),
        Some(ConfigError::StaticPathNotDirectory)
    );
    assert_eq!(
        pb.use_static("/dev/null", PathKind::Special).err(),
        Some(ConfigError::StaticPathNotDirectory)
    );
    assert!(!pb.settings().static_enabled);
    assert_eq!(pb.settings().static_path, "");
}

#[test]
fn use_not_found_errors() {
    let mut pb: PonyBuilder<Handler> = PonyBuilder::new();
    assert_eq!(
        pb.use_not_found("/404.html", PathKind::Missing).err(),
        Some(ConfigError::NotFoundPathMissing)
    );
    assert_eq!(
        pb.use_not_found("/", PathKind::Directory).err(),
        Some(ConfigError::NotFoundPathIsDirectory)
    );
    assert_eq!(
        pb.use_not_found("/dev/null", PathKind::Special).err(),
        Some(ConfigError::NotFoundPathNotFile)
    );
    assert!(!pb.settings().custom_not_found);
    assert_eq!(pb.settings().not_found_path, "");
}

#[test]
fn refused_setting_keeps_the_earlier_one() {
    let mut pb: PonyBuilder<Handler> = PonyBuilder::new();
    pb.use_static("www", PathKind::Directory).unwrap();
    assert!(pb.use_static("other", PathKind::Missing).is_err());
    assert!(pb.settings().static_enabled);
    assert_eq!(pb.settings().static_path, "www");
}

#[test]
fn error_messages() {
    assert_eq!(ConfigError::StaticPathMissing.message(), "Static path does not exist");
    assert_eq!(ConfigError::StaticPathNotDirectory.message(), "Static path must be a directory");
    assert_eq!(ConfigError::NotFoundPathMissing.message(), "Not found path does not exist");
    assert_eq!(ConfigError::NotFoundPathIsDirectory.message(), "Not found path is a directory");
    assert_eq!(ConfigError::NotFoundPathNotFile.message(), "Not found path must be a file");
}

#[test]
fn flags_are_switched_on() {
    let mut pb: PonyBuilder<Handler> = PonyBuilder::new();
    pb.use_static_logging().use_static_gzip().use_etag(ETag::Weak);
    let p = pb.done();
    assert!(p.static_logging);
    assert!(p.use_gzip);
    assert_eq!(p.etag, ETag::Weak);
    assert!(!p.static_enabled);
}

#[test]
fn done_copies_every_setting() {
    let mut pb: PonyBuilder<Handler> = PonyBuilder::new();
    pb.get("/g", res).post("/p", res).post("/q", res).put("/u", res).delete("/d", res);
    pb.use_static("www/", PathKind::Directory).unwrap();
    pb.use_not_found("www/404.html", PathKind::File).unwrap();
    pb.set_know_extensions(&["html", "htm"]);
    let p = pb.done();
    assert_eq!(p.gets.len(), 1);
    assert_eq!(p.posts.len(), 2);
    assert_eq!(p.puts.len(), 1);
    assert_eq!(p.deletes.len(), 1);
    assert_eq!(p.static_path, "www/");
    assert!(p.static_enabled);
    assert_eq!(p.not_found_path, "www/404.html");
    assert!(p.custom_not_found);
    assert_eq!(p.known_extensions.len(), 2);
    assert!(p.known_extensions.contains("htm"));
    assert!(!p.known_extensions.contains("js"));
}

#[test]
fn extension_lists_with_repeats() {
    let mut pb: PonyBuilder<Handler> = PonyBuilder::new();
    pb.set_know_extensions(&["a", "b", "a"]);
    assert_eq!(pb.settings().known_extensions.len(), 2);
    pb.add_known_extension(&["b", "c", "c"]);
    assert_eq!(pb.settings().known_extensions.len(), 3);
    pb.remove_known_extension(&["a", "zzz", "a"]);
    assert_eq!(pb.settings().known_extensions.len(), 2);
    assert!(!pb.settings().known_extensions.contains("a"));
    pb.set_know_extensions(&[]);
    assert_eq!(pb.settings().known_extensions.len(), 0);
}
