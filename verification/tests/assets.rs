use orbitalos_backend::assets::asset_reply;
use orbitalos_backend::assets::candidate_for;
use orbitalos_backend::assets::embedded_frontend_handler;
use orbitalos_backend::assets::AssetBundle;
use orbitalos_backend::assets::AssetReply;
use orbitalos_backend::assets::AssetResolver;
use orbitalos_backend::assets::BundledFile;

fn file(path: &str, data: &[u8]) -> BundledFile {
    BundledFile { path: path.to_string(), data: data.to_vec() }
}

fn bundle() -> AssetBundle {
    AssetBundle {
        files: vec![
            file("index.html", b"<html>"),
            file("assets/app.js", b"run()"),
            file("style.css", b"body{}"),
            file("data", b"raw"),
        ],
    }
}

fn content(reply: AssetReply) -> (Vec<u8>, String) {
    match reply {
        AssetReply::Content { body, content_type } => (body, content_type),
        other => panic!("no content: {:?}", other),
    }
}

#[test]
fn candidate_drops_leading_slashes() {
    assert_eq!(candidate_for("/assets/app.js"), "assets/app.js");
    assert_eq!(candidate_for("///style.css"), "style.css");
    assert_eq!(candidate_for("style.css"), "style.css");
    assert_eq!(candidate_for("/a/b/"), "a/b/");
}

#[test]
fn candidate_of_the_root_is_the_index_document() {
    assert_eq!(candidate_for("/"), "index.html");
    assert_eq!(candidate_for(""), "index.html");
    assert_eq!(candidate_for("////"), "index.html");
}

#[test]
fn bundle_get_finds_a_file_by_its_exact_path() {
    let bundle = bundle();
    assert_eq!(bundle.get("style.css"), Some(b"body{}".to_vec()));
    assert_eq!(bundle.get("assets/app.js"), Some(b"run()".to_vec()));
    assert_eq!(bundle.get("Style.css"), None);
    assert_eq!(bundle.get("/style.css"), None);
    assert_eq!(bundle.get(""), None);
}

#[test]
fn bundle_get_takes_the_first_of_two_files_with_one_path() {
    let bundle = AssetBundle { files: vec![file("a", b"first"), file("a", b"second")] };
    assert_eq!(bundle.get("a"), Some(b"first".to_vec()));
}

#[test]
fn bundle_falls_back_to_the_index_document() {
    let bundle = bundle();
    assert_eq!(bundle.get_or_index("missing.png"), Some(b"<html>".to_vec()));
    assert_eq!(bundle.get_or_index("style.css"), Some(b"body{}".to_vec()));
}

#[test]
fn embedded_handler_serves_a_file_with_its_media_type() {
    let (body, content_type) = content(embedded_frontend_handler(&bundle(), "/style.css"));
    assert_eq!(body, b"body{}");
    assert_eq!(content_type, "text/css");
    let (body, content_type) = content(embedded_frontend_handler(&bundle(), "/assets/app.js"));
    assert_eq!(body, b"run()");
    assert_eq!(content_type, "text/javascript");
}

#[test]
fn embedded_handler_serves_the_index_for_the_root() {
    let (body, content_type) = content(embedded_frontend_handler(&bundle(), "/"));
    assert_eq!(body, b"<html>");
    assert_eq!(content_type, "text/html");
}

#[test]
fn embedded_handler_serves_the_index_for_an_unmatched_path() {
    let (body, content_type) = content(embedded_frontend_handler(&bundle(), "/dashboard/7"));
    assert_eq!(body, b"<html>");
    assert_eq!(content_type, "application/octet-stream");
}

#[test]
fn media_type_goes_by_the_requested_path_also_on_fallback() {
    let (body, content_type) = content(embedded_frontend_handler(&bundle(), "/missing.png"));
    assert_eq!(body, b"<html>");
    assert_eq!(content_type, "image/png");
}

#[test]
fn file_without_extension_is_an_octet_stream() {
    let (body, content_type) = content(embedded_frontend_handler(&bundle(), "/data"));
    assert_eq!(body, b"raw");
    assert_eq!(content_type, "application/octet-stream");
}

#[test]
fn embedded_handler_finds_nothing_without_an_index_document() {
    let bare = AssetBundle { files: vec![file("style.css", b"body{}")] };
    assert!(matches!(embedded_frontend_handler(&bare, "/nothing"), AssetReply::NotFound));
    assert!(matches!(embedded_frontend_handler(&bare, "/"), AssetReply::NotFound));
    let empty = AssetBundle { files: vec![] };
    assert!(matches!(embedded_frontend_handler(&empty, "/index.html"), AssetReply::NotFound));
}

#[test]
fn asset_reply_carries_body_and_media_type() {
    let (body, content_type) = content(asset_reply(Some(vec![1, 2, 3]), "image/png".to_string()));
    assert_eq!(body, vec![1, 2, 3]);
    assert_eq!(content_type, "image/png");
    assert!(matches!(asset_reply(None, "image/png".to_string()), AssetReply::NotFound));
}

#[test]
fn directory_takes_precedence_over_the_bundle() {
    let resolver = AssetResolver::at_startup(true, Some(bundle()));
    assert!(matches!(resolver, AssetResolver::Directory));
    assert!(matches!(resolver.resolve("/style.css"), AssetReply::FromDirectory));
    assert!(matches!(resolver.resolve("/no/such/file"), AssetReply::FromDirectory));
    assert!(matches!(AssetResolver::at_startup(true, None), AssetResolver::Directory));
}

#[test]
fn bundle_alone_serves_the_index_for_an_unmatched_path() {
    let resolver = AssetResolver::at_startup(false, Some(bundle()));
    assert!(matches!(resolver, AssetResolver::Embedded(_)));
    let (body, _) = content(resolver.resolve("/no/such/file"));
    assert_eq!(body, b"<html>");
}

#[test]
fn neither_source_finds_nothing() {
    let resolver = AssetResolver::at_startup(false, None);
    assert!(matches!(resolver, AssetResolver::Unavailable));
    assert!(matches!(resolver.resolve("/"), AssetReply::NotFound));
    assert!(matches!(resolver.resolve("/index.html"), AssetReply::NotFound));
}
