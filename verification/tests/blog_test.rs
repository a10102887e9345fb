use blog::config::Config;
use blog::controllers::index;
use blog::page::index::Index;
use blog::page::root_html;
use blog::router::{
    content_type_for, respond_asset, respond_not_found, respond_page, router_service, Dispatch,
    ResponseBody,
};

#[test]
fn test_root_html_returns_html_root() {
    let html = root_html("", "");

    assert_eq!(
        html,
        "<!DOCTYPE html>\n<html lang=\"en\">\n\n<head>\n  <title></title>\n  <meta charset=\"UTF-8\">\n  <meta name=\"viewport\" content=\"width=device-width, initial-scale=1\">\n  <link href=\"/assets/css/style.css\" rel=\"stylesheet\">\n</head>\n\n<body>\n  \n</body>\n\n</html>"
    );
}

#[test]
fn test_index_contains_one_article() {
    let index_output = Index();

    assert_eq!(index_output.matches("<article").count(), 1);
}

#[test]
fn test_index_article_is_styled_with_prose() {
    let index_output = Index();

    assert!(index_output.starts_with("<article class=\"prose\">"));
}

#[test]
fn test_index() {
    let raw_html = index();

    let after_open = raw_html.split_once("<title>").unwrap().1;
    let title_inner = after_open.split_once("</title>").unwrap().0;

    assert_eq!("Lachlan's Blog", title_inner);
}

#[test]
fn render_embeds_title_verbatim_without_escaping() {
    let title = "a <b> & \"quoted\"";
    let html = root_html("", title);

    assert_eq!(html.matches("<title>").count(), 1);
    let inner = html.split_once("<title>").unwrap().1.split_once("</title>").unwrap().0;
    assert_eq!(inner, title);
}

#[test]
fn render_embeds_empty_title() {
    let html = root_html("b", "");

    assert_eq!(html.matches("<title>").count(), 1);
    assert!(html.contains("<title></title>"));
}

#[test]
fn render_embeds_body_verbatim() {
    let body = "<article>raw & unescaped <\" body</article>";
    let html = root_html(body, "t");

    let region = html.split_once("<body>\n  ").unwrap().1.split_once("\n</body>").unwrap().0;
    assert_eq!(region, body);
}

#[test]
fn render_is_pure() {
    assert_eq!(root_html("b", "t"), root_html("b", "t"));
    assert_eq!(root_html("", ""), root_html("", ""));
}

#[test]
fn page_route_serves_html_document_with_fixed_skeleton() {
    let router = router_service();

    let response = match router.dispatch("/") {
        Dispatch::Page => respond_page(),
        _ => panic!("GET / must dispatch to the page route"),
    };

    assert_eq!(response.status, 200);
    assert_eq!(response.content_type.as_deref(), Some("text/html; charset=utf-8"));

    let body = match response.body {
        ResponseBody::Text(t) => t,
        _ => panic!("the page response must be an HTML document"),
    };
    let (head, rest) = body.split_once("<body>").unwrap();
    let (_, tail) = rest.split_once("</body>").unwrap();

    assert_eq!(
        head,
        "<!DOCTYPE html>\n<html lang=\"en\">\n\n<head>\n  <title>Lachlan's Blog</title>\n  <meta charset=\"UTF-8\">\n  <meta name=\"viewport\" content=\"width=device-width, initial-scale=1\">\n  <link href=\"/assets/css/style.css\" rel=\"stylesheet\">\n</head>\n\n"
    );
    assert_eq!(tail, "\n\n</html>");
}

#[test]
fn asset_route_serves_file_bytes_verbatim() {
    let router = router_service();
    let bytes = vec![1u8, 2, 3, 0, 255];

    match router.dispatch("/assets/css/style.css") {
        Dispatch::Asset { rel } => {
            assert_eq!(rel, "css/style.css");
            let response = respond_asset(&rel, Some(bytes.clone()));
            assert_eq!(response.status, 200);
            assert_eq!(response.content_type.as_deref(), Some("text/css"));
            match response.body {
                ResponseBody::Bytes(b) => assert_eq!(b, bytes),
                _ => panic!("an asset response must carry the file bytes"),
            }
        }
        _ => panic!("paths under /assets/ must dispatch to the asset route"),
    }
}

#[test]
fn missing_asset_returns_404() {
    let router = router_service();

    match router.dispatch("/assets/does-not-exist") {
        Dispatch::Asset { rel } => {
            assert_eq!(rel, "does-not-exist");
            let response = respond_asset(&rel, None);
            assert_eq!(response.status, 404);
            assert!(response.content_type.is_none());
            assert!(matches!(response.body, ResponseBody::Empty));
        }
        _ => panic!("paths under /assets/ must dispatch to the asset route"),
    }
}

#[test]
fn unknown_paths_dispatch_to_not_found() {
    let router = router_service();

    assert!(matches!(router.dispatch("/nope"), Dispatch::NotFound));
    assert!(matches!(router.dispatch("/assets"), Dispatch::NotFound));
    assert!(matches!(router.dispatch(""), Dispatch::NotFound));

    let response = respond_not_found();
    assert_eq!(response.status, 404);
    assert!(matches!(response.body, ResponseBody::Empty));
}

#[test]
fn content_types_follow_the_extension() {
    assert_eq!(content_type_for("css/style.css"), "text/css");
    assert_eq!(content_type_for("page.html"), "text/html");
    assert_eq!(content_type_for("app.js"), "text/javascript");
    assert_eq!(content_type_for("img/shot.png"), "image/png");
    assert_eq!(content_type_for("img/logo.svg"), "image/svg+xml");
    assert_eq!(content_type_for("favicon.ico"), "image/x-icon");
    assert_eq!(content_type_for("notes.txt"), "text/plain");
    assert_eq!(content_type_for("README"), "application/octet-stream");
    assert_eq!(content_type_for("archive.tar.unknown"), "application/octet-stream");
    assert_eq!(content_type_for("dir.css/file"), "application/octet-stream");
    assert_eq!(content_type_for("trailing."), "application/octet-stream");
}

#[test]
fn index_fragment_has_one_prose_element_and_one_heading() {
    let frag = Index();

    assert_eq!(frag.matches("class=\"prose\"").count(), 1);
    assert_eq!(frag.matches("<h").count(), 1);
    let heading = frag.split_once("<h1>").unwrap().1.split_once("</h1>").unwrap().0;
    assert_eq!(heading, "Index");
}

#[test]
fn config_is_loopback_port_3000() {
    let config = Config::new();

    assert_eq!(config.ip, (127, 0, 0, 1));
    assert_eq!(config.port, 3000);
}
