use quickserving_core::pages::{is_page, page_routes, site_dir, static_route};

#[test]
fn site_dir_is_normalised() {
    assert_eq!(site_dir("./"), "./");
    assert_eq!(site_dir("site"), "./site/");
    assert_eq!(site_dir("./site"), "./site/");
    assert_eq!(site_dir("./site/"), "./site/");
}

#[test]
fn index_page_gets_aliases() {
    let routes = page_routes("./site/blog/index.html", "./site/");
    assert_eq!(routes, vec!["/blog/index.html", "/blog/index", "/blog/", "/blog"]);
}

#[test]
fn root_index_keeps_slash_only() {
    let routes = page_routes("./site/index.html", "./site/");
    assert_eq!(routes, vec!["/index.html", "/index", "/"]);
}

#[test]
fn plain_page_routes() {
    assert_eq!(page_routes("./site/about.html", "./site/"), vec!["/about.html", "/about"]);
}

#[test]
fn static_routes_take_file_name() {
    assert_eq!(static_route("my_project_html/static/app.css"), "/static/app.css");
    assert_eq!(static_route("xfile"), "/static/file");
}

#[test]
fn pages_are_html_files() {
    assert!(is_page("a/b.html"));
    assert!(!is_page("a/b.htm"));
}
