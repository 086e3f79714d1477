use intro_embedded::web::{
    handle, render_cdl_light_page, render_intro_light_page, respond, route, routes, Method, Page,
    Site,
};

fn intro_light_expected(value: u16) -> String {
    format!(
        r#"
                <html >
                  <head>
                    <meta http-equiv="refresh" content="1">
                    <meta charset="UTF-8">
                    <link rel="stylesheet" href="/style.css">
                  </head>
                  <body class="box">
                    <div>
                      Light sensor: {} 🔆
                    </div>
                  </body>
                </html>"#,
        value
    )
}

fn cdl_light_expected(value: u16) -> String {
    format!(
        r#"
                    <html>
                    <head><meta http-equiv="refresh" content="1"></head>
                    <body>Light sensor: {}</body>
                    </html>
                "#,
        value
    )
}

const INTRO_HOME_EXPECTED: &str = r#"
                <html>
                  <head>
                    <link rel="stylesheet" href="/style.css">
                  </head>
                  <body class="box">
                    <div>
                      <p>Hello from Rust on ESP32!</p>
                      <p><a href="/light">Light sensor</a></p>
                    </div>
                  </body>
                 </html>
               "#;

const CDL_HOME_EXPECTED: &str = r#"
                    <p>Hello from Rust on ESP32!</p>
                    <p><a href="/light">Light sensor</a></p>
                "#;

#[test]
fn light_pages_match_templates() {
    for v in [0u16, 5, 512, 1023, 4095, 65535] {
        assert_eq!(render_intro_light_page(v), intro_light_expected(v));
        assert_eq!(render_cdl_light_page(v), cdl_light_expected(v));
    }
}

#[test]
fn home_pages_match_templates() {
    let r = respond(Site::Intro, Page::Home, 0, "");
    assert_eq!(r.body, INTRO_HOME_EXPECTED);
    assert_eq!(r.status, 200);
    assert_eq!(r.reason, Some("Ok"));
    assert_eq!(r.content_type, "text/html");
    let r = respond(Site::Cdl2022, Page::Home, 0, "");
    assert_eq!(r.body, CDL_HOME_EXPECTED);
    assert_eq!(r.status, 200);
    assert_eq!(r.reason, None);
    assert_eq!(r.content_type, "text/html");
}

#[test]
fn stylesheet_is_served_as_css() {
    let css = ".box { display: flex; }";
    let r = respond(Site::Intro, Page::StyleSheet, 9, css);
    assert_eq!(r.body, css);
    assert_eq!(r.content_type, "text/css");
    assert_eq!(r.reason, Some("Ok"));
}

#[test]
fn routing() {
    assert_eq!(route(Site::Intro, Method::Get, "/"), Some(Page::Home));
    assert_eq!(route(Site::Intro, Method::Get, "/light"), Some(Page::Light));
    assert_eq!(route(Site::Intro, Method::Get, "/style.css"), Some(Page::StyleSheet));
    assert_eq!(route(Site::Cdl2022, Method::Get, "/style.css"), None);
    assert_eq!(route(Site::Cdl2022, Method::Get, "/light"), Some(Page::Light));
    assert_eq!(route(Site::Intro, Method::Get, "/lights"), None);
    assert_eq!(route(Site::Intro, Method::Get, ""), None);
    assert_eq!(route(Site::Intro, Method::Other, "/"), None);
}

#[test]
fn routing_table() {
    let t = routes(Site::Intro);
    assert_eq!(
        t,
        vec![("/", Page::Home), ("/light", Page::Light), ("/style.css", Page::StyleSheet)]
    );
    let t = routes(Site::Cdl2022);
    assert_eq!(t, vec![("/", Page::Home), ("/light", Page::Light)]);
    for site in [Site::Intro, Site::Cdl2022] {
        for (path, page) in routes(site) {
            assert_eq!(route(site, Method::Get, path), Some(page));
        }
    }
}

#[test]
fn handle_requests() {
    let r = handle(Site::Intro, Method::Get, "/light", 321, "").unwrap();
    assert_eq!(r.body, intro_light_expected(321));
    let r = handle(Site::Cdl2022, Method::Get, "/light", 321, "").unwrap();
    assert_eq!(r.body, cdl_light_expected(321));
    assert!(handle(Site::Cdl2022, Method::Get, "/style.css", 1, "x").is_none());
    assert!(handle(Site::Intro, Method::Other, "/light", 1, "x").is_none());
}
