//! The web pages that the ESP32 demos serve: a home page, a self-refreshing
//! page with the latest light reading and, in the later demo, a stylesheet.
//!
//! The HTTP server itself is the platform's; this module holds its routing
//! table and builds each response.

use vstd::prelude::*;
use vstd::string::*;
use crate::decimal::{decimal, push_decimal};

verus! {

/// The home page of the first demo.
pub const CDL_HOME_PAGE: &'static str = "\n                    <p>Hello from Rust on ESP32!</p>\n                    <p><a href=\"/light\">Light sensor</a></p>\n                ";

/// The light page of the first demo, up to the reading.
pub const CDL_LIGHT_HEAD: &'static str = "\n                    <html>\n                    <head><meta http-equiv=\"refresh\" content=\"1\"></head>\n                    <body>Light sensor: ";

/// The light page of the first demo, after the reading.
pub const CDL_LIGHT_TAIL: &'static str = "</body>\n                    </html>\n                ";

/// The home page of the later demo.
pub const INTRO_HOME_PAGE: &'static str = "\n                <html>\n                  <head>\n                    <link rel=\"stylesheet\" href=\"/style.css\">\n                  </head>\n                  <body class=\"box\">\n                    <div>\n                      <p>Hello from Rust on ESP32!</p>\n                      <p><a href=\"/light\">Light sensor</a></p>\n                    </div>\n                  </body>\n                 </html>\n               ";

/// The light page of the later demo, up to the reading.
pub const INTRO_LIGHT_HEAD: &'static str = "\n                <html >\n                  <head>\n                    <meta http-equiv=\"refresh\" content=\"1\">\n                    <meta charset=\"UTF-8\">\n                    <link rel=\"stylesheet\" href=\"/style.css\">\n                  </head>\n                  <body class=\"box\">\n                    <div>\n                      Light sensor: ";

/// The light page of the later demo, after the reading (a sun follows it).
pub const INTRO_LIGHT_TAIL: &'static str = " \u{1F506}\n                    </div>\n                  </body>\n                </html>";

/// The path of the home page.
pub const HOME_PATH: &'static str = "/";

/// The path of the light page.
pub const LIGHT_PATH: &'static str = "/light";

/// The path of the stylesheet.
pub const STYLE_PATH: &'static str = "/style.css";

/// The media type of the pages.
pub const HTML_TYPE: &'static str = "text/html";

/// The media type of the stylesheet.
pub const CSS_TYPE: &'static str = "text/css";

/// The reason phrase that the later demo sends with its status.
pub const OK_REASON: &'static str = "Ok";

/// The status of every response the demos send.
pub const STATUS_OK: u16 = 200;

/// Which of the two web servers: the first demo's, or the later one with a stylesheet.
#[derive(PartialEq, Eq, Structural, Clone, Copy, Debug)]
pub enum Site {
    Cdl2022,
    Intro,
}

/// The request methods the server tells apart.
#[derive(PartialEq, Eq, Structural, Clone, Copy, Debug)]
pub enum Method {
    Get,
    Other,
}

/// The resources a site serves.
#[derive(PartialEq, Eq, Structural, Clone, Copy, Debug)]
pub enum Page {
    Home,
    Light,
    StyleSheet,
}

/// A response: status, optional reason phrase, content type and body.
pub struct Response {
    pub status: u16,
    pub reason: Option<&'static str>,
    pub content_type: &'static str,
    pub body: String,
}

/// A response as values.
pub struct ResponseView {
    pub status: u16,
    pub reason: Option<Seq<char>>,
    pub content_type: Seq<char>,
    pub body: Seq<char>,
}

impl View for Response {
    type V = ResponseView;

    open spec fn view(&self) -> ResponseView {
        ResponseView {
            status: self.status,
            reason: match self.reason {
                Some(r) => Some(r@),
                None => None,
            },
            content_type: self.content_type@,
            body: self.body@,
        }
    }
}

/// The light page of the first demo for a reading.
pub open spec fn cdl_light_page(value: nat) -> Seq<char> {
    CDL_LIGHT_HEAD@ + decimal(value) + CDL_LIGHT_TAIL@
}

/// The light page of the later demo for a reading.
pub open spec fn intro_light_page(value: nat) -> Seq<char> {
    INTRO_LIGHT_HEAD@ + decimal(value) + INTRO_LIGHT_TAIL@
}

/// Whether a site has the page at all: only the later demo has a stylesheet.
pub open spec fn serves(site: Site, page: Page) -> bool {
    page != Page::StyleSheet || site == Site::Intro
}

/// The path under which a page is served.
pub open spec fn page_path(page: Page) -> Seq<char> {
    match page {
        Page::Home => HOME_PATH@,
        Page::Light => LIGHT_PATH@,
        Page::StyleSheet => STYLE_PATH@,
    }
}

/// The page that answers a request, if any: only GET requests on the
/// paths of the pages that the site serves.
pub open spec fn spec_route(site: Site, method: Method, path: Seq<char>) -> Option<Page> {
    if method != Method::Get {
        None
    } else if path == HOME_PATH@ {
        Some(Page::Home)
    } else if path == LIGHT_PATH@ {
        Some(Page::Light)
    } else if path == STYLE_PATH@ && site == Site::Intro {
        Some(Page::StyleSheet)
    } else {
        None
    }
}

/// The response to a request for a page, given the latest light reading and
/// the stylesheet.
pub open spec fn spec_response(site: Site, page: Page, light: nat, stylesheet: Seq<char>) -> ResponseView {
    ResponseView {
        status: STATUS_OK,
        reason: if site == Site::Intro {
            Some(OK_REASON@)
        } else {
            None
        },
        content_type: if page == Page::StyleSheet {
            CSS_TYPE@
        } else {
            HTML_TYPE@
        },
        body: match page {
            Page::Home => if site == Site::Intro {
                INTRO_HOME_PAGE@
            } else {
                CDL_HOME_PAGE@
            },
            Page::Light => if site == Site::Intro {
                intro_light_page(light)
            } else {
                cdl_light_page(light)
            },
            Page::StyleSheet => stylesheet,
        },
    }
}

/// Every page that a site serves is reached, by a GET request, under its own
/// path, and under no other path.
pub proof fn lemma_pages_reached_by_path(site: Site, page: Page, path: Seq<char>)
    requires
        serves(site, page),
    ensures
        spec_route(site, Method::Get, page_path(page)) == Some(page),
        spec_route(site, Method::Get, path) == Some(page) ==> path == page_path(page),
{
    reveal_strlit("/");
    reveal_strlit("/light");
    reveal_strlit("/style.css");
    assert(HOME_PATH@ != LIGHT_PATH@) by {
        assert(HOME_PATH@.len() != LIGHT_PATH@.len());
    }
    assert(HOME_PATH@ != STYLE_PATH@) by {
        assert(HOME_PATH@.len() != STYLE_PATH@.len());
    }
    assert(LIGHT_PATH@ != STYLE_PATH@) by {
        assert(LIGHT_PATH@.len() != STYLE_PATH@.len());
    }
}

/// The first demo has no stylesheet: no request reaches one.
pub proof fn lemma_first_site_has_no_stylesheet(method: Method, path: Seq<char>)
    ensures
        spec_route(Site::Cdl2022, method, path) != Some(Page::StyleSheet),
{
}

/// A request that is not a GET is never answered by a page.
pub proof fn lemma_only_get_is_served(site: Site, path: Seq<char>)
    ensures
        spec_route(site, Method::Other, path) is None,
{
}

/// The text between a fixed head and tail determines the whole.
proof fn lemma_framed_text_injective(head: Seq<char>, a: Seq<char>, b: Seq<char>, tail: Seq<char>)
    requires
        head + a + tail == head + b + tail,
    ensures
        a == b,
{
    let x = head + a + tail;
    let y = head + b + tail;
    assert(x.len() == head.len() + a.len() + tail.len());
    assert(y.len() == head.len() + b.len() + tail.len());
    assert(a.len() == b.len());
    assert(x.subrange(head.len() as int, (head.len() + a.len()) as int) =~= a);
    assert(y.subrange(head.len() as int, (head.len() + b.len()) as int) =~= b);
}

/// The light page tells the reading exactly: two different readings never
/// give the same page, on either site.
pub proof fn lemma_light_page_shows_reading(site: Site, a: nat, b: nat, stylesheet: Seq<char>)
    requires
        spec_response(site, Page::Light, a, stylesheet) == spec_response(
            site,
            Page::Light,
            b,
            stylesheet,
        ),
    ensures
        a == b,
{
    if site == Site::Intro {
        assert(intro_light_page(a) == intro_light_page(b));
        lemma_framed_text_injective(INTRO_LIGHT_HEAD@, decimal(a), decimal(b), INTRO_LIGHT_TAIL@);
    } else {
        assert(cdl_light_page(a) == cdl_light_page(b));
        lemma_framed_text_injective(CDL_LIGHT_HEAD@, decimal(a), decimal(b), CDL_LIGHT_TAIL@);
    }
    crate::decimal::lemma_decimal_injective(a, b);
}

/// The pages are HTML and the stylesheet is CSS, on either site: the home
/// and light pages go out as `text/html`, only the stylesheet as `text/css`.
/// Every response has status 200; the later site adds the reason "Ok", the
/// first sends none.
pub proof fn lemma_response_headers(site: Site, light: nat, css: Seq<char>)
    ensures
        spec_response(site, Page::Home, light, css).content_type == "text/html"@,
        spec_response(site, Page::Light, light, css).content_type == "text/html"@,
        spec_response(site, Page::StyleSheet, light, css).content_type == "text/css"@,
        spec_response(site, Page::Home, light, css).status == 200,
        spec_response(site, Page::Light, light, css).status == 200,
        spec_response(site, Page::StyleSheet, light, css).status == 200,
        site == Site::Intro ==> spec_response(site, Page::Light, light, css).reason == Some("Ok"@),
        site == Site::Intro ==> spec_response(site, Page::Home, light, css).reason == Some("Ok"@),
        site == Site::Intro ==> spec_response(site, Page::StyleSheet, light, css).reason == Some(
            "Ok"@,
        ),
        site == Site::Cdl2022 ==> spec_response(site, Page::Light, light, css).reason is None,
        site == Site::Cdl2022 ==> spec_response(site, Page::Home, light, css).reason is None,
{
}

/// The stylesheet response carries the stylesheet it was given, unchanged.
pub proof fn lemma_stylesheet_served_verbatim(light: nat, css: Seq<char>)
    ensures
        spec_response(Site::Intro, Page::StyleSheet, light, css).body == css,
{
}

/// The light page is the page template with the reading written in decimal
/// where the template has its placeholder, on either site.
pub proof fn lemma_light_page_text(light: nat, css: Seq<char>)
    ensures
        spec_response(Site::Intro, Page::Light, light, css).body == "\n                <html >\n                  <head>\n                    <meta http-equiv=\"refresh\" content=\"1\">\n                    <meta charset=\"UTF-8\">\n                    <link rel=\"stylesheet\" href=\"/style.css\">\n                  </head>\n                  <body class=\"box\">\n                    <div>\n                      Light sensor: "@
            + decimal(light) + " \u{1F506}\n                    </div>\n                  </body>\n                </html>"@,
        spec_response(Site::Cdl2022, Page::Light, light, css).body == "\n                    <html>\n                    <head><meta http-equiv=\"refresh\" content=\"1\"></head>\n                    <body>Light sensor: "@
            + decimal(light) + "</body>\n                    </html>\n                "@,
{
}

/// The home pages are the fixed home page texts of the two sites, whatever
/// the reading.
pub proof fn lemma_home_page_text(light: nat, css: Seq<char>)
    ensures
        spec_response(Site::Intro, Page::Home, light, css).body == "\n                <html>\n                  <head>\n                    <link rel=\"stylesheet\" href=\"/style.css\">\n                  </head>\n                  <body class=\"box\">\n                    <div>\n                      <p>Hello from Rust on ESP32!</p>\n                      <p><a href=\"/light\">Light sensor</a></p>\n                    </div>\n                  </body>\n                 </html>\n               "@,
        spec_response(Site::Cdl2022, Page::Home, light, css).body == "\n                    <p>Hello from Rust on ESP32!</p>\n                    <p><a href=\"/light\">Light sensor</a></p>\n                "@,
{
}

/// A GET on `/` is the home page and on `/light` the light page, on either
/// site; `/style.css` is the stylesheet on the later site and nothing on the
/// first.
pub proof fn lemma_paths(site: Site)
    ensures
        spec_route(site, Method::Get, "/"@) == Some(Page::Home),
        spec_route(site, Method::Get, "/light"@) == Some(Page::Light),
        spec_route(Site::Intro, Method::Get, "/style.css"@) == Some(Page::StyleSheet),
        spec_route(Site::Cdl2022, Method::Get, "/style.css"@) is None,
{
    reveal_strlit("/");
    reveal_strlit("/light");
    reveal_strlit("/style.css");
    assert("/"@ != "/light"@) by {
        assert("/"@.len() != "/light"@.len());
    }
    assert("/"@ != "/style.css"@) by {
        assert("/"@.len() != "/style.css"@.len());
    }
    assert("/light"@ != "/style.css"@) by {
        assert("/light"@.len() != "/style.css"@.len());
    }
}

/// Whether two strings hold the same characters.
fn same_text(a: &str, b: &str) -> (r: bool)
    ensures
        r == (a@ == b@),
{
    String::from_str(a) == String::from_str(b)
}

/// The light page of the first demo for a reading.
pub fn render_cdl_light_page(value: u16) -> (page: String)
    ensures
        page@ == cdl_light_page(value as nat),
{
    let mut page = String::from_str(CDL_LIGHT_HEAD);
    push_decimal(&mut page, value);
    page.append(CDL_LIGHT_TAIL);
    page
}

/// The light page of the later demo for a reading.
pub fn render_intro_light_page(value: u16) -> (page: String)
    ensures
        page@ == intro_light_page(value as nat),
{
    let mut page = String::from_str(INTRO_LIGHT_HEAD);
    push_decimal(&mut page, value);
    page.append(INTRO_LIGHT_TAIL);
    page
}

/// The pages of a site, each with its path, in the order the server
/// registers them.
pub fn routes(site: Site) -> (table: Vec<(&'static str, Page)>)
    ensures
        table@.len() == (if site == Site::Intro { 3int } else { 2int }),
        forall|i: int|
            0 <= i < table@.len() ==> serves(site, (#[trigger] table@[i]).1) && table@[i].0@
                == page_path(table@[i].1),
        table@[0].1 == Page::Home,
        table@[1].1 == Page::Light,
        site == Site::Intro ==> table@[2].1 == Page::StyleSheet,
{
    let mut table: Vec<(&'static str, Page)> = Vec::new();
    table.push((HOME_PATH, Page::Home));
    table.push((LIGHT_PATH, Page::Light));
    if site == Site::Intro {
        table.push((STYLE_PATH, Page::StyleSheet));
    }
    table
}

/// The page that answers a request, if any.
pub fn route(site: Site, method: Method, path: &str) -> (page: Option<Page>)
    ensures
        page == spec_route(site, method, path@),
{
    if method != Method::Get {
        None
    } else if same_text(path, HOME_PATH) {
        Some(Page::Home)
    } else if same_text(path, LIGHT_PATH) {
        Some(Page::Light)
    } else if same_text(path, STYLE_PATH) && site == Site::Intro {
        Some(Page::StyleSheet)
    } else {
        None
    }
}

/// The response for a page of the site.
pub fn respond(site: Site, page: Page, light: u16, stylesheet: &str) -> (resp: Response)
    requires
        serves(site, page),
    ensures
        resp@ == spec_response(site, page, light as nat, stylesheet@),
{
    let reason = if site == Site::Intro {
        Some(OK_REASON)
    } else {
        None
    };
    let content_type = if page == Page::StyleSheet {
        CSS_TYPE
    } else {
        HTML_TYPE
    };
    let body = match page {
        Page::Home => if site == Site::Intro {
            String::from_str(INTRO_HOME_PAGE)
        } else {
            String::from_str(CDL_HOME_PAGE)
        },
        Page::Light => if site == Site::Intro {
            render_intro_light_page(light)
        } else {
            render_cdl_light_page(light)
        },
        Page::StyleSheet => String::from_str(stylesheet),
    };
    Response { status: STATUS_OK, reason, content_type, body }
}

/// The response to a request: `None` where the site has no page for it.
pub fn handle(site: Site, method: Method, path: &str, light: u16, stylesheet: &str) -> (resp:
    Option<Response>)
    ensures
        match spec_route(site, method, path@) {
            Some(page) => resp matches Some(r) && r@ == spec_response(
                site,
                page,
                light as nat,
                stylesheet@,
            ),
            None => resp is None,
        },
{
    match route(site, method, path) {
        Some(page) => Some(respond(site, page, light, stylesheet)),
        None => None,
    }
}

} // verus!
