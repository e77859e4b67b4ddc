//! The few view pieces that are plain values: the health page and the
//! navigation records of the layout.

use vstd::prelude::*;

verus! {

/// One entry of the breadcrumb trail.
#[derive(Clone, Debug)]
pub struct Breadcrumb {
    pub label: String,
    pub href: Option<String>,
}

/// One entry of the navigation bar.
#[derive(Clone, Debug)]
pub struct NavItem {
    pub label: String,
    pub href: String,
    pub key: String,
}

/// Builds one breadcrumb entry.
pub fn breadcrumb(label: &str, href: Option<String>) -> (r: Breadcrumb)
    ensures
        r.label@ == label@,
        r.href == href,
{
    Breadcrumb { label: label.to_owned(), href }
}

/// The self-contained health page: a fixed document that needs no
/// template.
pub fn health_html() -> (r: &'static str)
    ensures
        r@.len() > 0,
{
    let page = "<!doctype html>\n<html lang=\"en\">\n  <head>\n    <meta charset=\"utf-8\">\n    <meta name=\"viewport\" content=\"width=device-width, initial-scale=1\">\n    <title>ARSSM Health</title>\n    <link\n      href=\"https://cdn.jsdelivr.net/npm/bootstrap@5.3.3/dist/css/bootstrap.min.css\"\n      rel=\"stylesheet\"\n      integrity=\"sha384-QWTKZyjpPEjISv5WaRU9OFeRpok6YctnYmDr5pNlyT2bRjXh0JMhjY6hW+ALEwIH\"\n      crossorigin=\"anonymous\"\n    >\n    <link href=\"https://fonts.googleapis.com/css2?family=Rajdhani:wght@400;500;600;700&display=swap\" rel=\"stylesheet\">\n    <link href=\"/web/css/theme.css\" rel=\"stylesheet\">\n  </head>\n  <body>\n    <div class=\"container py-4\">\n      <div class=\"arssm-panel p-4\">\n        <h1 class=\"mb-3\">ARSSM</h1>\n        <p class=\"text-muted\">Status: ok</p>\n        <label class=\"form-label text-muted\" for=\"workshop-url\">Workshop URL</label>\n        <input class=\"form-control arssm-input\" id=\"workshop-url\" type=\"text\" value=\"https://reforger.armaplatform.com/workshop/595F2BF2F44836FB-RHS-StatusQuo\">\n        <button class=\"btn btn-arssm-primary mt-3\" id=\"resolve\">Resolve</button>\n        <h2 class=\"mt-4\">Result</h2>\n        <pre class=\"arssm-log p-3\" id=\"output\">Waiting for input.</pre>\n      </div>\n    </div>\n  </body>\n</html>\n";
    proof {
        reveal_strlit(
            "<!doctype html>\n<html lang=\"en\">\n  <head>\n    <meta charset=\"utf-8\">\n    <meta name=\"viewport\" content=\"width=device-width, initial-scale=1\">\n    <title>ARSSM Health</title>\n    <link\n      href=\"https://cdn.jsdelivr.net/npm/bootstrap@5.3.3/dist/css/bootstrap.min.css\"\n      rel=\"stylesheet\"\n      integrity=\"sha384-QWTKZyjpPEjISv5WaRU9OFeRpok6YctnYmDr5pNlyT2bRjXh0JMhjY6hW+ALEwIH\"\n      crossorigin=\"anonymous\"\n    >\n    <link href=\"https://fonts.googleapis.com/css2?family=Rajdhani:wght@400;500;600;700&display=swap\" rel=\"stylesheet\">\n    <link href=\"/web/css/theme.css\" rel=\"stylesheet\">\n  </head>\n  <body>\n    <div class=\"container py-4\">\n      <div class=\"arssm-panel p-4\">\n        <h1 class=\"mb-3\">ARSSM</h1>\n        <p class=\"text-muted\">Status: ok</p>\n        <label class=\"form-label text-muted\" for=\"workshop-url\">Workshop URL</label>\n        <input class=\"form-control arssm-input\" id=\"workshop-url\" type=\"text\" value=\"https://reforger.armaplatform.com/workshop/595F2BF2F44836FB-RHS-StatusQuo\">\n        <button class=\"btn btn-arssm-primary mt-3\" id=\"resolve\">Resolve</button>\n        <h2 class=\"mt-4\">Result</h2>\n        <pre class=\"arssm-log p-3\" id=\"output\">Waiting for input.</pre>\n      </div>\n    </div>\n  </body>\n</html>\n",
        );
    }
    page
}

} // verus!
