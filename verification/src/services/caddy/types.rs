//! Caddy JSON configuration for simple sites: the site builder, its checks,
//! and the configuration document it renders.
use vstd::prelude::*;

use crate::error::{Result, VeltrixError};
use crate::os::process::strings_view;
use crate::text::{chars_of, extend_str, join, string_of, trim, trim_chars};

verus! {

/// A lowercase hexadecimal digit.
pub open spec fn lower_hex_digit(d: nat) -> char {
    if d < 10 {
        ((d + 48) as u32) as char
    } else {
        ((d + 87) as u32) as char
    }
}

/// How `serde_json` writes one character inside a string literal: `"` and
/// `\` escaped with a backslash; backspace, tab, line feed, form feed and
/// carriage return as `\b`, `\t`, `\n`, `\f`, `\r`; other control
/// characters below U+0020 as `\u00` and two lowercase hex digits; every
/// other character as it is.
pub open spec fn json_char(c: char) -> Seq<char> {
    if c == '"' {
        seq!['\\', '"']
    } else if c == '\\' {
        seq!['\\', '\\']
    } else if c == '\x08' {
        seq!['\\', 'b']
    } else if c == '\t' {
        seq!['\\', 't']
    } else if c == '\n' {
        seq!['\\', 'n']
    } else if c == '\x0c' {
        seq!['\\', 'f']
    } else if c == '\r' {
        seq!['\\', 'r']
    } else if (c as u32) < 0x20 {
        seq!['\\', 'u', '0', '0', lower_hex_digit((c as u32 / 16) as nat), lower_hex_digit((c as u32 % 16) as nat)]
    } else {
        seq![c]
    }
}

/// The escaped characters of a string, in order.
pub open spec fn json_escaped(s: Seq<char>) -> Seq<char>
    decreases s.len(),
{
    if s.len() == 0 {
        Seq::empty()
    } else {
        json_escaped(s.drop_last()) + json_char(s.last())
    }
}

/// What `serde_json::to_string` makes of a string: the JSON string literal,
/// its characters escaped between double quotes.
#[verifier::opaque]
pub open spec fn json_string(s: Seq<char>) -> Seq<char> {
    seq!['"'] + json_escaped(s) + seq!['"']
}

/// `serde_json::to_string` of a string slice, which cannot fail for one:
/// the string quoted with `serde_json`'s escapes.
#[verifier::external_body]
pub(crate) fn json_quoted(s: &str) -> (r: String)
    ensures
        r@ == json_string(s@),
{
    match serde_json::to_string(s) {
        Ok(t) => t,
        Err(_) => String::new(),
    }
}

/// A JSON array of already rendered values.
pub open spec fn json_array(items: Seq<Seq<char>>) -> Seq<char> {
    "["@ + join(items, ","@) + "]"@
}

/// One request handler of a site.
#[derive(Debug, Clone)]
pub enum CaddyHandler {
    /// Serve files from a root directory.
    FileServer { root: String },
    /// Proxy to upstream dial addresses.
    ReverseProxy { upstreams: Vec<String> },
}

/// The plain content of a handler.
pub enum HandlerView {
    FileServer(Seq<char>),
    ReverseProxy(Seq<Seq<char>>),
}

impl View for CaddyHandler {
    type V = HandlerView;

    open spec fn view(&self) -> HandlerView {
        match self {
            CaddyHandler::FileServer { root } => HandlerView::FileServer(root@),
            CaddyHandler::ReverseProxy { upstreams } => HandlerView::ReverseProxy(
                strings_view(upstreams@),
            ),
        }
    }
}

/// The JSON of a reverse proxy's upstreams: `{"dial":...}` for each.
pub open spec fn upstreams_json(ds: Seq<Seq<char>>) -> Seq<Seq<char>> {
    Seq::new(ds.len(), |i: int| "{\"dial\":"@ + json_string(ds[i]) + "}"@)
}

/// The JSON of a handler.
pub open spec fn handler_json(h: HandlerView) -> Seq<char> {
    match h {
        HandlerView::FileServer(root) => "{\"handler\":\"file_server\",\"root\":"@ + json_string(
            root,
        ) + "}"@,
        HandlerView::ReverseProxy(ds) => "{\"handler\":\"reverse_proxy\",\"upstreams\":"@
            + json_array(upstreams_json(ds)) + "}"@,
    }
}

/// The plain content of a site builder.
pub struct CaddySiteView {
    pub host: Seq<char>,
    pub listen: Seq<Seq<char>>,
    pub handlers: Seq<HandlerView>,
    pub local_https: bool,
}

/// Builder for one Caddy HTTP site/server config.
#[derive(Debug, Clone)]
pub struct CaddySiteConfig {
    host: String,
    listen: Vec<String>,
    handlers: Vec<CaddyHandler>,
    local_https: bool,
}

impl View for CaddySiteConfig {
    type V = CaddySiteView;

    closed spec fn view(&self) -> CaddySiteView {
        CaddySiteView {
            host: self.host@,
            listen: strings_view(self.listen@),
            handlers: Seq::new(self.handlers@.len(), |i: int| self.handlers@[i]@),
            local_https: self.local_https,
        }
    }
}

/// The `srv0` server of a site.
pub open spec fn server_json(v: CaddySiteView) -> Seq<char> {
    (if v.local_https {
        "{\"automatic_https\":{\"disable\":false},"@
    } else {
        "{"@
    }) + "\"listen\":"@ + json_array(Seq::new(v.listen.len(), |i: int| json_string(v.listen[i])))
        + ",\"routes\":[{\"handle\":"@ + json_array(
        Seq::new(v.handlers.len(), |i: int| handler_json(v.handlers[i])),
    ) + ",\"match\":[{\"host\":["@ + json_string(v.host) + "]}],\"terminal\":true}]}"@
}

/// The internal-issuer TLS app of a local HTTPS site.
pub open spec fn tls_app_json() -> Seq<char> {
    "{\"automation\":{\"policies\":[{\"issuers\":[{\"module\":\"internal\"}]}]}}"@
}

/// The configuration document of a site: the `http` app with the site as
/// server `srv0`, and for local HTTPS the internal-issuer `tls` app.
pub open spec fn site_config_json(v: CaddySiteView) -> Seq<char> {
    "{\"admin\":null,\"logging\":null,\"storage\":null,\"apps\":{\"http\":{\"servers\":{\"srv0\":"@
        + server_json(v) + "}}"@ + (if v.local_https {
        ",\"tls\":"@ + tls_app_json()
    } else {
        Seq::empty()
    }) + "}}"@
}

/// A Caddy JSON configuration document.
#[derive(Debug, Clone)]
pub struct CaddyConfig {
    /// The document's JSON text.
    pub json: String,
}

/// Whether `r` is what rendering the site `v` gives: the first failed check
/// (a blank host, no listen address, no handler) as a validation error, else
/// the site's configuration document.
pub open spec fn site_outcome(v: CaddySiteView, r: Result<CaddyConfig>) -> bool {
    if trim(v.host).len() == 0 {
        r matches Err(VeltrixError::Validation { field, reason }) && field@ == "host"@ && reason@
            == "host must not be empty"@
    } else if v.listen.len() == 0 {
        r matches Err(VeltrixError::Validation { field, reason }) && field@ == "listen"@ && reason@
            == "at least one listen address is required"@
    } else if v.handlers.len() == 0 {
        r matches Err(VeltrixError::Validation { field, reason }) && field@ == "handlers"@
            && reason@ == "at least one handler is required"@
    } else {
        r matches Ok(c) && c.json@ == site_config_json(v)
    }
}

/// A new site for `host` listening on `listen`, with no handler yet.
pub open spec fn new_site(host: Seq<char>, listen: Seq<char>, local_https: bool) -> CaddySiteView {
    CaddySiteView { host, listen: seq![listen], handlers: Seq::empty(), local_https }
}

/// The site with one more handler.
pub open spec fn with_handler(v: CaddySiteView, h: HandlerView) -> CaddySiteView {
    CaddySiteView { handlers: v.handlers.push(h), ..v }
}

impl CaddyConfig {
    /// The empty configuration.
    pub fn empty() -> (c: Self)
        ensures
            c.json@ == "{\"admin\":null,\"logging\":null,\"storage\":null,\"apps\":{}}"@,
    {
        CaddyConfig { json: "{\"admin\":null,\"logging\":null,\"storage\":null,\"apps\":{}}".to_owned() }
    }

    /// A local HTTPS file server for `host` serving `root`, with Caddy's
    /// internal issuer.
    pub fn local_https_file_server(host: &str, root: &str) -> (r: Result<Self>)
        ensures
            site_outcome(
                with_handler(new_site(host@, ":443"@, true), HandlerView::FileServer(root@)),
                r,
            ),
    {
        CaddySiteConfig::local_https(host).file_server(root).to_config()
    }

    /// A reverse proxy for `host` to the upstream addresses, over HTTP.
    pub fn reverse_proxy(host: &str, upstreams: Vec<String>) -> (r: Result<Self>)
        ensures
            site_outcome(
                with_handler(
                    new_site(host@, ":80"@, false),
                    HandlerView::ReverseProxy(strings_view(upstreams@)),
                ),
                r,
            ),
    {
        CaddySiteConfig::http(host).reverse_proxy(upstreams).to_config()
    }

    /// A local HTTPS reverse proxy for `host`, with Caddy's internal issuer.
    pub fn local_https_reverse_proxy(host: &str, upstreams: Vec<String>) -> (r: Result<Self>)
        ensures
            site_outcome(
                with_handler(
                    new_site(host@, ":443"@, true),
                    HandlerView::ReverseProxy(strings_view(upstreams@)),
                ),
                r,
            ),
    {
        CaddySiteConfig::local_https(host).reverse_proxy(upstreams).to_config()
    }
}

fn push_json_strings(v: &mut Vec<char>, items: &Vec<String>)
    ensures
        final(v)@ == old(v)@ + json_array(
            Seq::new(items@.len(), |i: int| json_string(items@[i]@)),
        ),
{
    let ghost all = Seq::new(items@.len(), |i: int| json_string(items@[i]@));
    let ghost start = v@;
    extend_str(v, "[");
    let mut i: usize = 0;
    while i < items.len()
        invariant
            i <= items@.len(),
            all == Seq::new(items@.len(), |k: int| json_string(items@[k]@)),
            v@ == start + "["@ + join(all.take(i as int), ","@),
        decreases items.len() - i,
    {
        assert(all.take(i + 1).drop_last() =~= all.take(i as int));
        if i > 0 {
            extend_str(v, ",");
        }
        let q = json_quoted(items[i].as_str());
        extend_str(v, q.as_str());
        proof {
            if i == 0 {
                assert(v@ =~= start + "["@ + join(all.take(1), ","@));
            } else {
                assert(v@ =~= start + "["@ + join(all.take(i + 1), ","@));
            }
        }
        i = i + 1;
    }
    assert(all.take(items.len() as int) =~= all);
    extend_str(v, "]");
}

fn push_handler(v: &mut Vec<char>, h: &CaddyHandler)
    ensures
        final(v)@ == old(v)@ + handler_json(h@),
{
    let ghost start = v@;
    match h {
        CaddyHandler::FileServer { root } => {
            extend_str(v, "{\"handler\":\"file_server\",\"root\":");
            let q = json_quoted(root.as_str());
            extend_str(v, q.as_str());
            extend_str(v, "}");
        },
        CaddyHandler::ReverseProxy { upstreams } => {
            extend_str(v, "{\"handler\":\"reverse_proxy\",\"upstreams\":");
            extend_str(v, "[");
            let ghost all = upstreams_json(strings_view(upstreams@));
            let ghost mid = v@;
            let mut i: usize = 0;
            while i < upstreams.len()
                invariant
                    i <= upstreams@.len(),
                    all == upstreams_json(strings_view(upstreams@)),
                    v@ == mid + join(all.take(i as int), ","@),
                decreases upstreams.len() - i,
            {
                assert(all.take(i + 1).drop_last() =~= all.take(i as int));
                if i > 0 {
                    extend_str(v, ",");
                }
                extend_str(v, "{\"dial\":");
                let q = json_quoted(upstreams[i].as_str());
                extend_str(v, q.as_str());
                extend_str(v, "}");
                proof {
                    if i == 0 {
                        assert(v@ =~= mid + join(all.take(1), ","@));
                    } else {
                        assert(v@ =~= mid + join(all.take(i + 1), ","@));
                    }
                }
                i = i + 1;
            }
            assert(all.take(upstreams.len() as int) =~= all);
            extend_str(v, "]");
            extend_str(v, "}");
        },
    }
    assert(v@ =~= start + handler_json(h@));
}

impl CaddySiteConfig {
    /// An HTTP site for `host` listening on `:80`.
    pub fn http(host: &str) -> (s: Self)
        ensures
            s@ == new_site(host@, ":80"@, false),
    {
        let mut listen: Vec<String> = Vec::new();
        listen.push(":80".to_owned());
        let s = CaddySiteConfig { host: host.to_owned(), listen, handlers: Vec::new(), local_https: false };
        assert(s@.listen =~= seq![":80"@]);
        assert(s@.handlers =~= Seq::<HandlerView>::empty());
        s
    }

    /// A local HTTPS site for `host` listening on `:443`.
    pub fn local_https(host: &str) -> (s: Self)
        ensures
            s@ == new_site(host@, ":443"@, true),
    {
        let mut listen: Vec<String> = Vec::new();
        listen.push(":443".to_owned());
        let s = CaddySiteConfig { host: host.to_owned(), listen, handlers: Vec::new(), local_https: true };
        assert(s@.listen =~= seq![":443"@]);
        assert(s@.handlers =~= Seq::<HandlerView>::empty());
        s
    }

    /// Replaces the listen addresses.
    pub fn listen(self, listen: Vec<String>) -> (s: Self)
        ensures
            s@ == (CaddySiteView { listen: strings_view(listen@), ..self@ }),
    {
        CaddySiteConfig { listen, ..self }
    }

    fn with(self, h: CaddyHandler) -> (s: Self)
        ensures
            s@ == with_handler(self@, h@),
    {
        let mut handlers = self.handlers;
        let ghost before = Seq::new(handlers@.len(), |i: int| handlers@[i]@);
        handlers.push(h);
        let s = CaddySiteConfig { handlers, ..self };
        assert(s@.handlers =~= before.push(h@));
        s
    }

    /// Adds a file-server handler.
    pub fn file_server(self, root: &str) -> (s: Self)
        ensures
            s@ == with_handler(self@, HandlerView::FileServer(root@)),
    {
        self.with(CaddyHandler::FileServer { root: root.to_owned() })
    }

    /// Adds a reverse-proxy handler.
    pub fn reverse_proxy(self, upstreams: Vec<String>) -> (s: Self)
        ensures
            s@ == with_handler(self@, HandlerView::ReverseProxy(strings_view(upstreams@))),
    {
        self.with(CaddyHandler::ReverseProxy { upstreams })
    }

    /// Renders this site as a full Caddy configuration.
    #[verifier::rlimit(40)]
    pub fn to_config(self) -> (r: Result<CaddyConfig>)
        ensures
            site_outcome(self@, r),
    {
        let h = chars_of(self.host.as_str());
        let t = trim_chars(h.as_slice());
        if t.len() == 0 {
            return Err(VeltrixError::validation("host", "host must not be empty"));
        }
        if self.listen.len() == 0 {
            return Err(VeltrixError::validation("listen", "at least one listen address is required"));
        }
        if self.handlers.len() == 0 {
            return Err(VeltrixError::validation("handlers", "at least one handler is required"));
        }
        let ghost view = self@;
        let mut v: Vec<char> = Vec::new();
        extend_str(
            &mut v,
            "{\"admin\":null,\"logging\":null,\"storage\":null,\"apps\":{\"http\":{\"servers\":{\"srv0\":",
        );
        let ghost head = v@;
        if self.local_https {
            extend_str(&mut v, "{\"automatic_https\":{\"disable\":false},");
        } else {
            extend_str(&mut v, "{");
        }
        extend_str(&mut v, "\"listen\":");
        push_json_strings(&mut v, &self.listen);
        extend_str(&mut v, ",\"routes\":[{\"handle\":");
        extend_str(&mut v, "[");
        let ghost hs = Seq::new(view.handlers.len(), |i: int| handler_json(view.handlers[i]));
        let ghost mid = v@;
        let mut i: usize = 0;
        while i < self.handlers.len()
            invariant
                i <= self.handlers@.len(),
                view == self@,
                hs == Seq::new(view.handlers.len(), |k: int| handler_json(view.handlers[k])),
                hs.len() == self.handlers@.len(),
                v@ == mid + join(hs.take(i as int), ","@),
            decreases self.handlers.len() - i,
        {
            assert(hs.take(i + 1).drop_last() =~= hs.take(i as int));
            assert(view.handlers[i as int] == self.handlers@[i as int]@);
            if i > 0 {
                extend_str(&mut v, ",");
            }
            push_handler(&mut v, &self.handlers[i]);
            proof {
                if i == 0 {
                    assert(v@ =~= mid + join(hs.take(1), ","@));
                } else {
                    assert(v@ =~= mid + join(hs.take(i + 1), ","@));
                }
            }
            i = i + 1;
        }
        assert(hs.take(self.handlers.len() as int) =~= hs);
        extend_str(&mut v, "]");
        extend_str(&mut v, ",\"match\":[{\"host\":[");
        let q = json_quoted(self.host.as_str());
        extend_str(&mut v, q.as_str());
        extend_str(&mut v, "]}],\"terminal\":true}]}");
        assert(Seq::new(view.listen.len(), |k: int| json_string(view.listen[k])) =~= Seq::new(
            self.listen@.len(),
            |k: int| json_string(self.listen@[k]@),
        ));
        assert(v@ =~= head + server_json(view));
        extend_str(&mut v, "}}");
        if self.local_https {
            extend_str(&mut v, ",\"tls\":");
            extend_str(
                &mut v,
                "{\"automation\":{\"policies\":[{\"issuers\":[{\"module\":\"internal\"}]}]}}",
            );
        }
        extend_str(&mut v, "}}");
        assert(v@ =~= site_config_json(view));
        Ok(CaddyConfig { json: string_of(v.as_slice()) })
    }
}


/// A local-HTTPS site's document opens the `srv0` server with automatic
/// HTTPS enabled (`apps.http.servers.srv0.automatic_https.disable` is
/// `false`), so Caddy manages its certificates; a plain HTTP site's `srv0`
/// starts directly with its listen addresses and sets no automatic HTTPS.
pub proof fn local_https_enables_automatic_https(v: CaddySiteView)
    ensures
        v.local_https ==> crate::text::has_prefix(
            site_config_json(v),
            "{\"admin\":null,\"logging\":null,\"storage\":null,\"apps\":{\"http\":{\"servers\":{\"srv0\":{\"automatic_https\":{\"disable\":false},\"listen\":"@,
        ),
        !v.local_https ==> crate::text::has_prefix(
            site_config_json(v),
            "{\"admin\":null,\"logging\":null,\"storage\":null,\"apps\":{\"http\":{\"servers\":{\"srv0\":{\"listen\":"@,
        ),
{
    let head = "{\"admin\":null,\"logging\":null,\"storage\":null,\"apps\":{\"http\":{\"servers\":{\"srv0\":"@;
    let auto = "{\"automatic_https\":{\"disable\":false},"@;
    let open = "{"@;
    let listen = "\"listen\":"@;
    reveal_strlit("{\"admin\":null,\"logging\":null,\"storage\":null,\"apps\":{\"http\":{\"servers\":{\"srv0\":");
    reveal_strlit("{\"automatic_https\":{\"disable\":false},");
    reveal_strlit("{");
    reveal_strlit("\"listen\":");
    reveal_strlit("{\"admin\":null,\"logging\":null,\"storage\":null,\"apps\":{\"http\":{\"servers\":{\"srv0\":{\"automatic_https\":{\"disable\":false},\"listen\":");
    reveal_strlit("{\"admin\":null,\"logging\":null,\"storage\":null,\"apps\":{\"http\":{\"servers\":{\"srv0\":{\"listen\":");
    let doc = site_config_json(v);
    let first = if v.local_https { auto } else { open };
    let p = head + first + listen;
    let rest = server_json(v).skip((first + listen).len() as int);
    assert(server_json(v) =~= first + listen + rest);
    let tail = "}}"@ + (if v.local_https { ",\"tls\":"@ + tls_app_json() } else { Seq::empty() }) + "}}"@;
    assert(doc =~= p + (rest + tail));
    if v.local_https {
        assert(p =~= "{\"admin\":null,\"logging\":null,\"storage\":null,\"apps\":{\"http\":{\"servers\":{\"srv0\":{\"automatic_https\":{\"disable\":false},\"listen\":"@);
    } else {
        assert(p =~= "{\"admin\":null,\"logging\":null,\"storage\":null,\"apps\":{\"http\":{\"servers\":{\"srv0\":{\"listen\":"@);
    }
    assert(doc.subrange(0, p.len() as int) =~= p);
}

} // verus!
