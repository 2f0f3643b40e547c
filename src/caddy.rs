//! Reverse-proxy configuration for a service.
use vstd::prelude::*;

use crate::config::ProxyConfig;
use crate::constants::{CADDY_CERTS_DIR, CADDY_CONF_DIR};
use crate::remote::{maybe_doas, must, prefix, Op, Step};
use crate::shell::{escape, shell_word};
use crate::text::{cat, chars_of, cmd2, cmd4, has_prefix, lines_of, nonblank_lines, starts_with, string_of};

verus! {

/// The site address: plain HTTP only when neither automatic nor manual TLS is on.
pub open spec fn site_address(proxy: ProxyConfig) -> Seq<char> {
    if proxy.ssl is Some || proxy.tls {
        proxy.hostname@
    } else {
        "http://"@ + proxy.hostname@
    }
}

/// The `tls` directive for manually managed certificates of `service`.
pub open spec fn tls_directive(service: Seq<char>) -> Seq<char> {
    "    tls "@ + CADDY_CERTS_DIR@ + "/"@ + service + ".crt "@ + CADDY_CERTS_DIR@ + "/"@ + service
        + ".key\n"@
}

/// The proxy configuration that sends `proxy`'s hostname to `backend`.
pub open spec fn caddyfile(proxy: ProxyConfig, service: Seq<char>, backend: Seq<char>) -> Seq<char> {
    site_address(proxy) + " {\n"@ + (if proxy.ssl is Some {
        tls_directive(service)
    } else {
        Seq::<char>::empty()
    }) + "    reverse_proxy "@ + backend + "\n"@ + "}\n"@
}

/// Renders the proxy configuration for `service`, forwarding to `backend`.
pub fn generate_caddyfile(proxy: &ProxyConfig, service: &str, backend: &str) -> (r: String)
    ensures
        r@ == caddyfile(*proxy, service@, backend@),
{
    let hostname = if proxy.ssl.is_some() || proxy.tls {
        proxy.hostname.clone()
    } else {
        cat("http://", proxy.hostname.as_str())
    };
    let mut content = cat(hostname.as_str(), " {\n");
    if proxy.ssl.is_some() {
        let line = cat("    tls ", CADDY_CERTS_DIR).concat("/").concat(service).concat(".crt ").concat(
            CADDY_CERTS_DIR,
        ).concat("/").concat(service).concat(".key\n");
        content.append(line.as_str());
    }
    content.append("    reverse_proxy ");
    content.append(backend);
    content.append("\n");
    content.append("}\n");
    assert(content@ =~= caddyfile(*proxy, service@, backend@));
    content
}

/// Installs a manually managed certificate and its key for `service`
/// (their contents as read from the operator's environment), readable by
/// the proxy's user only.
pub fn write_ssl_certificates(service: &str, certificate: &str, key: &str, doas: bool) -> (r: Vec<Step>)
    ensures
        r@.len() == 5,
        r@[1].op is WriteFile && r@[1].op->WriteFile_privileged == doas,
        r@[2].op is WriteFile && r@[2].op->WriteFile_privileged == doas,
        r@[1].op->WriteFile_content@ == certificate@,
        r@[1].op->WriteFile_path@ == CADDY_CERTS_DIR@ + "/"@ + service@ + ".crt"@,
        r@[2].op->WriteFile_content@ == key@,
        r@[2].op->WriteFile_path@ == CADDY_CERTS_DIR@ + "/"@ + service@ + ".key"@,
        (forall|i: int| 0 <= i < 5 ==> (#[trigger] r@[i]).required),
        r@[0].op is Exec && r@[0].op->Exec_0@ == prefix(doas) + "mkdir -p "@ + CADDY_CERTS_DIR@,
        r@[3].op is Exec && r@[3].op->Exec_0@ == prefix(doas) + "chmod 600 "@ + shell_word(
            CADDY_CERTS_DIR@ + "/"@ + service@ + ".crt"@,
        ) + " "@ + shell_word(CADDY_CERTS_DIR@ + "/"@ + service@ + ".key"@),
        r@[4].op is Exec && r@[4].op->Exec_0@ == prefix(doas) + "chown www:www "@ + shell_word(
            CADDY_CERTS_DIR@ + "/"@ + service@ + ".crt"@,
        ) + " "@ + shell_word(CADDY_CERTS_DIR@ + "/"@ + service@ + ".key"@),
{
    let cert_path = cat(CADDY_CERTS_DIR, "/").concat(service).concat(".crt");
    let key_path = cat(CADDY_CERTS_DIR, "/").concat(service).concat(".key");
    let wc = escape(cert_path.as_str());
    let wk = escape(key_path.as_str());
    let mut r: Vec<Step> = Vec::new();
    r.push(must(cmd2(doas, "mkdir -p ", CADDY_CERTS_DIR)));
    r.push(Step { op: Op::WriteFile { content: String::from_str(certificate), path: cert_path, privileged: doas }, required: true });
    r.push(Step { op: Op::WriteFile { content: String::from_str(key), path: key_path, privileged: doas }, required: true });
    r.push(must(cmd4(doas, "chmod 600 ", wc.as_str(), " ", wk.as_str())));
    r.push(must(cmd4(doas, "chown www:www ", wc.as_str(), " ", wk.as_str())));
    r
}

/// The proxy configuration file of `service`.
pub open spec fn proxy_conf_path(service: Seq<char>) -> Seq<char> {
    CADDY_CONF_DIR@ + "/"@ + service + ".caddy"@
}

/// Points the proxy of `service` at `backend`: the certificate first when
/// one is managed by hand (`certificates`: its contents and its key's),
/// then the configuration file, then a reload.
pub fn proxy_steps(
    proxy: &ProxyConfig,
    service: &str,
    backend: &str,
    certificates: &Option<(String, String)>,
    doas: bool,
) -> (r: Vec<Step>)
    ensures
        r@.len() >= 2,
        r@[r@.len() - 2].required && r@[r@.len() - 2].op is WriteFile,
        r@[r@.len() - 2].op->WriteFile_content@ == caddyfile(*proxy, service@, backend@),
        r@[r@.len() - 2].op->WriteFile_path@ == proxy_conf_path(service@),
        r@.last().required && r@.last().op is Exec,
        r@.last().op->Exec_0@ == prefix(doas) + "service caddy reload"@,
{
    let mut r: Vec<Step> = Vec::new();
    if proxy.ssl.is_some() {
        match certificates {
            Some(c) => {
                let mut w = write_ssl_certificates(service, c.0.as_str(), c.1.as_str(), doas);
                r.append(&mut w);
            },
            None => {},
        }
    }
    let content = generate_caddyfile(proxy, service, backend);
    let path = cat(CADDY_CONF_DIR, "/").concat(service).concat(".caddy");
    r.push(Step { op: Op::WriteFile { content, path, privileged: doas }, required: true });
    r.push(must(maybe_doas("service caddy reload", doas)));
    r
}

/// The target of the first of `lines` that reads `reverse_proxy <target>`.
pub open spec fn first_backend(lines: Seq<Seq<char>>) -> Option<Seq<char>>
    decreases lines.len(),
{
    if lines.len() == 0 {
        None
    } else if has_prefix(lines[0], "reverse_proxy "@) {
        Some(lines[0].subrange("reverse_proxy "@.len() as int, lines[0].len() as int))
    } else {
        first_backend(lines.drop_first())
    }
}

/// Where an installed proxy configuration sends its traffic.
pub fn proxy_backend(conf: &str) -> (r: Option<String>)
    ensures
        crate::remote::opt_view(r) == first_backend(nonblank_lines(conf@)),
{
    let lines = lines_of(conf);
    let ghost lv = nonblank_lines(conf@);
    let key = "reverse_proxy ";
    let n = chars_of(key).len();
    let mut i: usize = 0;
    assert(lv.subrange(0, lv.len() as int) =~= lv);
    while i < lines.len()
        invariant
            i <= lines.len(),
            key@ == "reverse_proxy "@,
            lv == nonblank_lines(conf@),
            lines@.map_values(|l: String| l@) == lv,
            n == key@.len(),
            first_backend(lv) == first_backend(lv.subrange(i as int, lv.len() as int)),
        decreases lines.len() - i,
    {
        assert(lv.subrange(i as int, lv.len() as int).drop_first() =~= lv.subrange(i + 1, lv.len() as int));
        assert(lv[i as int] == lines@[i as int]@);
        assert(lv.subrange(i as int, lv.len() as int)[0] == lv[i as int]);
        if starts_with(lines[i].as_str(), key) {
            let v = chars_of(lines[i].as_str());
            let b = string_of(&v, n, v.len());
            assert(has_prefix(lv.subrange(i as int, lv.len() as int)[0], "reverse_proxy "@));
            assert(first_backend(lv.subrange(i as int, lv.len() as int)) == Some(b@));
            return Some(b);
        }
        i = i + 1;
    }
    None
}

} // verus!
