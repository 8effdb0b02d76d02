//! The report of the server's status.
use vstd::prelude::*;
use crate::config::{Config, host_and_port_spec};
use crate::errors::{DeliveryResult, missing};
use crate::json::server_status::{ServerStatus, status_color};
use crate::text::{decimal, owned, usize_to_string};

verus! {

/// A piece of a report: its colour, its text, and whether a line break
/// follows.
pub type ReportLine = (String, String, bool);

/// The view of report pieces.
pub open spec fn report_view(v: Seq<ReportLine>) -> Seq<(Seq<char>, Seq<char>, bool)> {
    v.map_values(|l: ReportLine| (l.0@, l.1@, l.2))
}

/// The colour a status word is shown in.
pub open spec fn color_of(s: Seq<char>) -> Seq<char> {
    if s == "up"@ { "green"@ } else { "red"@ }
}

/// A labelled status: the label on its own line, then `status: ` and the
/// coloured word.
pub open spec fn status_entry(label: Seq<char>, indent: Seq<char>, s: Seq<char>) -> Seq<(Seq<char>, Seq<char>, bool)> {
    seq![("white"@, label, true), ("white"@, indent + "status: "@, false), (color_of(s), s, true)]
}

/// The advice shown when the server runs in FIPS mode.
pub open spec fn fips_advice() -> Seq<char> {
    "\nYour Automate Server is configured in FIPS mode.\nPlease add the following to your cli.toml to enable Automate FIPS mode on your machine:\n\nfips = true\nfips_git_port = \"OPEN_PORT\"\n\nReplace OPEN_PORT with any port that is free on your machine."@
}

/// The report of a server's status, asked of `host` in `elapsed_ms`
/// milliseconds.
pub open spec fn status_report_spec(s: ServerStatus, host: Seq<char>, elapsed_ms: nat) -> Seq<(Seq<char>, Seq<char>, bool)> {
    let u = s.upstreams@[0];
    seq![
        ("white"@, "Status information for Automate server "@ + host + "...\n"@, true),
        ("white"@, "Status: "@, false),
        (color_of(s.status@), s.status@, false),
    ] + (if s.status@ == "up"@ {
        seq![("green"@, " (request took "@ + decimal(elapsed_ms) + " ms)"@, true)]
    } else {
        Seq::empty()
    }) + seq![("white"@, "Configuration Mode: "@ + s.configuration_mode@, true)] + (match s.fips_mode {
        Some(f) => seq![("white"@, "FIPS Mode: "@ + (if f { "enabled"@ } else { "disabled"@ }), true)],
        None => Seq::empty(),
    }) + seq![("white"@, "Upstreams:"@, true)] + status_entry("  Lsyncd:"@, "    "@, u.lsyncd.status@)
        + status_entry("  PostgreSQL:"@, "    "@, u.postgres.status@) + status_entry(
        "  RabbitMQ:"@,
        "    "@,
        u.rabbitmq.status@,
    ) + (match u.rabbitmq.node_health {
        Some(n) => status_entry("    node_health:"@, "      "@, n.status@),
        None => Seq::empty(),
    }) + (match u.rabbitmq.vhost_aliveness {
        Some(v) => status_entry("    vhost_aliveness:"@, "      "@, v.status@),
        None => Seq::empty(),
    }) + (if s.fips_mode == Some(true) {
        seq![("white"@, fips_advice(), true)]
    } else {
        Seq::empty()
    })
}

/// Appends a piece to a report.
fn put(out: &mut Vec<ReportLine>, color: &str, text: String, newline: bool)
    ensures
        report_view(final(out)@) == report_view(old(out)@).push((color@, text@, newline)),
{
    out.push((owned(color), text, newline));
    assert(report_view(out@) =~= report_view(old(out)@).push((color@, text@, newline)));
}

/// Appends a labelled status.
fn put_status(out: &mut Vec<ReportLine>, label: &str, indent: &str, s: &str)
    ensures
        report_view(final(out)@) == report_view(old(out)@) + status_entry(label@, indent@, s@),
{
    put(out, "white", owned(label), true);
    let mut t = owned(indent);
    t.append("status: ");
    put(out, "white", t, false);
    let c = status_color(s);
    put(out, c, owned(s), true);
    assert(report_view(out@) =~= report_view(old(out)@) + status_entry(label@, indent@, s@));
}

/// Reporting the server's status.
pub struct StatusCommand<'n> {
    pub options: &'n crate::cli::StatusClapOptions,
    pub config: &'n crate::config::Config,
}

impl<'n> StatusCommand<'n> {
    /// The report of a server's status, once read from the server (with
    /// `pong` read as `up`), asked in `elapsed_ms` milliseconds.
    pub fn report(config: &Config, s: &ServerStatus, elapsed_ms: usize) -> (r: DeliveryResult<Vec<ReportLine>>)
        requires
            s.upstreams@.len() > 0,
        ensures
            match host_and_port_spec(config@) {
                Err(m) => missing(r, m),
                Ok(h) => r matches Ok(v) && report_view(v@) == status_report_spec(*s, h, elapsed_ms as nat),
            },
    {
        let host = config.api_host_and_port()?;
        let mut out: Vec<ReportLine> = Vec::new();
        let mut t = owned("Status information for Automate server ");
        t.append(host.as_str());
        t.append("...\n");
        put(&mut out, "white", t, true);
        put(&mut out, "white", owned("Status: "), false);
        put(&mut out, status_color(s.status.as_str()), s.status.clone(), false);
        let ghost a = report_view(out@);
        if crate::text::str_eq(s.status.as_str(), "up") {
            let mut m = owned(" (request took ");
            let n = usize_to_string(elapsed_ms);
            m.append(n.as_str());
            m.append(" ms)");
            put(&mut out, "green", m, true);
        }
        let ghost b = report_view(out@);
        let mut cm = owned("Configuration Mode: ");
        cm.append(s.configuration_mode.as_str());
        put(&mut out, "white", cm, true);
        let ghost c = report_view(out@);
        match s.fips_mode {
            Some(f) => {
                let mut fm = owned("FIPS Mode: ");
                fm.append(if f { "enabled" } else { "disabled" });
                put(&mut out, "white", fm, true);
            },
            None => {},
        }
        let ghost d = report_view(out@);
        put(&mut out, "white", owned("Upstreams:"), true);
        let u = &s.upstreams[0];
        put_status(&mut out, "  Lsyncd:", "    ", u.lsyncd.status.as_str());
        put_status(&mut out, "  PostgreSQL:", "    ", u.postgres.status.as_str());
        put_status(&mut out, "  RabbitMQ:", "    ", u.rabbitmq.status.as_str());
        let ghost e = report_view(out@);
        match &u.rabbitmq.node_health {
            Some(n) => put_status(&mut out, "    node_health:", "      ", n.status.as_str()),
            None => {},
        }
        let ghost f = report_view(out@);
        match &u.rabbitmq.vhost_aliveness {
            Some(v) => put_status(&mut out, "    vhost_aliveness:", "      ", v.status.as_str()),
            None => {},
        }
        let ghost g = report_view(out@);
        let advise = match s.fips_mode {
            Some(x) => x,
            None => false,
        };
        if advise {
            put(&mut out, "white", owned("\nYour Automate Server is configured in FIPS mode.\nPlease add the following to your cli.toml to enable Automate FIPS mode on your machine:\n\nfips = true\nfips_git_port = \"OPEN_PORT\"\n\nReplace OPEN_PORT with any port that is free on your machine."), true);
        }
        proof {
            reveal_strlit("up");
            reveal_strlit("green");
            reveal_strlit("red");
        }
        assert(report_view(out@) =~= status_report_spec(*s, host@, elapsed_ms as nat));
        Ok(out)
    }
}

} // verus!
