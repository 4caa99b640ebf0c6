//! The report that a user can copy for support.

use vstd::prelude::*;

use crate::app::expiry::full_time;
use crate::app::ArcTrackerSyncApp;
use crate::launch::SyncKeySourceKind;
use crate::numerals::{bool_text, to_decimal};
use crate::text::{cat2, cat4, cat5, joined};
use crate::app::data::{CaptureStats, TokenObservation};
use crate::app::expiry::{tellable_expiry, time_text};
use crate::app::redaction::scrub;
use crate::app::AppModel;
use crate::launch::platform_label;
use crate::launch::readiness::status_label;
use crate::launch::sync_key::SourceModel;
use crate::launch::SkippedSyncKey;
use crate::numerals::decimal;
use crate::text::{join, opt_view, views};

verus! {

/// What the report needs from the surroundings.
#[derive(Debug, Clone, PartialEq, Eq)]
pub struct DiagnosticFacts {
    pub version: String,
    pub capture_ready: bool,
    /// What the capture method is called.
    pub capture_method: String,
    /// The version of Npcap, where it is installed.
    pub npcap: Option<String>,
}

/// The text, or a dash where there is none.
pub open spec fn or_dash(text: Option<Seq<char>>) -> Seq<char> {
    match text {
        Some(text) => text,
        None => "-"@,
    }
}

/// `true` or `false`.
pub open spec fn yes_no(b: bool) -> Seq<char> {
    if b {
        "true"@
    } else {
        "false"@
    }
}

/// A number in decimal.
pub open spec fn digits(n: u64) -> Seq<char> {
    decimal(n as nat)
}

/// The name of a kind of sync key.
pub open spec fn kind_name(kind: SyncKeySourceKind) -> Seq<char> {
    match kind {
        SyncKeySourceKind::ProcessEnv => "ProcessEnv"@,
        SyncKeySourceKind::Registry => "Registry"@,
        SyncKeySourceKind::AppOwned => "AppOwned"@,
    }
}

/// What is said of the program and the game.
pub open spec fn setup_lines(m: AppModel, facts: DiagnosticFacts) -> Seq<Seq<char>> {
    seq![
        "ARCTracker Sync v"@ + facts.version@,
        "Locale: "@ + m.ui.locale,
        "Platform: "@ + platform_label(m.launcher.readiness.platform),
        "Launcher: "@ + status_label(m.launcher.readiness.status),
        "Launcher detail: "@ + m.launcher.readiness.detail,
        "Game running: "@ + yes_no(m.launcher.game_running),
        "Capture ready: "@ + yes_no(facts.capture_ready),
        "Capture method: "@ + facts.capture_method@,
        "Npcap: "@ + (match facts.npcap {
            Some(version) => version@,
            None => "not installed"@,
        }),
        "Account synced: "@ + yes_no(m.submit.token_submitted),
        "Inventory sync enabled: "@ + yes_no(m.submit.sync_enabled),
        "Connection active: "@ + yes_no(m.capture.active),
    ]
}

/// What is said of the capture, up to the connections.
pub open spec fn traffic_lines(stats: CaptureStats) -> Seq<Seq<char>> {
    seq![
        "Activity: "@ + digits(stats.packets_seen),
        "Connection activity: "@ + digits(stats.tls_segments_processed),
        "Game sessions: "@ + digits(stats.tls_embark_sni_hellos),
        "Account matches: "@ + digits(stats.http1_bearer_headers),
        "Setup entries: "@ + digits(stats.sync_key_entries),
        "TLS hellos client/server: "@ + digits(stats.tls_client_hellos) + " / "@ + digits(
            stats.tls_server_hellos,
        ),
        "TLS keys established: "@ + digits(stats.tls_keys_established),
        "TLS missing keys: "@ + digits(stats.tls_missing_keys),
        "Embark missing-key sessions: "@ + digits(stats.embark_missing_key_sessions) + " (last: "@
            + or_dash(opt_view(stats.last_embark_missing_key)) + ")"@,
        "Encrypted but not decrypted: "@ + digits(stats.tls_encrypted_no_decrypt),
    ]
}

/// What is said of the capture, from the decryption on.
pub open spec fn content_lines(
    stats: CaptureStats,
    token: Option<TokenObservation>,
) -> Seq<Seq<char>> {
    seq![
        "Decrypted records: "@ + digits(stats.decrypted_records),
        "Decrypt errors: "@ + digits(stats.tls_decrypt_errors) + " (last: "@ + or_dash(
            opt_view(stats.last_tls_decrypt_error),
        ) + ")"@,
        "App data to-server / to-client: "@ + digits(stats.tls_inner_app_data_to_server) + " / "@
            + digits(stats.tls_inner_app_data_to_client),
        "HTTP candidates / embark hosts: "@ + digits(stats.http1_candidates) + " / "@ + digits(
            stats.http1_embark_hosts,
        ),
        "Last HTTP: "@ + or_dash(opt_view(stats.last_http1_method)) + " "@ + or_dash(
            opt_view(stats.last_http1_host),
        ) + (" "@ + or_dash(opt_view(stats.last_http1_path))),
        "Token expires: "@ + or_dash(expiry_of(token)),
        "Packet truncations: "@ + digits(stats.packet_truncations) + " ("@ + digits(
            stats.packet_truncated_bytes,
        ) + " bytes)"@,
    ]
}

/// When a token expires, in words.
pub open spec fn expiry_of(token: Option<TokenObservation>) -> Option<Seq<char>> {
    match token {
        Some(token) => match token.expires_at {
            Some(time) => time_text(time.seconds, time.offset, "%Y-%m-%d %H:%M:%S"@),
            None => None,
        },
        None => None,
    }
}

/// What is said of the sync key: who chose it, and where it is.
pub open spec fn source_text(source: Option<SourceModel>) -> Seq<char> {
    match source {
        Some(source) => kind_name(source.kind) + " ("@ + source.path + ")"@,
        None => "-"@,
    }
}

/// What is said of the sync.
pub open spec fn sync_lines(m: AppModel) -> Seq<Seq<char>> {
    seq![
        "Sync key source: "@ + source_text(m.capture.sync_key_source),
        "Sync key reloads: "@ + digits(m.capture.stats.sync_key_reloads),
        "Signed in: "@ + yes_no(m.session.auth_token is Some),
        "Token host: "@ + (match m.capture.latest_token {
            Some(token) => token.host@,
            None => "-"@,
        }),
        "Sync submit attempts: "@ + digits(m.submit.attempts as u64) + " (in flight: "@ + yes_no(
            m.submit.pending,
        ) + ")"@,
        "Sync retry: "@ + digits(m.submit.failures as u64) + " consecutive failures"@ + (
        if m.submit.gave_up {
            " (paused — Try again to resume)"@
        } else {
            ""@
        }),
        "Last sync error: "@ + or_dash(m.submit.last_error),
    ]
}

/// A line for each override of the sync key that was passed over.
pub open spec fn skipped_lines(skipped: Seq<SkippedSyncKey>) -> Seq<Seq<char>> {
    skipped.map_values(
        |s: SkippedSyncKey| "Skipped SSLKEYLOGFILE (not a file): "@ + s.path@,
    )
}

/// A line for each event of the log.
pub open spec fn event_lines(messages: Seq<Seq<char>>) -> Seq<Seq<char>> {
    messages.map_values(|text: Seq<char>| "  "@ + text)
}

/// All lines of the report.
pub open spec fn report_lines(m: AppModel, facts: DiagnosticFacts) -> Seq<Seq<char>> {
    setup_lines(m, facts) + traffic_lines(m.capture.stats) + content_lines(
        m.capture.stats,
        m.capture.latest_token,
    ) + sync_lines(m) + skipped_lines(m.capture.sync_key_skipped) + seq!["Events:"@] + event_lines(
        m.messages,
    )
}

fn dash(text: &Option<String>) -> (r: String)
    ensures
        r@ == or_dash(opt_view(*text)),
{
    match text {
        Some(text) => text.clone(),
        None => "-".to_owned(),
    }
}

fn number_line(label: &str, n: u64) -> (r: String)
    ensures
        r@ == label@ + digits(n),
{
    let number = to_decimal(n);
    cat2(label, number.as_str())
}

fn pair_line(label: &str, a: u64, b: u64) -> (r: String)
    ensures
        r@ == label@ + digits(a) + " / "@ + digits(b),
{
    let first = to_decimal(a);
    let second = to_decimal(b);
    cat4(label, first.as_str(), " / ", second.as_str())
}

fn last_line(label: &str, n: u64, text: &Option<String>) -> (r: String)
    ensures
        r@ == label@ + digits(n) + " (last: "@ + or_dash(opt_view(*text)) + ")"@,
{
    let number = to_decimal(n);
    let shown = dash(text);
    cat5(label, number.as_str(), " (last: ", shown.as_str(), ")")
}

fn http_line(
    method: &Option<String>,
    host: &Option<String>,
    path: &Option<String>,
) -> (r: String)
    ensures
        r@ == "Last HTTP: "@ + or_dash(opt_view(*method)) + " "@ + or_dash(opt_view(*host)) + (" "@
            + or_dash(opt_view(*path))),
{
    let method = dash(method);
    let host = dash(host);
    let path = dash(path);
    let tail = cat2(" ", path.as_str());
    cat5("Last HTTP: ", method.as_str(), " ", host.as_str(), tail.as_str())
}

impl ArcTrackerSyncApp {
    fn setup_text(&self, facts: &DiagnosticFacts) -> (r: Vec<String>)
        ensures
            views(r@) == setup_lines(self@, *facts),
    {
        let npcap = match &facts.npcap {
            Some(version) => version.as_str(),
            None => "not installed",
        };
        let mut r: Vec<String> = Vec::new();
        r.push(cat2("ARCTracker Sync v", facts.version.as_str()));
        r.push(cat2("Locale: ", self.ui.locale.as_str()));
        r.push(cat2("Platform: ", self.launcher.readiness.platform.label()));
        r.push(cat2("Launcher: ", self.launcher.readiness.status.label()));
        r.push(cat2("Launcher detail: ", self.launcher.readiness.detail.as_str()));
        r.push(cat2("Game running: ", bool_text(self.launcher.game_running)));
        r.push(cat2("Capture ready: ", bool_text(facts.capture_ready)));
        r.push(cat2("Capture method: ", facts.capture_method.as_str()));
        r.push(cat2("Npcap: ", npcap));
        r.push(cat2("Account synced: ", bool_text(self.submit.token_submitted)));
        r.push(cat2("Inventory sync enabled: ", bool_text(self.submit.sync_enabled)));
        r.push(cat2("Connection active: ", bool_text(self.capture.active)));
        r
    }

    fn sync_text(&self) -> (r: Vec<String>)
        ensures
            views(r@) == sync_lines(self@),
    {
        let source = match &self.capture.sync_key_source {
            Some(source) => {
                let kind = match source.kind {
                    SyncKeySourceKind::ProcessEnv => "ProcessEnv",
                    SyncKeySourceKind::Registry => "Registry",
                    SyncKeySourceKind::AppOwned => "AppOwned",
                };
                cat4(kind, " (", source.path.as_str(), ")")
            },
            None => "-".to_owned(),
        };
        let host = match &self.capture.latest_token {
            Some(token) => token.host.as_str(),
            None => "-",
        };
        let attempts = to_decimal(self.submit.attempts as u64);
        let failures = to_decimal(self.submit.failures as u64);
        let paused = if self.submit.gave_up {
            " (paused — Try again to resume)"
        } else {
            ""
        };
        let error = dash(&self.submit.last_error);
        let mut r: Vec<String> = Vec::new();
        r.push(cat2("Sync key source: ", source.as_str()));
        r.push(number_line("Sync key reloads: ", self.capture.stats.sync_key_reloads));
        r.push(cat2("Signed in: ", bool_text(self.session.auth_token.is_some())));
        r.push(cat2("Token host: ", host));
        r.push(
            cat5(
                "Sync submit attempts: ",
                attempts.as_str(),
                " (in flight: ",
                bool_text(self.submit.pending),
                ")",
            ),
        );
        r.push(cat4("Sync retry: ", failures.as_str(), " consecutive failures", paused));
        r.push(cat2("Last sync error: ", error.as_str()));
        r
    }

    fn traffic_text(&self) -> (r: Vec<String>)
        ensures
            views(r@) == traffic_lines(self@.capture.stats),
    {
        let stats = &self.capture.stats;
        let mut r: Vec<String> = Vec::new();
        r.push(number_line("Activity: ", stats.packets_seen));
        r.push(number_line("Connection activity: ", stats.tls_segments_processed));
        r.push(number_line("Game sessions: ", stats.tls_embark_sni_hellos));
        r.push(number_line("Account matches: ", stats.http1_bearer_headers));
        r.push(number_line("Setup entries: ", stats.sync_key_entries));
        r.push(
            pair_line(
                "TLS hellos client/server: ",
                stats.tls_client_hellos,
                stats.tls_server_hellos,
            ),
        );
        r.push(number_line("TLS keys established: ", stats.tls_keys_established));
        r.push(number_line("TLS missing keys: ", stats.tls_missing_keys));
        r.push(
            last_line(
                "Embark missing-key sessions: ",
                stats.embark_missing_key_sessions,
                &stats.last_embark_missing_key,
            ),
        );
        r.push(number_line("Encrypted but not decrypted: ", stats.tls_encrypted_no_decrypt));
        r
    }

    fn content_text(&self) -> (r: Vec<String>)
        ensures
            views(r@) == content_lines(self@.capture.stats, self@.capture.latest_token),
            tellable_expiry(self@) ==> expiry_of(self@.capture.latest_token) is Some,
    {
        let stats = &self.capture.stats;
        let expires = match &self.capture.latest_token {
            Some(token) => match token.expires_at {
                Some(time) => full_time(time),
                None => None,
            },
            None => None,
        };
        let expires = dash(&expires);
        let truncations = to_decimal(stats.packet_truncations);
        let truncated = to_decimal(stats.packet_truncated_bytes);
        let mut r: Vec<String> = Vec::new();
        r.push(number_line("Decrypted records: ", stats.decrypted_records));
        r.push(
            last_line("Decrypt errors: ", stats.tls_decrypt_errors, &stats.last_tls_decrypt_error),
        );
        r.push(
            pair_line(
                "App data to-server / to-client: ",
                stats.tls_inner_app_data_to_server,
                stats.tls_inner_app_data_to_client,
            ),
        );
        r.push(
            pair_line(
                "HTTP candidates / embark hosts: ",
                stats.http1_candidates,
                stats.http1_embark_hosts,
            ),
        );
        r.push(
            http_line(&stats.last_http1_method, &stats.last_http1_host, &stats.last_http1_path),
        );
        r.push(cat2("Token expires: ", expires.as_str()));
        r.push(
            cat5(
                "Packet truncations: ",
                truncations.as_str(),
                " (",
                truncated.as_str(),
                " bytes)",
            ),
        );
        r
    }

    fn skipped_text(&self) -> (r: Vec<String>)
        ensures
            views(r@) == skipped_lines(self@.capture.sync_key_skipped),
    {
        let skipped = &self.capture.sync_key_skipped;
        let ghost all = skipped_lines(skipped@);
        let mut r: Vec<String> = Vec::new();
        let mut i: usize = 0;
        while i < skipped.len()
            invariant
                i <= skipped@.len(),
                all == skipped_lines(skipped@),
                views(r@) == all.take(i as int),
            decreases skipped.len() - i,
        {
            let ghost before = r@;
            r.push(cat2("Skipped SSLKEYLOGFILE (not a file): ", skipped[i].path.as_str()));
            assert(views(r@) =~= views(before).push(all[i as int]));
            i += 1;
        }
        r
    }

    fn event_text(&self) -> (r: Vec<String>)
        ensures
            views(r@) == event_lines(self@.messages),
    {
        let messages = &self.messages;
        let ghost all = event_lines(views(messages@));
        let mut r: Vec<String> = Vec::new();
        let mut i: usize = 0;
        while i < messages.len()
            invariant
                i <= messages@.len(),
                all == event_lines(views(messages@)),
                views(r@) == all.take(i as int),
            decreases messages.len() - i,
        {
            r.push(cat2("  ", messages[i].as_str()));
            assert(all.take(i as int).push(all[i as int]) =~= all.take(i + 1));
            i += 1;
        }
        r
    }

    /// The lines of the report.
    pub fn diagnostic_lines(&self, facts: &DiagnosticFacts) -> (r: Vec<String>)
        ensures
            views(r@) == report_lines(self@, *facts),
            tellable_expiry(self@) ==> expiry_of(self@.capture.latest_token) is Some,
    {
        let mut r = self.setup_text(facts);
        let ghost a = r@;
        let mut traffic = self.traffic_text();
        let ghost b = traffic@;
        let mut content = self.content_text();
        let ghost c = content@;
        let mut sync = self.sync_text();
        let ghost d = sync@;
        let mut skipped = self.skipped_text();
        let ghost e = skipped@;
        let mut events = self.event_text();
        let ghost f = events@;
        r.append(&mut traffic);
        r.append(&mut content);
        r.append(&mut sync);
        r.append(&mut skipped);
        r.push("Events:".to_owned());
        r.append(&mut events);
        assert(views(r@) =~= views(a) + views(b) + views(c) + views(d) + views(e) + seq![
            "Events:"@,
        ] + views(f));
        r
    }

    /// The report for support: every line, with user names scrubbed.
    pub fn copy_diagnostics(&self, facts: &DiagnosticFacts) -> (r: String)
        ensures
            r@ == scrub(join(report_lines(self@, *facts), "\n"@)),
            tellable_expiry(self@) ==> expiry_of(self@.capture.latest_token) is Some,
    {
        let lines = self.diagnostic_lines(facts);
        let text = joined(&lines, "\n");
        Self::scrub_paths(text.as_str())
    }
}

} // verus!
