//! The `doctor` health check: the configuration it reports, then the
//! checks it runs against the server, one after the other, stopping at the
//! first that fails.

use vstd::prelude::*;
use vstd::string::*;

use crate::config::{cookies_file_name, path_join, Config};
use crate::text::{decimal, push_decimal};

verus! {

/// The lines that report the resolved configuration; the password itself
/// is never shown, only whether it is set.
pub open spec fn config_report(cfg: Config) -> Seq<Seq<char>> {
    seq![
        "=== wf doctor ==="@,
        "base_url            : "@ + cfg.base_url@,
        "password            : "@ + if cfg.password is Some {
            "<set>"@
        } else {
            "<missing>"@
        },
        "cache_dir           : "@ + cfg.cache_dir@,
        "cookies_path        : "@ + path_join(cfg.cache_dir@, cookies_file_name()),
    ]
}

/// The lines that report the resolved configuration.
pub fn config_report_lines(cfg: &Config) -> (res: Vec<String>)
    ensures
        res@.len() == 5,
        forall|i: int| 0 <= i < 5 ==> #[trigger] res@[i]@ == config_report(*cfg)[i],
{
    let mut out: Vec<String> = Vec::new();
    out.push(String::from_str("=== wf doctor ==="));
    let mut l = String::from_str("base_url            : ");
    l.append(cfg.base_url.as_str());
    out.push(l);
    let mut l = String::from_str("password            : ");
    if cfg.password.is_some() {
        l.append("<set>");
    } else {
        l.append("<missing>");
    }
    out.push(l);
    let mut l = String::from_str("cache_dir           : ");
    l.append(cfg.cache_dir.as_str());
    out.push(l);
    let mut l = String::from_str("cookies_path        : ");
    let p = cfg.cookies_path();
    l.append(p.as_str());
    out.push(l);
    out
}

/// The report never shows the password's text: two configurations that
/// differ only in their passwords, both set or both missing, give the same
/// report.
pub proof fn lemma_report_hides_password(a: Config, b: Config)
    requires
        a.base_url == b.base_url,
        a.cache_dir == b.cache_dir,
        a.password is Some <==> b.password is Some,
    ensures
        config_report(a) == config_report(b),
{
}

/// A check that `doctor` runs against the server, in the order they run.
#[derive(Debug, Clone, Copy, PartialEq, Eq)]
pub enum DoctorStage {
    /// A plain, unauthenticated request to the base URL.
    Connectivity,
    /// A login round trip.
    Login,
    /// An authenticated call to `/api/v1/auth/me`.
    AuthedCall,
}

/// What a check found.
#[derive(Debug, Clone, PartialEq, Eq)]
pub enum DoctorFinding {
    /// The server answered with this HTTP status.
    Reachable(u16),
    /// The login succeeded; the session expires at this instant (as text).
    LoggedIn(String),
    /// The call answered with this JSON text.
    Answered(String),
    /// The check failed with this message.
    Failed(String),
}

/// The text printed before a check runs.
pub open spec fn stage_label(stage: DoctorStage) -> Seq<char> {
    match stage {
        DoctorStage::Connectivity => "connectivity        : "@,
        DoctorStage::Login => "login               : "@,
        DoctorStage::AuthedCall => "authed call (/auth/me): "@,
    }
}

/// The text that completes a check's line once it has run.
pub open spec fn finding_text(f: DoctorFinding) -> Seq<char> {
    match f {
        DoctorFinding::Reachable(status) => "HTTP "@ + decimal(status as nat) + " \u{2713}"@,
        DoctorFinding::LoggedIn(expires) => "ok, expires "@ + expires@,
        DoctorFinding::Answered(v) => v@ + " \u{2713}"@,
        DoctorFinding::Failed(e) => "\u{2717} "@ + e@,
    }
}

/// The check to run after `stage` found `f`: none after a failure or after
/// the last check.
pub open spec fn next_stage(stage: DoctorStage, f: DoctorFinding) -> Option<DoctorStage> {
    if f is Failed {
        None
    } else {
        match stage {
            DoctorStage::Connectivity => Some(DoctorStage::Login),
            DoctorStage::Login => Some(DoctorStage::AuthedCall),
            DoctorStage::AuthedCall => None,
        }
    }
}

/// The text printed before `stage` runs.
pub fn stage_label_text(stage: DoctorStage) -> (res: String)
    ensures
        res@ == stage_label(stage),
{
    match stage {
        DoctorStage::Connectivity => String::from_str("connectivity        : "),
        DoctorStage::Login => String::from_str("login               : "),
        DoctorStage::AuthedCall => String::from_str("authed call (/auth/me): "),
    }
}

/// Takes what `stage` found: the text that completes its line, and the
/// check to run next, if any.
pub fn doctor_step(stage: DoctorStage, finding: &DoctorFinding) -> (res: (String, Option<
    DoctorStage,
>))
    ensures
        res.0@ == finding_text(*finding),
        res.1 == next_stage(stage, *finding),
{
    let text = match finding {
        DoctorFinding::Reachable(status) => {
            let mut t = String::from_str("HTTP ");
            push_decimal(&mut t, *status as u64);
            t.append(" \u{2713}");
            t
        },
        DoctorFinding::LoggedIn(expires) => {
            let mut t = String::from_str("ok, expires ");
            t.append(expires.as_str());
            t
        },
        DoctorFinding::Answered(v) => {
            let mut t = v.clone();
            t.append(" \u{2713}");
            t
        },
        DoctorFinding::Failed(e) => {
            let mut t = String::from_str("\u{2717} ");
            t.append(e.as_str());
            t
        },
    };
    let next = match finding {
        DoctorFinding::Failed(_) => None,
        _ => match stage {
            DoctorStage::Connectivity => Some(DoctorStage::Login),
            DoctorStage::Login => Some(DoctorStage::AuthedCall),
            DoctorStage::AuthedCall => None,
        },
    };
    (text, next)
}

/// Lines as printed, each followed by a line break.
pub open spec fn lines_text(lines: Seq<Seq<char>>) -> Seq<char>
    decreases lines.len(),
{
    if lines.len() == 0 {
        Seq::empty()
    } else {
        lines[0] + "\n"@ + lines_text(lines.drop_first())
    }
}

/// What the checks from `stage` on print, given what they find in turn:
/// each check's label, then, once it has run, its finding and a line break.
/// When the findings run out, the current check's label is the last thing
/// printed.
pub open spec fn checks_text(stage: Option<DoctorStage>, findings: Seq<DoctorFinding>) -> Seq<
    char,
>
    decreases findings.len(),
{
    match stage {
        None => Seq::empty(),
        Some(s) => if findings.len() == 0 {
            stage_label(s)
        } else {
            stage_label(s) + finding_text(findings[0]) + "\n"@ + checks_text(
                next_stage(s, findings[0]),
                findings.drop_first(),
            )
        },
    }
}

/// Everything `doctor` prints for the configuration `cfg` when its checks
/// find `findings` in turn.
pub open spec fn doctor_transcript(cfg: Config, findings: Seq<DoctorFinding>) -> Seq<char> {
    lines_text(config_report(cfg)) + checks_text(Some(DoctorStage::Connectivity), findings)
}

/// `doctor` never prints the password's text: for two configurations that
/// differ only in their passwords, both set or both missing, and the same
/// findings, it prints the same.
pub proof fn lemma_doctor_hides_password(a: Config, b: Config, findings: Seq<DoctorFinding>)
    requires
        a.base_url == b.base_url,
        a.cache_dir == b.cache_dir,
        a.password is Some <==> b.password is Some,
    ensures
        doctor_transcript(a, findings) == doctor_transcript(b, findings),
{
    lemma_report_hides_password(a, b);
}

} // verus!
