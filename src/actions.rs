//! The fixed catalogue of maintenance actions and how the outcome of one run
//! is reported.

use vstd::prelude::*;

use crate::text::{int_text, join, trim, decimal, trimmed};

verus! {

/// How much confirmation an action needs before it runs.
#[derive(Clone, Copy, Debug, PartialEq, Eq, Structural)]
pub enum Risk {
    Safe,
    Confirm,
    Danger,
}

/// The label shown for each risk tier.
pub open spec fn risk_label(r: Risk) -> Seq<char> {
    match r {
        Risk::Safe => "safe"@,
        Risk::Confirm => "confirm"@,
        Risk::Danger => "danger"@,
    }
}

impl Risk {
    pub fn label(self) -> (r: &'static str)
        ensures
            r@ == risk_label(self),
    {
        match self {
            Risk::Safe => "safe",
            Risk::Confirm => "confirm",
            Risk::Danger => "danger",
        }
    }
}

/// One entry of the catalogue: a command with a fixed argument list.
#[derive(Clone, Debug)]
pub struct DashboardAction {
    pub name: &'static str,
    pub command: &'static str,
    pub args: Vec<&'static str>,
    pub risk: Risk,
}

/// What an action is, as plain text.
pub struct ActionView {
    pub name: Seq<char>,
    pub command: Seq<char>,
    pub args: Seq<Seq<char>>,
    pub risk: Risk,
}

impl View for DashboardAction {
    type V = ActionView;

    open spec fn view(&self) -> ActionView {
        ActionView {
            name: self.name@,
            command: self.command@,
            args: self.args@.map_values(|a: &'static str| a@),
            risk: self.risk,
        }
    }
}

pub open spec fn action_view(name: &str, command: &str, arg: &str, risk: Risk) -> ActionView {
    ActionView { name: name@, command: command@, args: seq![arg@], risk }
}

/// The catalogue, in the order in which it is offered.
pub open spec fn catalogue() -> Seq<ActionView> {
    seq![
        action_view("Check Update Status", "bash", "scripts/check-update.sh", Risk::Safe),
        action_view("Validate Bots Config", "node", "scripts/validate_bots.js", Risk::Safe),
        action_view("Analyze Orders", "node", "scripts/analyze-orders.js", Risk::Safe),
        action_view("Analyze Repo", "node", "scripts/analyze-git.js", Risk::Safe),
        action_view("Create Bot Symlinks", "bash", "scripts/create-bot-symlinks.sh", Risk::Confirm),
        action_view("Clear Logs", "bash", "scripts/clear-logs.sh", Risk::Danger),
        action_view("Clear Orders", "bash", "scripts/clear-orders.sh", Risk::Danger),
        action_view("Clear All", "bash", "scripts/clear-all.sh", Risk::Danger),
    ]
}

fn entry(name: &'static str, command: &'static str, arg: &'static str, risk: Risk) -> (r: DashboardAction)
    ensures
        r@ == action_view(name, command, arg, risk),
{
    let args = vec![arg];
    let r = DashboardAction { name, command, args, risk };
    assert(r@.args =~= seq![arg@]);
    r
}

/// The fixed catalogue of maintenance actions.
pub fn dashboard_actions() -> (r: Vec<DashboardAction>)
    ensures
        r@.len() == catalogue().len(),
        forall|i: int| 0 <= i < r@.len() ==> #[trigger] r@[i]@ == catalogue()[i],
{
    let mut r: Vec<DashboardAction> = Vec::new();
    r.push(entry("Check Update Status", "bash", "scripts/check-update.sh", Risk::Safe));
    r.push(entry("Validate Bots Config", "node", "scripts/validate_bots.js", Risk::Safe));
    r.push(entry("Analyze Orders", "node", "scripts/analyze-orders.js", Risk::Safe));
    r.push(entry("Analyze Repo", "node", "scripts/analyze-git.js", Risk::Safe));
    r.push(entry("Create Bot Symlinks", "bash", "scripts/create-bot-symlinks.sh", Risk::Confirm));
    r.push(entry("Clear Logs", "bash", "scripts/clear-logs.sh", Risk::Danger));
    r.push(entry("Clear Orders", "bash", "scripts/clear-orders.sh", Risk::Danger));
    r.push(entry("Clear All", "bash", "scripts/clear-all.sh", Risk::Danger));
    r
}

/// The report of a run that exited successfully: the risk label and the
/// action's name, then the trimmed standard output, or the trimmed standard
/// error where the output is blank.
pub open spec fn success_report(risk: Risk, name: Seq<char>, stdout: Seq<char>, stderr: Seq<char>) -> Seq<char> {
    let body = if trimmed(stdout).len() == 0 { trimmed(stderr) } else { trimmed(stdout) };
    seq!['['] + risk_label(risk) + "] "@ + name + seq!['\n'] + body
}

/// The exit code as reported: its decimal value, or `unknown` when the
/// process ended without one.
pub open spec fn code_text(code: Option<i32>) -> Seq<char> {
    match code {
        Some(c) => int_text(c as int),
        None => "unknown"@,
    }
}

/// The report of a run that failed.
pub open spec fn failure_report(risk: Risk, name: Seq<char>, code: Option<i32>, stderr: Seq<char>) -> Seq<char> {
    seq!['['] + risk_label(risk) + "] "@ + name + " failed (code "@ + code_text(code) + ")\n"@ + trimmed(stderr)
}

impl DashboardAction {
    /// Folds what a finished run of this action left behind into its report:
    /// `Ok` when the process exited successfully, `Err` otherwise.
    pub fn outcome(&self, success: bool, code: Option<i32>, stdout: &str, stderr: &str) -> (r: Result<String, String>)
        ensures
            success ==> (r matches Ok(t) && t@ == success_report(self.risk, self.name@, stdout@, stderr@)),
            !success ==> (r matches Err(e) && e@ == failure_report(self.risk, self.name@, code, stderr@)),
    {
        let label = self.risk.label();
        let head = join("[", label);
        let head = join(head.as_str(), "] ");
        let head = join(head.as_str(), self.name);
        let err = trim(stderr);
        if success {
            let out = trim(stdout);
            let body = if out.unicode_len() == 0 { err } else { out };
            let head = join(head.as_str(), "\n");
            let text = join(head.as_str(), body.as_str());
            proof { reveal_strlit("["); reveal_strlit("\n"); }
            Ok(text)
        } else {
            let code_part = match code {
                Some(c) => decimal(c),
                None => String::from_str("unknown"),
            };
            let head = join(head.as_str(), " failed (code ");
            let head = join(head.as_str(), code_part.as_str());
            let head = join(head.as_str(), ")\n");
            let text = join(head.as_str(), err.as_str());
            proof { reveal_strlit("["); }
            Err(text)
        }
    }
}

} // verus!
