//! The calculator provider: an interactive session whose candidates come
//! from re-running the evaluator on the query, a veto path that evaluates
//! and prints directly, and a remembered previous result that `_` stands
//! for.

use crate::cli::Mode;
use crate::cli::ModeView;
use crate::errors::Error;
use crate::event::Action;
use crate::event::InitOutcome;
use crate::event::ResultEvent;
use crate::event::VetoAction;
use crate::options::EnvInfo;
use crate::options::SessionOptions;
use crate::text;
use vstd::prelude::*;
use vstd::string::StringExecFns;

verus! {

/// The calculator's remembered previous result: an explicitly passed
/// persistence handle, read when a session starts and written when an
/// evaluation completes. The caller loads and stores it.
pub struct CalcMemory {
    pub previous: Option<String>,
}

impl CalcMemory {
    /// A handle that remembers nothing.
    pub fn empty() -> (r: CalcMemory)
        ensures
            r.previous is None,
    {
        CalcMemory { previous: None }
    }

    /// Remembers `value` as the previous result.
    pub fn write(&mut self, value: String)
        ensures
            final(self).previous == Some(value),
    {
        self.previous = Some(value);
    }

    /// Forgets the previous result.
    pub fn clear(&mut self)
        ensures
            final(self).previous is None,
    {
        self.previous = None;
    }
}

pub struct Calc;

/// The expression that a veto invocation evaluates: the expression words
/// joined with single spaces.
pub open spec fn spec_joined_expr(expr: Seq<Seq<char>>) -> Seq<char> {
    text::join_spaces(expr)
}

impl Calc {
    /// Inspects the mode before any interface is shown: `calc --eval` is a
    /// non-interactive invocation that evaluates its expression words and
    /// prints the result, vetoing the session.
    pub fn init(&self, mode: &Mode) -> (r: InitOutcome)
        ensures
            (match mode@ {
                ModeView::Calc { eval: true, expr } => r matches InitOutcome::Veto(
                    VetoAction::PrintEvaluated { expr: e },
                ) && e@ == spec_joined_expr(expr),
                _ => r is Proceed,
            }),
    {
        match mode {
            Mode::Calc { eval: true, expr } => InitOutcome::Veto(
                VetoAction::PrintEvaluated { expr: text::join_with_spaces(expr) },
            ),
            _ => InitOutcome::Proceed,
        }
    }

    /// The expression handed to the evaluator: every `_` in the raw
    /// expression stands for the remembered previous result, when there is
    /// one.
    pub fn prepare_expression(raw: &String, memory: &CalcMemory) -> (r: String)
        ensures
            (match memory.previous {
                Some(p) => r@ == text::replace_seq(raw@, seq!['_'], p@),
                None => r@ == raw@,
            }),
    {
        match &memory.previous {
            Some(p) => {
                let chars = text::str_chars(raw.as_str());
                let mut pat: Vec<char> = Vec::new();
                pat.push('_');
                proof {
                    assert(pat@ =~= seq!['_']);
                }
                let rep = text::str_chars(p.as_str());
                let out = text::replace_chars(&chars, &pat, &rep);
                text::chars_to_string(&out)
            },
            None => raw.clone(),
        }
    }

    /// The displayed form of an evaluator reply: everything before the
    /// first ` (` annotation.
    pub fn format_result(rendered: &String) -> (r: String)
        ensures
            r@ == text::before_first(rendered@, " ("@),
    {
        proof {
            reveal_strlit(" (");
        }
        let chars = text::str_chars(rendered.as_str());
        let pat = text::str_chars(" (");
        let out = text::take_before(&chars, &pat);
        text::chars_to_string(&out)
    }

    /// Configures the session: candidates come from re-invoking this
    /// executable with `calc --eval` on the engine's query placeholder, the
    /// enter key accepts back into calc, and the header shows the
    /// remembered previous result, or `N/A` without one.
    pub fn set_options(&self, opts: &mut SessionOptions, env: &EnvInfo)
        ensures
            final(opts).cmd matches Some(c) && c@ == env.exe@ + " calc --eval '{}'"@,
            final(opts).show_cmd_error,
            final(opts).interactive,
            final(opts).bind.deep_view() == old(opts).bind.deep_view().push(
                "enter:accept(calc)"@,
            ),
            (match env.memory.previous {
                Some(p) => final(opts).header matches Some(h) && h@ == "calc - previous(_): "@
                    + p@,
                None => final(opts).header matches Some(h) && h@ == "calc - previous(_): N/A"@,
            }),
            final(opts).query == old(opts).query,
            final(opts).preview == old(opts).preview,
            final(opts).preview_window == old(opts).preview_window,
            final(opts).delimiter == old(opts).delimiter,
    {
        let mut cmd = env.exe.clone();
        cmd.append(" calc --eval '{}'");
        opts.cmd = Some(cmd);
        opts.show_cmd_error = true;
        opts.interactive = true;
        let ghost old_bind = opts.bind.deep_view();
        opts.bind.push("enter:accept(calc)".to_owned());
        proof {
            assert(opts.bind.deep_view() =~~= old_bind.push("enter:accept(calc)"@));
        }
        let mut header = "calc - previous(_): ".to_owned();
        match &env.memory.previous {
            Some(p) => {
                header.append(p.as_str());
            },
            None => {
                header.append("N/A");
                proof {
                    assert("calc - previous(_): "@ + "N/A"@ =~= "calc - previous(_): N/A"@) by {
                        reveal_strlit("calc - previous(_): ");
                        reveal_strlit("N/A");
                        reveal_strlit("calc - previous(_): N/A");
                    }
                }
            },
        }
        opts.header = Some(header);
    }

    /// The terminal action after an accepted session: evaluate the command
    /// text the user built, then show and remember its formatted result.
    pub fn run(&self, event: &ResultEvent) -> (r: Result<Action, Error>)
        ensures
            (match event {
                ResultEvent::AcceptedWithSelection { command, .. } => r matches Ok(
                    Action::EvaluateAndStore { expr },
                ) && expr@ == command@,
                _ => r matches Ok(Action::Nothing),
            }),
    {
        match event {
            ResultEvent::AcceptedWithSelection { command, .. } => Ok(
                Action::EvaluateAndStore { expr: command.clone() },
            ),
            _ => Ok(Action::Nothing),
        }
    }
}

} // verus!
