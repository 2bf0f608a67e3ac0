//! The session orchestration core: building one session's configuration
//! from environment, provider and cycle bindings; and interpreting the
//! terminal event into a provider action or a chained re-invocation.

use crate::cli::Cli;
use crate::cli::Mode;
use crate::cli::ModeView;
use crate::cli::ParseOutcome;
use crate::cli::Provider;
use crate::cli::parse_mode;
use crate::cli::provider_matches;
use crate::cli::scan_spec;
use crate::cli::spec_display_name;
use crate::cli::update_args;
use crate::errors::Error;
use crate::event::Action;
use crate::event::InitOutcome;
use crate::event::ResultEvent;
use crate::event::VetoAction;
use crate::item::Item;
use crate::options::EnvInfo;
use crate::options::SessionOptions;
use crate::options::apply_mode_cycle;
use crate::options::cycle_match;
use crate::options::is_first_cycle_match;
use crate::text;
use vstd::prelude::*;

verus! {

/// Literal token substitution: `{q}` takes the query text, then `{cq}` the
/// command text, then `{}` the first selected item's output. Each
/// replacement is applied once, left to right, and never rescans what it
/// produced. Without a selection the result is absent when the selection
/// token remains after the textual tokens were filled.
pub open spec fn spec_substitute(
    t: Seq<char>,
    q: Seq<char>,
    cq: Seq<char>,
    sel: Option<Seq<char>>,
) -> Option<Seq<char>> {
    let s1 = text::replace_seq(t, "{q}"@, q);
    let s2 = text::replace_seq(s1, "{cq}"@, cq);
    match sel {
        Some(out) => Some(text::replace_seq(s2, "{}"@, out)),
        None => if text::contains_seq(s2, "{}"@) {
            None
        } else {
            Some(s2)
        },
    }
}

/// The output of the first selected item, when anything is selected.
pub open spec fn first_output(selected: Seq<Item>) -> Option<Seq<char>> {
    if selected.len() > 0 {
        Some(selected[0].output@)
    } else {
        None
    }
}

/// Fills the tokens of a re-invocation template from the session that just
/// ended; asking for the selection token with nothing selected is an error.
pub fn substitute(template: &String, query: &String, command: &String, selected: &Vec<Item>) -> (r:
    Result<String, Error>)
    ensures
        (match spec_substitute(template@, query@, command@, first_output(selected@)) {
            Some(s) => r matches Ok(v) && v@ == s,
            None => r matches Err(Error::NoSelectionToSubstitute),
        }),
{
    proof {
        reveal_strlit("{q}");
        reveal_strlit("{cq}");
        reveal_strlit("{}");
    }
    let tc = text::str_chars(template.as_str());
    let pq = text::str_chars("{q}");
    let pcq = text::str_chars("{cq}");
    let psel = text::str_chars("{}");
    let qv = text::str_chars(query.as_str());
    let cqv = text::str_chars(command.as_str());
    let s1 = text::replace_chars(&tc, &pq, &qv);
    let s2 = text::replace_chars(&s1, &pcq, &cqv);
    if selected.len() > 0 {
        let ov = text::str_chars(selected[0].output().as_str());
        let s3 = text::replace_chars(&s2, &psel, &ov);
        Ok(text::chars_to_string(&s3))
    } else {
        if text::contains_chars(&s2, &psel) {
            Err(Error::NoSelectionToSubstitute)
        } else {
            Ok(text::chars_to_string(&s2))
        }
    }
}

/// Substitution is idempotent per invocation: a template containing none of
/// the recognised tokens comes back unchanged, whatever the query, command
/// and selection are.
pub proof fn lemma_substitute_no_tokens(
    t: Seq<char>,
    q: Seq<char>,
    cq: Seq<char>,
    sel: Option<Seq<char>>,
)
    requires
        !text::contains_seq(t, "{q}"@),
        !text::contains_seq(t, "{cq}"@),
        !text::contains_seq(t, "{}"@),
    ensures
        spec_substitute(t, q, cq, sel) == (match sel {
            Some(out) => Some(text::replace_seq(t, "{}"@, out)),
            None => Some(t),
        }),
        sel is None ==> spec_substitute(t, q, cq, sel) == Some(t),
{
    reveal_strlit("{q}");
    reveal_strlit("{cq}");
    reveal_strlit("{}");
    text::lemma_replace_absent(t, "{q}"@, q);
    text::lemma_replace_absent(t, "{cq}"@, cq);
    match sel {
        Some(out) => {
        },
        None => {
        },
    }
}

/// Substitution reads nothing of a selected item but its output: two
/// selections equal in first output substitute identically, whatever their
/// display texts.
pub proof fn lemma_substitute_uses_output_only(
    t: Seq<char>,
    q: Seq<char>,
    cq: Seq<char>,
    a: Seq<Item>,
    b: Seq<Item>,
)
    requires
        a.len() > 0,
        b.len() > 0,
        a[0].output@ == b[0].output@,
    ensures
        spec_substitute(t, q, cq, first_output(a)) == spec_substitute(t, q, cq, first_output(b)),
{
}

/// Whether a mode's provider vetoes the interactive session: a calculator
/// evaluation invocation, or a window-swap invocation.
pub open spec fn spec_vetoes(m: ModeView) -> bool {
    match m {
        ModeView::Calc { eval, .. } => eval,
        ModeView::HyprctlHide { swap, .. } => swap is Some,
        _ => false,
    }
}

/// The cycle keybinding that accepts into the next mode.
pub open spec fn tab_binding(next: Seq<char>) -> Seq<char> {
    "tab:accept("@ + next + ")"@
}

/// The header after the cycle binding is registered: the provider's header,
/// when it set one, with the next mode appended.
pub open spec fn cycled_header(base: Option<Seq<char>>, next: Seq<char>) -> Seq<char> {
    match base {
        Some(h) => h + " --- next mode(tab): "@ + next,
        None => "next mode(tab): "@ + next,
    }
}

/// The keybindings a mode's provider sets, in order.
pub open spec fn base_bind(m: ModeView, exe: Seq<char>) -> Seq<Seq<char>> {
    match m {
        ModeView::Calc { .. } => seq!["enter:accept(calc)"@],
        ModeView::HyprctlHide { ignore_class, .. } => seq![
            "enter:execute("@ + exe + " hyprctl-hide"@ + (match ignore_class {
                Some(ig) => " --ignore-class "@ + ig,
                None => Seq::<char>::empty(),
            }) + " --swap {})+accept"@,
            "alt-enter:execute(hyprctl activeworkspace -j | jq -r .id | xargs -I{ws} hyprctl dispatch movetoworkspacesilent {ws},address:{} ; hyprctl dispatch focuswindow address:{})+accept"@,
        ],
        ModeView::SystemdServices => seq![
            "ctrl-r"@ + ":execute(systemctl "@ + "restart"@
                + " --{2} {3})+accept(--query {q} systemd-services)"@,
            "ctrl-s"@ + ":execute(systemctl "@ + "stop"@
                + " --{2} {3})+accept(--query {q} systemd-services)"@,
            "ctrl-t"@ + ":execute(systemctl "@ + "start"@
                + " --{2} {3})+accept(--query {q} systemd-services)"@,
        ],
        ModeView::Paru => seq![
            "ctrl-i:execute(paru -S --needed '{2}/{3}')"@,
            "ctrl-r:execute(paru -Rs '{2}/{3}')"@,
        ],
        _ => Seq::empty(),
    }
}

/// The header of a session before the cycle step: the provider's own
/// header, and the environment-supplied default for providers that set
/// none.
pub open spec fn base_header(
    m: ModeView,
    previous: Option<Seq<char>>,
    env_header: Option<Seq<char>>,
) -> Option<Seq<char>> {
    match m {
        ModeView::Calc { .. } => Some(
            match previous {
                Some(p) => "calc - previous(_): "@ + p,
                None => "calc - previous(_): N/A"@,
            },
        ),
        ModeView::HyprctlHide { .. } => Some(
            "List of hidden windows (special:hidden). Enter: swap with current (or previously focused if ignored). Alt-Enter: unhide."@,
        ),
        ModeView::SystemdServices => Some("systemctl - restart: ^r | stop: ^s | start: ^t"@),
        _ => env_header,
    }
}

/// The candidate-sourcing command a mode's provider sets, if any.
pub open spec fn base_cmd(m: ModeView, exe: Seq<char>) -> Option<Seq<char>> {
    match m {
        ModeView::Calc { .. } => Some(exe + " calc --eval '{}'"@),
        _ => None,
    }
}

/// Whether a mode's provider asks for interactive command re-querying.
pub open spec fn base_interactive(m: ModeView) -> bool {
    m is Calc
}

/// The preview text a mode's provider sets, if any.
pub open spec fn base_preview(m: ModeView) -> Option<Seq<char>> {
    match m {
        ModeView::Apps => Some(Seq::empty()),
        ModeView::HyprctlHide { .. } => Some(Seq::empty()),
        ModeView::SystemdServices => Some(Seq::empty()),
        ModeView::Paru => Some(Seq::empty()),
        _ => None,
    }
}

/// The preview pane placement a mode's provider sets, if any.
pub open spec fn base_preview_window(m: ModeView) -> Option<Seq<char>> {
    match m {
        ModeView::Apps => Some("left:16"@),
        ModeView::HyprctlHide { .. } => Some("up:40%"@),
        ModeView::SystemdServices => Some("up:80%"@),
        _ => None,
    }
}

/// The field delimiter a mode's provider sets, if any.
pub open spec fn base_delimiter(m: ModeView) -> Option<Seq<char>> {
    match m {
        ModeView::SystemdServices => Some("[\\[\\] \\t]+"@),
        ModeView::Paru => Some("[ \\t\\[\\]()]+"@),
        _ => None,
    }
}

/// What one loop iteration does before the engine runs: either the provider
/// vetoed the session, or the engine is to run with the built options.
pub enum Prepared {
    /// Skip the session, perform this action, and exit.
    Veto { action: VetoAction },
    /// Run the engine with these options; the provider handles the result.
    Go { provider: Provider, options: SessionOptions },
}

/// Builds one loop iteration: resolves the mode to its provider, lets the
/// provider veto the session, and otherwise merges the configuration in
/// order: the environment-supplied engine defaults, the provider's options
/// on top of them, the invocation's query, and last the mode-cycle
/// binding. A veto prevents every later step: no options are built and the
/// engine is never reached.
pub fn prepare(cli: &Cli, env: &EnvInfo) -> (r: Result<Prepared, Error>)
    ensures
        spec_vetoes(cli.mode@) ==> (r matches Ok(Prepared::Veto { action }) && (match cli.mode@ {
            ModeView::Calc { eval: true, expr } => action matches VetoAction::PrintEvaluated {
                expr: e,
            } && e@ == text::join_spaces(expr),
            ModeView::HyprctlHide { swap: Some(t), ignore_class } => action
                matches VetoAction::SwapWindows { target, ignore_class: ig } && target@ == t
                && ig.deep_view() == ignore_class,
            _ => false,
        })),
        (!spec_vetoes(cli.mode@) && cli.modes.deep_view().len() > 0 && (forall|j: int|
            0 <= j < cli.modes.deep_view().len() ==> !cycle_match(
                cli.modes.deep_view()[j],
                spec_display_name(cli.mode@),
            ))) ==> r matches Err(Error::ModeNotInCycleList),
        (!spec_vetoes(cli.mode@) && (cli.modes.deep_view().len() == 0 || (exists|i: int|
            is_first_cycle_match(cli.modes.deep_view(), spec_display_name(cli.mode@), i)))) ==> (
        r matches Ok(Prepared::Go { provider, options }) && {
            let m = cli.mode@;
            &&& provider_matches(m, provider)
            &&& options.query.deep_view() == cli.query.deep_view()
            &&& options.cmd.deep_view() == base_cmd(m, env.exe@)
            &&& options.interactive == base_interactive(m)
            &&& options.show_cmd_error == base_interactive(m)
            &&& options.preview.deep_view() == base_preview(m)
            &&& options.preview_window.deep_view() == base_preview_window(m)
            &&& options.delimiter.deep_view() == base_delimiter(m)
            &&& (if cli.modes.deep_view().len() == 0 {
                options.bind.deep_view() == base_bind(m, env.exe@) && options.header.deep_view()
                    == base_header(
                    m,
                    env.memory.previous.deep_view(),
                    env.default_header.deep_view(),
                )
            } else {
                let i = choose|i: int|
                    is_first_cycle_match(cli.modes.deep_view(), spec_display_name(m), i);
                let next = cli.modes.deep_view()[(i + 1) % (cli.modes.deep_view().len() as int)];
                options.bind.deep_view() == base_bind(m, env.exe@).push(tab_binding(next))
                    && options.header.deep_view() == Some(
                    cycled_header(
                        base_header(
                            m,
                            env.memory.previous.deep_view(),
                            env.default_header.deep_view(),
                        ),
                        next,
                    ),
                )
            })
        }),
{
    let provider = parse_mode(&cli.mode);
    let decision = match &provider {
        Provider::Apps(p) => p.init(&cli.mode),
        Provider::Calc(p) => p.init(&cli.mode),
        Provider::HyprctlClients(p) => p.init(&cli.mode),
        Provider::HyprctlHide(p) => p.init(&cli.mode),
        Provider::SystemdServices(p) => p.init(&cli.mode),
        Provider::Paru(p) => p.init(&cli.mode),
    };
    match decision {
        InitOutcome::Veto(action) => {
            return Ok(Prepared::Veto { action });
        },
        InitOutcome::Proceed => {
        },
    }
    let mut opts = SessionOptions::new();
    opts.header = match &env.default_header {
        Some(h) => Some(h.clone()),
        None => None,
    };
    match &provider {
        Provider::Apps(p) => p.set_options(&mut opts, env),
        Provider::Calc(p) => p.set_options(&mut opts, env),
        Provider::HyprctlClients(p) => p.set_options(&mut opts, env),
        Provider::HyprctlHide(p) => p.set_options(&mut opts, env),
        Provider::SystemdServices(p) => p.set_options(&mut opts, env),
        Provider::Paru(p) => p.set_options(&mut opts, env),
    }
    proof {
        assert(opts.bind.deep_view() =~~= base_bind(cli.mode@, env.exe@));
    }
    opts.query = match &cli.query {
        Some(q) => Some(q.clone()),
        None => None,
    };
    match apply_mode_cycle(&mut opts, &cli.modes, &cli.mode) {
        Ok(()) => Ok(Prepared::Go { provider, options: opts }),
        Err(e) => Err(e),
    }
}

/// What the loop does after one session ended: exit after performing the
/// provider's action, or chain into the next invocation. These are the two
/// states of the session machine: `Chain` re-builds the active state from
/// scratch for the next iteration, so arbitrarily long mode-hopping
/// sessions keep a bounded stack; `Exit` is its done state.
pub enum StepOutcome {
    /// The loop is over: perform the action, report its error if there is
    /// one, and exit successfully either way.
    Exit { action: Action, action_error: Option<Error> },
    /// The loop continues with this invocation.
    Chain { next: Cli },
}

/// Interprets the terminal event of one session. An abort ends the loop
/// with nothing to do. An accepted selection asks the provider for its
/// terminal action; a failure there is carried as a report, not an error:
/// the loop still ends normally. An accepted command substitutes the
/// session's context into the template and re-parses it on top of the
/// current invocation; only substitution and parse failures fail the loop.
pub fn interpret(cli: Cli, provider: &Provider, event: &ResultEvent) -> (r: Result<
    StepOutcome,
    Error,
>)
    ensures
        event is Aborted ==> r matches Ok(StepOutcome::Exit {
            action: Action::Nothing,
            action_error: None,
        }),
        (match event {
            ResultEvent::AcceptedWithSelection { selected, command, .. } => (match provider {
                Provider::Apps(_) => {
                    &&& selected@.len() > 0 ==> (r matches Ok(StepOutcome::Exit {
                        action: Action::LaunchDetached { exe },
                        action_error,
                    }) && exe@ == selected@[0].output@ && action_error is None)
                    &&& selected@.len() == 0 ==> (r matches Ok(StepOutcome::Exit {
                        action: Action::Nothing,
                        action_error,
                    }) && action_error matches Some(Error::NoItemSelected))
                },
                Provider::Calc(_) => r matches Ok(StepOutcome::Exit {
                    action: Action::EvaluateAndStore { expr },
                    action_error,
                }) && expr@ == command@ && action_error is None,
                Provider::HyprctlClients(_) => {
                    &&& selected@.len() > 0 ==> (r matches Ok(StepOutcome::Exit {
                        action: Action::FocusWindow { address_arg },
                        action_error,
                    }) && address_arg@ == "address:"@ + selected@[0].output@ && action_error
                        is None)
                    &&& selected@.len() == 0 ==> (r matches Ok(StepOutcome::Exit {
                        action: Action::Nothing,
                        action_error,
                    }) && action_error matches Some(Error::NoItemSelected))
                },
                _ => r matches Ok(StepOutcome::Exit {
                    action: Action::Nothing,
                    action_error: None,
                }),
            }),
            ResultEvent::AcceptedWithCommand { template, selected, query, command } => (match
                spec_substitute(template@, query@, command@, first_output(selected@)) {
                None => r matches Err(Error::NoSelectionToSubstitute),
                Some(s) => (match scan_spec(cli@, text::split_ws(s), false) {
                    ParseOutcome::Parsed { cli: cv, .. } => r matches Ok(StepOutcome::Chain {
                        next,
                    }) && next@ == cv,
                    ParseOutcome::MissingValue(f) => r matches Err(Error::MissingFlagValue {
                        flag,
                    }) && flag@ == f,
                    ParseOutcome::Unknown(n) => r matches Err(Error::UnknownMode { name }) && name@
                        == n,
                    ParseOutcome::Unexpected(a) => r matches Err(Error::UnexpectedArgument { arg })
                        && arg@ == a,
                }),
            }),
            _ => true,
        }),
{
    match event {
        ResultEvent::Aborted => Ok(StepOutcome::Exit { action: Action::Nothing, action_error: None }),
        ResultEvent::AcceptedWithSelection { .. } => {
            let run_result = match provider {
                Provider::Apps(p) => p.run(event),
                Provider::Calc(p) => p.run(event),
                Provider::HyprctlClients(p) => p.run(event),
                Provider::HyprctlHide(p) => p.run(event),
                Provider::SystemdServices(p) => p.run(event),
                Provider::Paru(p) => p.run(event),
            };
            match run_result {
                Ok(action) => Ok(StepOutcome::Exit { action, action_error: None }),
                Err(e) => Ok(StepOutcome::Exit { action: Action::Nothing, action_error: Some(e) }),
            }
        },
        ResultEvent::AcceptedWithCommand { template, selected, query, command } => {
            let filled = match substitute(template, query, command, selected) {
                Ok(v) => v,
                Err(e) => {
                    return Err(e);
                },
            };
            let tokens = text::split_args(filled.as_str());
            match update_args(cli, &tokens) {
                Ok(next) => Ok(StepOutcome::Chain { next }),
                Err(e) => Err(e),
            }
        },
    }
}

/// The exit code of a loop that ended: success for every terminal event,
/// provider action failures included, since they are only reported; failure
/// for configuration and substitution errors.
pub fn exit_code(outcome: &Result<StepOutcome, Error>) -> (c: i32)
    ensures
        outcome is Ok ==> c == 0,
        outcome is Err ==> c == 1,
{
    match outcome {
        Ok(_) => 0,
        Err(_) => 1,
    }
}

} // verus!
