//! Session orchestration scenarios: substitution, chaining, cycling, veto
//! and exit-code policy.

use skim_run::calc::CalcMemory;
use skim_run::cli::parse_args;
use skim_run::cli::update_args;
use skim_run::options::apply_mode_cycle;
use skim_run::options::default_engine_args;
use skim_run::session::exit_code;
use skim_run::session::interpret;
use skim_run::session::prepare;
use skim_run::session::substitute;
use skim_run::Action;
use skim_run::EnvInfo;
use skim_run::Error;
use skim_run::Item;
use skim_run::Mode;
use skim_run::parse_mode;
use skim_run::Prepared;
use skim_run::Preview;
use skim_run::Provider;
use skim_run::ResultEvent;
use skim_run::SessionOptions;
use skim_run::StepOutcome;
use skim_run::VetoAction;

fn item(display: &str, output: &str) -> Item {
    Item {
        display: String::from(display),
        output: String::from(output),
        preview: Preview::Empty,
    }
}

#[test]
fn substitution_fills_all_tokens() {
    let selected = vec![item("four", "2+2")];
    let out = substitute(
        &String::from("run {q} then {cq} on {}"),
        &String::from("QUERY"),
        &String::from("CMD"),
        &selected,
    )
    .unwrap();
    assert_eq!(out, "run QUERY then CMD on 2+2");
}

#[test]
fn substitution_without_tokens_returns_template_unchanged() {
    let out = substitute(
        &String::from("plain template"),
        &String::from("q"),
        &String::from("c"),
        &vec![],
    )
    .unwrap();
    assert_eq!(out, "plain template");
}

#[test]
fn substitution_is_applied_once_not_recursively() {
    let selected = vec![item("odd", "{q}")];
    let out = substitute(
        &String::from("x {}"),
        &String::from("QUERY"),
        &String::from(""),
        &selected,
    )
    .unwrap();
    assert_eq!(out, "x {q}");
}

#[test]
fn selection_token_without_selection_is_an_error() {
    let r = substitute(
        &String::from("calc {}"),
        &String::from(""),
        &String::from(""),
        &vec![],
    );
    assert!(matches!(r, Err(Error::NoSelectionToSubstitute)));
}

#[test]
fn reinvocation_round_trip() {
    let selected = vec![item("four", "2+2")];
    let out = substitute(
        &String::from("calc {}"),
        &String::from(""),
        &String::from(""),
        &selected,
    )
    .unwrap();
    assert_eq!(out, "calc 2+2");
    let tokens = skim_run::text::split_args(out.as_str());
    let cli = parse_args(&tokens).unwrap();
    match cli.mode {
        Mode::Calc { eval, expr } => {
            assert!(!eval);
            assert_eq!(expr, vec![String::from("2+2")]);
        },
        _ => panic!("expected the calc mode"),
    }
}

#[test]
fn cycle_key_targets_next_mode() {
    let mut opts = SessionOptions::new();
    let modes = vec![String::from("apps"), String::from("calc")];
    let cur = Mode::Apps {};
    apply_mode_cycle(&mut opts, &modes, &cur).unwrap();
    assert_eq!(opts.bind.len(), 1);
    assert_eq!(opts.bind[0], "tab:accept(calc)");
    assert_eq!(opts.header.as_deref(), Some("next mode(tab): calc"));
    let cli = parse_args(&vec![String::from("calc")]).unwrap();
    let provider = parse_mode(&cli.mode);
    assert!(matches!(provider, Provider::Calc(_)));
}

#[test]
fn cycling_wraps_around_to_the_first_mode() {
    let mut opts = SessionOptions::new();
    let modes = vec![String::from("apps"), String::from("calc")];
    let cur = Mode::Calc { eval: false, expr: vec![] };
    apply_mode_cycle(&mut opts, &modes, &cur).unwrap();
    assert_eq!(opts.bind[0], "tab:accept(apps)");
}

#[test]
fn cycle_matching_ignores_case() {
    let mut opts = SessionOptions::new();
    let modes = vec![String::from("Apps"), String::from("CALC")];
    let cur = Mode::Apps {};
    apply_mode_cycle(&mut opts, &modes, &cur).unwrap();
    assert_eq!(opts.bind[0], "tab:accept(CALC)");
}

#[test]
fn current_mode_missing_from_cycle_list_is_an_error() {
    let mut opts = SessionOptions::new();
    let modes = vec![String::from("calc"), String::from("paru")];
    let cur = Mode::Apps {};
    let r = apply_mode_cycle(&mut opts, &modes, &cur);
    assert!(matches!(r, Err(Error::ModeNotInCycleList)));
    assert!(opts.bind.is_empty());
    assert!(opts.header.is_none());
}

#[test]
fn empty_cycle_list_changes_nothing() {
    let mut opts = SessionOptions::new();
    let modes: Vec<String> = vec![];
    apply_mode_cycle(&mut opts, &modes, &Mode::Paru {}).unwrap();
    assert!(opts.bind.is_empty());
    assert!(opts.header.is_none());
}

#[test]
fn existing_header_is_extended_by_the_cycle_binding() {
    let mut opts = SessionOptions::new();
    opts.header = Some(String::from("base"));
    let modes = vec![String::from("apps"), String::from("paru")];
    apply_mode_cycle(&mut opts, &modes, &Mode::Apps {}).unwrap();
    assert_eq!(opts.header.as_deref(), Some("base --- next mode(tab): paru"));
}

#[test]
fn eval_invocation_vetoes_session() {
    let cli = parse_args(&vec![
        String::from("calc"),
        String::from("--eval"),
        String::from("2"),
        String::from("+"),
        String::from("2"),
    ])
    .unwrap();
    let env = EnvInfo {
        exe: String::from("skim-run"),
        default_header: None,
        memory: CalcMemory::empty(),
    };
    match prepare(&cli, &env).unwrap() {
        Prepared::Veto { action } => match action {
            VetoAction::PrintEvaluated { expr } => assert_eq!(expr, "2 + 2"),
            _ => panic!("expected the evaluation veto"),
        },
        Prepared::Go { .. } => panic!("an eval invocation must not reach the engine"),
    }
}

#[test]
fn swap_invocation_vetoes_session() {
    let cli = parse_args(&vec![
        String::from("hyprctl-hide"),
        String::from("--ignore-class"),
        String::from("kitty"),
        String::from("--swap"),
        String::from("0xdead"),
    ])
    .unwrap();
    let env = EnvInfo {
        exe: String::from("skim-run"),
        default_header: None,
        memory: CalcMemory::empty(),
    };
    match prepare(&cli, &env).unwrap() {
        Prepared::Veto { action } => match action {
            VetoAction::SwapWindows { target, ignore_class } => {
                assert_eq!(target, "0xdead");
                assert_eq!(ignore_class.as_deref(), Some("kitty"));
            },
            _ => panic!("expected the swap veto"),
        },
        Prepared::Go { .. } => panic!("a swap invocation must not reach the engine"),
    }
}

#[test]
fn ordinary_invocation_reaches_the_engine() {
    let cli = parse_args(&vec![String::from("paru"), String::from("-q"), String::from("vim")])
        .unwrap();
    let env = EnvInfo {
        exe: String::from("skim-run"),
        default_header: None,
        memory: CalcMemory::empty(),
    };
    match prepare(&cli, &env).unwrap() {
        Prepared::Go { provider, options } => {
            assert!(matches!(provider, Provider::Paru(_)));
            assert_eq!(options.query.as_deref(), Some("vim"));
            assert_eq!(options.delimiter.as_deref(), Some("[ \\t\\[\\]()]+"));
            assert_eq!(options.bind.len(), 2);
        },
        Prepared::Veto { .. } => panic!("nothing to veto here"),
    }
}

#[test]
fn empty_candidates_abort_cleanly() {
    let p = skim_run::hyprctl_clients::HyprctlClients;
    let items = p.get(vec![]);
    assert!(items.is_empty());
    let cli = parse_args(&vec![String::from("hyprctl-clients")]).unwrap();
    let provider = parse_mode(&cli.mode);
    let outcome = interpret(cli, &provider, &ResultEvent::Aborted);
    assert!(matches!(
        outcome,
        Ok(StepOutcome::Exit { action: Action::Nothing, action_error: None })
    ));
    assert_eq!(exit_code(&outcome), 0);
}

#[test]
fn provider_action_failure_still_exits_cleanly() {
    let cli = parse_args(&vec![String::from("apps")]).unwrap();
    let provider = parse_mode(&cli.mode);
    let event = ResultEvent::AcceptedWithSelection {
        selected: vec![],
        query: String::new(),
        command: String::new(),
    };
    let outcome = interpret(cli, &provider, &event);
    match &outcome {
        Ok(StepOutcome::Exit { action, action_error }) => {
            assert!(matches!(action, Action::Nothing));
            assert!(matches!(action_error, Some(Error::NoItemSelected)));
        },
        _ => panic!("a failed action must still end the loop"),
    }
    assert_eq!(exit_code(&outcome), 0);
}

#[test]
fn accepted_selection_launches_the_selected_app() {
    let cli = parse_args(&vec![String::from("apps")]).unwrap();
    let provider = parse_mode(&cli.mode);
    let event = ResultEvent::AcceptedWithSelection {
        selected: vec![item("Editor", "/usr/bin/editor")],
        query: String::new(),
        command: String::new(),
    };
    match interpret(cli, &provider, &event) {
        Ok(StepOutcome::Exit { action: Action::LaunchDetached { exe }, action_error: None }) => {
            assert_eq!(exe, "/usr/bin/editor");
        },
        _ => panic!("expected a detached launch"),
    }
}

#[test]
fn accepted_command_chains_into_the_next_mode() {
    let cli = parse_args(&vec![
        String::from("apps"),
        String::from("-m"),
        String::from("apps,calc"),
    ])
    .unwrap();
    let provider = parse_mode(&cli.mode);
    let event = ResultEvent::AcceptedWithCommand {
        template: String::from("calc"),
        selected: vec![],
        query: String::from("kept query"),
        command: String::new(),
    };
    match interpret(cli, &provider, &event) {
        Ok(StepOutcome::Chain { next }) => {
            assert!(matches!(next.mode, Mode::Calc { .. }));
            assert_eq!(next.modes, vec![String::from("apps"), String::from("calc")]);
        },
        _ => panic!("expected the loop to chain"),
    }
}

#[test]
fn chaining_to_an_unknown_mode_fails_the_loop() {
    let cli = parse_args(&vec![String::from("apps")]).unwrap();
    let provider = parse_mode(&cli.mode);
    let event = ResultEvent::AcceptedWithCommand {
        template: String::from("no-such-mode"),
        selected: vec![],
        query: String::new(),
        command: String::new(),
    };
    let outcome = interpret(cli, &provider, &event);
    match &outcome {
        Err(Error::UnknownMode { name }) => assert_eq!(name, "no-such-mode"),
        _ => panic!("expected an unknown-mode error"),
    }
    assert_eq!(exit_code(&outcome), 1);
}

#[test]
fn equal_outputs_stay_distinct_in_the_candidate_list() {
    let mk = |title: &str| skim_run::hyprctl_clients::Client {
        title: String::from(title),
        focus_history_id: 1,
        address: String::from("0xsame"),
    };
    let p = skim_run::hyprctl_clients::HyprctlClients;
    let items = p.get(vec![mk("first"), mk("second")]);
    assert_eq!(items.len(), 2);
    assert_eq!(items[0].output, items[1].output);
    assert_ne!(items[0].display, items[1].display);
}

#[test]
fn default_engine_args_lex_the_environment_options() {
    let r = default_engine_args(&Some(String::from("--height 40% --reverse")));
    assert_eq!(
        r,
        vec![
            String::from("sk"),
            String::from("--height"),
            String::from("40%"),
            String::from("--reverse"),
        ]
    );
    let none = default_engine_args(&None);
    assert_eq!(none, vec![String::from("sk")]);
    let bad = default_engine_args(&Some(String::from("'unclosed")));
    assert_eq!(bad, vec![String::from("sk")]);
}

#[test]
fn parse_errors_name_the_offending_token() {
    assert!(matches!(
        parse_args(&vec![String::from("-q")]),
        Err(Error::MissingFlagValue { .. })
    ));
    assert!(matches!(parse_args(&vec![]), Err(Error::MissingMode)));
    assert!(matches!(
        parse_args(&vec![String::from("paru"), String::from("extra")]),
        Err(Error::UnexpectedArgument { .. })
    ));
}

#[test]
fn update_keeps_context_unless_overridden() {
    let base = parse_args(&vec![
        String::from("apps"),
        String::from("-q"),
        String::from("old"),
        String::from("-m"),
        String::from("apps,calc"),
    ])
    .unwrap();
    let next = update_args(base, &vec![String::from("calc")]).unwrap();
    assert_eq!(next.query.as_deref(), Some("old"));
    assert_eq!(next.modes, vec![String::from("apps"), String::from("calc")]);
    assert!(matches!(next.mode, Mode::Calc { .. }));
    let base2 = parse_args(&vec![String::from("apps")]).unwrap();
    let next2 = update_args(
        base2,
        &vec![String::from("-q"), String::from("new"), String::from("paru")],
    )
    .unwrap();
    assert_eq!(next2.query.as_deref(), Some("new"));
    assert!(matches!(next2.mode, Mode::Paru {}));
}

#[test]
fn error_messages_describe_the_failure() {
    let e = Error::UnknownMode { name: String::from("zzz") };
    assert_eq!(e.message(), "unknown mode: zzz");
    assert_eq!(Error::ModeNotInCycleList.message(), "Current mode not found in enabled modes");
    assert_eq!(Error::NoSelectionToSubstitute.message(), "no selection to substitute");
    assert!(Error::NoItemSelected.is_action_error());
    assert!(!Error::MissingMode.is_action_error());
}

#[test]
fn mode_display_names_round_trip() {
    let all = vec![
        (Mode::Apps {}, "apps"),
        (Mode::Calc { eval: false, expr: vec![] }, "calc"),
        (Mode::HyprctlClients {}, "hyprctl-clients"),
        (Mode::HyprctlHide { ignore_class: None, swap: None }, "hyprctl-hide"),
        (Mode::SystemdServices {}, "systemd-services"),
        (Mode::Paru {}, "paru"),
    ];
    for (mode, name) in all {
        assert_eq!(mode.display_name(), name);
        let parsed = parse_args(&vec![String::from(name)]).unwrap();
        assert_eq!(parsed.mode.display_name(), name);
    }
}

#[test]
fn environment_header_is_extended_by_the_cycle_note() {
    let cli = parse_args(&vec![
        String::from("paru"),
        String::from("-m"),
        String::from("paru,apps"),
    ])
    .unwrap();
    let env = EnvInfo {
        exe: String::from("skim-run"),
        default_header: Some(String::from("defaults")),
        memory: CalcMemory::empty(),
    };
    match prepare(&cli, &env).unwrap() {
        Prepared::Go { options, .. } => {
            assert_eq!(options.header.as_deref(), Some("defaults --- next mode(tab): apps"));
        },
        Prepared::Veto { .. } => panic!("nothing to veto here"),
    }
}

#[test]
fn provider_header_overrides_the_environment_default() {
    let cli = parse_args(&vec![String::from("systemd-services")]).unwrap();
    let env = EnvInfo {
        exe: String::from("skim-run"),
        default_header: Some(String::from("defaults")),
        memory: CalcMemory::empty(),
    };
    match prepare(&cli, &env).unwrap() {
        Prepared::Go { options, .. } => {
            assert_eq!(
                options.header.as_deref(),
                Some("systemctl - restart: ^r | stop: ^s | start: ^t")
            );
        },
        Prepared::Veto { .. } => panic!("nothing to veto here"),
    }
}
