//! Provider-level behaviour: candidate conversion, formatting, option
//! configuration and terminal actions.

use skim_run::apps::App;
use skim_run::apps::Apps;
use skim_run::apps::preview_size;
use skim_run::calc::Calc;
use skim_run::calc::CalcMemory;
use skim_run::cli::Mode;
use skim_run::errors::Error;
use skim_run::event::Action;
use skim_run::event::InitOutcome;
use skim_run::event::ResultEvent;
use skim_run::event::VetoAction;
use skim_run::hyprctl_clients::Client;
use skim_run::hyprctl_clients::HyprctlClients;
use skim_run::hyprctl_hide::HyprctlHide;
use skim_run::hyprctl_hide::Window;
use skim_run::hyprctl_hide::bring_window_args;
use skim_run::hyprctl_hide::choose_hide_target;
use skim_run::hyprctl_hide::focus_window_args;
use skim_run::hyprctl_hide::hide_window_args;
use skim_run::item::Item;
use skim_run::item::Preview;
use skim_run::options::EnvInfo;
use skim_run::options::SessionOptions;
use skim_run::paru::Paru;
use skim_run::paru::parse_package_line;
use skim_run::systemd_services::SystemdService;
use skim_run::systemd_services::SystemdServices;
use skim_run::systemd_services::bind_systemctl;

fn env() -> EnvInfo {
    EnvInfo {
        exe: String::from("/usr/bin/skim-run"),
        default_header: None,
        memory: CalcMemory::empty(),
    }
}

fn window(title: &str, class: &str, workspace: &str, id: u16) -> Window {
    Window {
        address: format!("0x{}", title),
        class: String::from(class),
        title: String::from(title),
        hidden: true,
        mapped: false,
        focus_history_id: id,
        workspace_name: String::from(workspace),
    }
}

#[test]
fn calc_veto_joins_the_expression_words() {
    let mode = Mode::Calc {
        eval: true,
        expr: vec![String::from("12"), String::from("m"), String::from("to"), String::from("ft")],
    };
    match Calc.init(&mode) {
        InitOutcome::Veto(VetoAction::PrintEvaluated { expr }) => assert_eq!(expr, "12 m to ft"),
        _ => panic!("expected a veto"),
    }
    assert!(matches!(Calc.init(&Mode::Calc { eval: false, expr: vec![] }), InitOutcome::Proceed));
}

#[test]
fn calc_prepare_expression_substitutes_the_previous_result() {
    let mut memory = CalcMemory::empty();
    assert_eq!(Calc::prepare_expression(&String::from("_ * 2"), &memory), "_ * 2");
    memory.write(String::from("21"));
    assert_eq!(Calc::prepare_expression(&String::from("_ * 2 + _"), &memory), "21 * 2 + 21");
    memory.clear();
    assert_eq!(Calc::prepare_expression(&String::from("_ * 2"), &memory), "_ * 2");
}

#[test]
fn calc_format_result_drops_the_annotation() {
    assert_eq!(Calc::format_result(&String::from("4 (dimensionless)")), "4");
    assert_eq!(Calc::format_result(&String::from("42")), "42");
    assert_eq!(Calc::format_result(&String::from("1 (a) (b)")), "1");
}

#[test]
fn calc_options_rerun_the_executable_on_the_query() {
    let mut opts = SessionOptions::new();
    let mut e = env();
    e.memory.write(String::from("7"));
    Calc.set_options(&mut opts, &e);
    assert_eq!(opts.cmd.as_deref(), Some("/usr/bin/skim-run calc --eval '{}'"));
    assert!(opts.interactive);
    assert!(opts.show_cmd_error);
    assert_eq!(opts.bind, vec![String::from("enter:accept(calc)")]);
    assert_eq!(opts.header.as_deref(), Some("calc - previous(_): 7"));
    let mut opts2 = SessionOptions::new();
    Calc.set_options(&mut opts2, &env());
    assert_eq!(opts2.header.as_deref(), Some("calc - previous(_): N/A"));
}

#[test]
fn calc_run_evaluates_the_command_text() {
    let event = ResultEvent::AcceptedWithSelection {
        selected: vec![],
        query: String::new(),
        command: String::from("2+2"),
    };
    match Calc.run(&event) {
        Ok(Action::EvaluateAndStore { expr }) => assert_eq!(expr, "2+2"),
        _ => panic!("expected an evaluation action"),
    }
}

#[test]
fn app_text_prefers_the_name_and_falls_back_to_the_entry_file() {
    let named = App {
        name: String::from("Editor"),
        desktop_file: String::from("org.example.editor.desktop"),
        exe_path: Some(String::from("/usr/bin/editor")),
        icon_path: None,
    };
    assert_eq!(named.text(), "Editor");
    assert_eq!(named.output(), "/usr/bin/editor");
    let unnamed = App {
        name: String::new(),
        desktop_file: String::from("org.example.editor.desktop"),
        exe_path: None,
        icon_path: None,
    };
    assert_eq!(unnamed.text(), "org.example.editor");
    assert_eq!(unnamed.output(), "");
}

#[test]
fn apps_items_keep_every_record_in_order() {
    let records = vec![
        App {
            name: String::from("A"),
            desktop_file: String::from("a.desktop"),
            exe_path: Some(String::from("/bin/a")),
            icon_path: None,
        },
        App {
            name: String::from("B"),
            desktop_file: String::from("b.desktop"),
            exe_path: None,
            icon_path: None,
        },
    ];
    let items = Apps.get(records);
    assert_eq!(items.len(), 2);
    assert_eq!(items[0].display, "A");
    assert_eq!(items[0].output, "/bin/a");
    assert_eq!(items[1].display, "B");
    assert_eq!(items[1].output, "");
}

#[test]
fn preview_size_is_capped_at_sixteen() {
    assert_eq!(preview_size(100, 50), 16);
    assert_eq!(preview_size(10, 50), 10);
    assert_eq!(preview_size(50, 7), 7);
    assert_eq!(preview_size(0, 9), 0);
}

#[test]
fn apps_options_place_the_icon_preview() {
    let mut opts = SessionOptions::new();
    Apps.set_options(&mut opts, &env());
    assert_eq!(opts.preview.as_deref(), Some(""));
    assert_eq!(opts.preview_window.as_deref(), Some("left:16"));
}

#[test]
fn clients_are_sorted_by_recency_and_the_focused_one_is_dropped() {
    let mk = |title: &str, id: u16| Client {
        title: String::from(title),
        focus_history_id: id,
        address: format!("0x{}", id),
    };
    let items = HyprctlClients.get(vec![mk("c", 3), mk("now", 0), mk("a", 1), mk("b", 2)]);
    assert_eq!(items.len(), 3);
    assert_eq!(items[0].display, "a");
    assert_eq!(items[1].display, "b");
    assert_eq!(items[2].display, "c");
    assert_eq!(items[0].output, "0x1");
}

#[test]
fn clients_run_focuses_the_selected_window() {
    let event = ResultEvent::AcceptedWithSelection {
        selected: vec![Item {
            display: String::from("win"),
            output: String::from("0xabc"),
            preview: Preview::Empty,
        }],
        query: String::new(),
        command: String::new(),
    };
    match HyprctlClients.run(&event) {
        Ok(Action::FocusWindow { address_arg }) => assert_eq!(address_arg, "address:0xabc"),
        _ => panic!("expected a focus action"),
    }
    let empty = ResultEvent::AcceptedWithSelection {
        selected: vec![],
        query: String::new(),
        command: String::new(),
    };
    assert!(matches!(HyprctlClients.run(&empty), Err(Error::NoItemSelected)));
}

#[test]
fn hidden_windows_are_filtered_sorted_and_labelled() {
    let provider = HyprctlHide { ignore_class: Some(String::from("bar")), swap: None };
    let ws = "special:hidden";
    let items = provider.get(vec![
        window("two", "foo", ws, 2),
        window("skipped", "bar", ws, 1),
        window("elsewhere", "foo", "special:other", 0),
        window("one", "foo", ws, 1),
    ]);
    assert_eq!(items.len(), 2);
    assert_eq!(items[0].display, "one [foo] (hidden) (unmapped)");
    assert_eq!(items[1].display, "two [foo] (hidden) (unmapped)");
    assert_eq!(items[0].output, "0xone");
    match &items[0].preview {
        Preview::Text(t) => {
            assert_eq!(
                t,
                "Title: one\nClass: foo\nWorkspace: special:hidden\nAddress: 0xone\nHidden: true\nMapped: false\nFocusHistoryID: 1"
            );
        },
        _ => panic!("expected a text preview"),
    }
}

#[test]
fn hide_options_bind_the_swap_keys() {
    let provider = HyprctlHide { ignore_class: Some(String::from("kitty")), swap: None };
    let mut opts = SessionOptions::new();
    provider.set_options(&mut opts, &env());
    assert_eq!(opts.preview_window.as_deref(), Some("up:40%"));
    assert_eq!(opts.bind.len(), 2);
    assert_eq!(
        opts.bind[0],
        "enter:execute(/usr/bin/skim-run hyprctl-hide --ignore-class kitty --swap {})+accept"
    );
    let plain = HyprctlHide { ignore_class: None, swap: None };
    let mut opts2 = SessionOptions::new();
    plain.set_options(&mut opts2, &env());
    assert_eq!(opts2.bind[0], "enter:execute(/usr/bin/skim-run hyprctl-hide --swap {})+accept");
}

#[test]
fn swap_hides_the_current_window_by_default() {
    let r = choose_hide_target(
        &String::from("0xcur"),
        &String::from("editor"),
        &Some(String::from("kitty")),
        &vec![],
    );
    assert_eq!(r.as_deref(), Some("0xcur"));
    let none_ignored = choose_hide_target(
        &String::from("0xcur"),
        &String::from("kitty"),
        &None,
        &vec![],
    );
    assert_eq!(none_ignored.as_deref(), Some("0xcur"));
}

#[test]
fn swap_hides_the_previously_focused_window_when_current_is_ignored() {
    let ws = "normal";
    let mut later = window("later", "editor", ws, 5);
    later.address = String::from("0xlater");
    let mut recent = window("recent", "editor", ws, 2);
    recent.address = String::from("0xrecent");
    let mut ignored = window("ignored", "kitty", ws, 1);
    ignored.address = String::from("0xignored");
    let r = choose_hide_target(
        &String::from("0xcur"),
        &String::from("kitty"),
        &Some(String::from("kitty")),
        &vec![later, ignored, recent],
    );
    assert_eq!(r.as_deref(), Some("0xrecent"));
    let nothing = choose_hide_target(
        &String::from("0xcur"),
        &String::from("kitty"),
        &Some(String::from("kitty")),
        &vec![window("only", "kitty", ws, 3)],
    );
    assert!(nothing.is_none());
}

#[test]
fn swap_dispatch_arguments_are_built_verbatim() {
    assert_eq!(
        hide_window_args(&String::from("0xa")),
        vec![
            String::from("dispatch"),
            String::from("movetoworkspacesilent"),
            String::from("special:hidden,address:0xa"),
        ]
    );
    assert_eq!(
        bring_window_args(3, &String::from("0xb")),
        vec![
            String::from("dispatch"),
            String::from("movetoworkspacesilent"),
            String::from("3,address:0xb"),
        ]
    );
    assert_eq!(
        bring_window_args(-2, &String::from("0xb")),
        vec![
            String::from("dispatch"),
            String::from("movetoworkspacesilent"),
            String::from("-2,address:0xb"),
        ]
    );
    assert_eq!(
        focus_window_args(&String::from("0xc")),
        vec![String::from("dispatch"), String::from("focuswindow"), String::from("address:0xc")]
    );
}

#[test]
fn package_lines_parse_into_three_fields() {
    let p = parse_package_line(&String::from("core vim 9.1-1"));
    assert_eq!(p.repo, "core");
    assert_eq!(p.name, "vim");
    assert_eq!(p.version, "9.1-1");
    let short = parse_package_line(&String::from("core"));
    assert_eq!(short.repo, "core");
    assert_eq!(short.name, "");
    assert_eq!(short.version, "");
}

#[test]
fn package_items_are_labelled_and_previewed() {
    let items = Paru.get(vec![String::from("extra ripgrep 14.1"), String::from("core vim 9")]);
    assert_eq!(items.len(), 2);
    assert_eq!(items[0].display, "[extra] ripgrep (14.1)");
    assert_eq!(items[0].output, items[0].display);
    match &items[0].preview {
        Preview::Command(c) => assert_eq!(c, "paru -Si extra/ripgrep"),
        _ => panic!("expected a command preview"),
    }
    assert_eq!(items[1].display, "[core] vim (9)");
}

#[test]
fn service_units_are_filtered_and_labelled() {
    let unit = |name: &str, user: bool| SystemdService {
        name: String::from(name),
        desc: String::from("desc"),
        load_state: String::from("loaded"),
        active_state: String::from("active"),
        is_user: user,
        sub_state: String::from("running"),
        follower: String::new(),
        object_path: String::from("/org/freedesktop/systemd1/unit/x"),
        job_id: 0,
        job_type: String::new(),
        job_object_path: String::from("/"),
    };
    let items = SystemdServices.get(vec![
        unit("sshd.service", false),
        unit("tmp.mount", false),
        unit("pipewire.service", true),
    ]);
    assert_eq!(items.len(), 2);
    assert_eq!(items[0].display, "[system] sshd.service loaded active");
    assert_eq!(items[1].display, "[user] pipewire.service loaded active");
    match &items[0].preview {
        Preview::Command(c) => {
            assert!(c.contains("echo Name: sshd.service"));
            assert!(c.contains("journalctl --system -xreu sshd.service"));
        },
        _ => panic!("expected a command preview"),
    }
}

#[test]
fn systemctl_bindings_chain_back_into_the_service_list() {
    assert_eq!(
        bind_systemctl("ctrl-r", "restart"),
        "ctrl-r:execute(systemctl restart --{2} {3})+accept(--query {q} systemd-services)"
    );
    let mut opts = SessionOptions::new();
    SystemdServices.set_options(&mut opts, &env());
    assert_eq!(
        opts.bind,
        vec![
            String::from(
                "ctrl-r:execute(systemctl restart --{2} {3})+accept(--query {q} systemd-services)"
            ),
            String::from(
                "ctrl-s:execute(systemctl stop --{2} {3})+accept(--query {q} systemd-services)"
            ),
            String::from(
                "ctrl-t:execute(systemctl start --{2} {3})+accept(--query {q} systemd-services)"
            ),
        ]
    );
    assert_eq!(opts.delimiter.as_deref(), Some("[\\[\\] \\t]+"));
    assert_eq!(opts.header.as_deref(), Some("systemctl - restart: ^r | stop: ^s | start: ^t"));
}

#[test]
fn number_rendering_matches_decimal_notation() {
    assert_eq!(skim_run::text::u64_to_string(0), "0");
    assert_eq!(skim_run::text::u64_to_string(907), "907");
    assert_eq!(skim_run::text::u64_to_string(u64::MAX), "18446744073709551615");
    assert_eq!(skim_run::text::i64_to_string(-41), "-41");
    assert_eq!(skim_run::text::i64_to_string(i64::MIN), "-9223372036854775808");
}

#[test]
fn package_line_with_adjacent_separators_keeps_empty_fields() {
    let p = parse_package_line(&String::from("core  9"));
    assert_eq!(p.repo, "core");
    assert_eq!(p.name, "");
    assert_eq!(p.version, "9");
}

#[test]
fn window_label_omits_markers_for_visible_mapped_windows() {
    let w = Window {
        address: String::from("0x1"),
        class: String::from("term"),
        title: String::from("shell"),
        hidden: false,
        mapped: true,
        focus_history_id: 4,
        workspace_name: String::from("special:hidden"),
    };
    assert_eq!(skim_run::hyprctl_hide::window_label_text(&w), "shell [term]");
}

#[test]
fn split_args_collapses_runs_of_spaces() {
    assert_eq!(
        skim_run::text::split_args("  a  bc   d "),
        vec![String::from("a"), String::from("bc"), String::from("d")]
    );
    assert!(skim_run::text::split_args("   ").is_empty());
    assert!(skim_run::text::split_args("").is_empty());
}
