use opencode_container::cli::{apply_web_flag, preprocess_args, run, Cli, Commands, Dispatch};
use opencode_container::text::{parse_u16, u16_to_decimal};
use opencode_container::util::{detect_web_mode, will_start_web_server};

fn strings(items: &[&str]) -> Vec<String> {
    items.iter().map(|s| s.to_string()).collect()
}

#[test]
fn web_server_starts_for_plain_web() {
    assert!(will_start_web_server(&strings(&["web", "--port", "5000"])));
    assert!(will_start_web_server(&strings(&[])));
}

#[test]
fn web_server_skipped_for_help_and_version() {
    for flag in ["--version", "-v", "--help", "-h", "help"] {
        assert!(!will_start_web_server(&strings(&["web", flag])), "{}", flag);
    }
    assert!(will_start_web_server(&strings(&["web", "--helpful"])));
}

#[test]
fn non_web_args_are_unchanged() {
    let args = strings(&["run", "--port", "5000"]);
    let (web, port, host, out) = detect_web_mode(&args, 4096);
    assert!(!web);
    assert_eq!(port, 4096);
    assert!(!host);
    assert_eq!(out, args);
    let (web, port, _, out) = detect_web_mode(&[], 4096);
    assert!(!web);
    assert_eq!(port, 4096);
    assert!(out.is_empty());
}

#[test]
fn web_defaults_are_injected() {
    let (web, port, host, out) = detect_web_mode(&strings(&["web"]), 4096);
    assert!(web);
    assert_eq!(port, 4096);
    assert!(!host);
    assert_eq!(out, strings(&["web", "--hostname", "0.0.0.0", "--port", "4096"]));
}

#[test]
fn web_custom_port_is_used() {
    let (web, port, host, out) = detect_web_mode(&strings(&["web", "--port", "5000"]), 4096);
    assert!(web);
    assert_eq!(port, 5000);
    assert!(!host);
    assert_eq!(out, strings(&["web", "--port", "5000", "--hostname", "0.0.0.0"]));
}

#[test]
fn web_custom_hostname_and_port_keep_args() {
    let args = strings(&["web", "--hostname", "127.0.0.1", "--port", "5000"]);
    let (web, port, host, out) = detect_web_mode(&args, 4096);
    assert!(web);
    assert_eq!(port, 5000);
    assert!(host);
    assert_eq!(out, args);
}

#[test]
fn web_invalid_port_falls_back_to_default() {
    let (_, port, _, out) = detect_web_mode(&strings(&["web", "--port", "abc"]), 4096);
    assert_eq!(port, 4096);
    assert_eq!(
        out,
        strings(&["web", "--port", "abc", "--hostname", "0.0.0.0", "--port", "4096"])
    );
    let (_, port, _, _) = detect_web_mode(&strings(&["web", "--port", "70000"]), 4096);
    assert_eq!(port, 4096);
    let (_, port, _, _) = detect_web_mode(&strings(&["web", "--port"]), 4100);
    assert_eq!(port, 4100);
}

#[test]
fn web_last_port_wins() {
    let (_, port, _, _) =
        detect_web_mode(&strings(&["web", "--port", "5000", "--port", "+6000"]), 4096);
    assert_eq!(port, 6000);
    let (_, port, _, _) =
        detect_web_mode(&strings(&["web", "--port", "5000", "--port", "x"]), 4096);
    assert_eq!(port, 5000);
}

#[test]
fn web_flag_in_first_position_is_not_counted() {
    // only arguments after `web` are inspected
    let (web, _, _, _) = detect_web_mode(&strings(&["--port", "web"]), 4096);
    assert!(!web);
}

#[test]
fn separator_gets_run_inserted() {
    let out = preprocess_args(strings(&["opencode-container", "--", "web"]));
    assert_eq!(out, strings(&["opencode-container", "run", "--", "web"]));
    let out = preprocess_args(strings(&["opencode-container", "-b", "--", "web", "--port", "1"]));
    assert_eq!(out, strings(&["opencode-container", "-b", "run", "--", "web", "--port", "1"]));
}

#[test]
fn separator_after_subcommand_is_left_alone() {
    let args = strings(&["opencode-container", "run", "--", "web"]);
    assert_eq!(preprocess_args(args.clone()), args);
    let args = strings(&["opencode-container", "projects", "--"]);
    assert_eq!(preprocess_args(args.clone()), args);
}

#[test]
fn no_separator_is_left_alone() {
    let args = strings(&["opencode-container", "-b"]);
    assert_eq!(preprocess_args(args.clone()), args);
    assert_eq!(preprocess_args(vec![]), Vec::<String>::new());
}

#[test]
fn subcommand_after_separator_does_not_count() {
    let out = preprocess_args(strings(&["opencode-container", "--", "help"]));
    assert_eq!(out, strings(&["opencode-container", "run", "--", "help"]));
}

#[test]
fn preprocessing_twice_is_preprocessing_once() {
    for args in [
        strings(&["prog", "--", "web"]),
        strings(&["prog", "-w", "--", "--", "x"]),
        strings(&["prog", "completion", "--bash"]),
    ] {
        let once = preprocess_args(args);
        assert_eq!(preprocess_args(once.clone()), once);
    }
}

#[test]
fn program_name_separator_breaks_idempotence() {
    // the one input family outside the idempotence law: `--` as program name
    let once = preprocess_args(strings(&["--"]));
    assert_eq!(once, strings(&["run", "--"]));
    let twice = preprocess_args(once);
    assert_eq!(twice, strings(&["run", "run", "--"]));
}

fn cli(command: Option<Commands>) -> Cli {
    Cli {
        build: false,
        feature_file: vec![],
        env_file: vec![],
        env: vec![],
        local_env: vec![],
        web: false,
        port: 4096,
        no_open: false,
        no_git_root: false,
        no_git_init: false,
        command,
        opencode_args: strings(&["web"]),
    }
}

#[test]
fn dispatch_follows_the_subcommand() {
    assert!(matches!(run(cli(Some(Commands::Projects))), Dispatch::Projects));
    assert!(matches!(
        run(cli(Some(Commands::Completion { bash: true, zsh: false, fish: false, powershell: true }))),
        Dispatch::Completion { bash: true, zsh: false, fish: false, powershell: true }
    ));
    match run(cli(None)) {
        Dispatch::Run(c) => assert_eq!(c.opencode_args, strings(&["web"])),
        other => panic!("unexpected {:?}", other),
    }
}

#[test]
fn run_subcommand_passes_its_arguments() {
    let c = cli(Some(Commands::Run { opencode_args: strings(&["web", "--port", "5000"]) }));
    match run(c) {
        Dispatch::Run(c) => {
            assert_eq!(c.opencode_args, strings(&["web", "--port", "5000"]));
            assert!(c.command.is_none());
            assert_eq!(c.port, 4096);
        },
        other => panic!("unexpected {:?}", other),
    }
}

#[test]
fn web_flag_starts_web_mode() {
    let mut c = cli(None);
    c.web = true;
    c.opencode_args = vec![];
    match run(c) {
        Dispatch::Run(c) => assert_eq!(c.opencode_args, strings(&["web"])),
        other => panic!("unexpected {:?}", other),
    }
    let mut c = cli(Some(Commands::Run { opencode_args: strings(&["--port", "5000"]) }));
    c.web = true;
    match run(c) {
        Dispatch::Run(c) => assert_eq!(c.opencode_args, strings(&["web", "--port", "5000"])),
        other => panic!("unexpected {:?}", other),
    }
    // already in web mode: nothing is added
    let mut c = cli(None);
    c.web = true;
    match run(c) {
        Dispatch::Run(c) => assert_eq!(c.opencode_args, strings(&["web"])),
        other => panic!("unexpected {:?}", other),
    }
    assert_eq!(apply_web_flag(false, strings(&["x"])), strings(&["x"]));
}

#[test]
fn tui_counts_as_a_subcommand() {
    assert_eq!(preprocess_args(strings(&["oc", "tui", "--", "web"])), strings(&["oc", "tui", "--", "web"]));
}

#[test]
fn web_equals_forms_are_honoured() {
    let args = strings(&["web", "--hostname=127.0.0.1", "--port=5000"]);
    let (web, port, host, out) = detect_web_mode(&args, 4096);
    assert!(web);
    assert_eq!(port, 5000);
    assert!(host);
    assert_eq!(out, args);
    let (_, port, host, out) = detect_web_mode(&strings(&["web", "--port=abc"]), 4096);
    assert_eq!(port, 4096);
    assert!(!host);
    assert_eq!(out, strings(&["web", "--port=abc", "--hostname", "0.0.0.0", "--port", "4096"]));
}

#[test]
fn detecting_again_changes_nothing() {
    for args in [
        strings(&["web"]),
        strings(&["web", "--port", "5000"]),
        strings(&["web", "--port"]),
        strings(&["web", "--hostname", "h", "--port", "x"]),
    ] {
        let (_, port, _, out) = detect_web_mode(&args, 4096);
        let (web2, port2, host2, out2) = detect_web_mode(&out, 4096);
        assert!(web2);
        assert!(host2);
        assert_eq!(port2, port);
        assert_eq!(out2, out);
    }
}

#[test]
fn decimal_text_parses_back() {
    for n in [0u16, 9, 10, 4096, 65535] {
        assert_eq!(parse_u16(&u16_to_decimal(n)), Some(n));
    }
}
