use clap::{App, AppSettings, Arg, ErrorKind, SubCommand};
use zokrates_cli::nova::{
    command_about, command_name, dispatch, display_order_of, exec, route, step_name, str_equal,
    subcommand, try_exec, NovaStep,
};

fn nova_app() -> App<'static, 'static> {
    subcommand(SubCommand::with_name("setup"), SubCommand::with_name("prove"))
}

fn run(args: &[&str]) -> Result<(), String> {
    let matches = nova_app().get_matches_from_safe(args.iter()).unwrap();
    exec(&matches, |step, m| Err(format!("{} {}", step_name(step), m.args.len())))
}

#[test]
fn step_names() {
    assert_eq!(step_name(NovaStep::Setup), "setup");
    assert_eq!(step_name(NovaStep::Prove), "prove");
}

#[test]
fn display_orders_list_setup_first() {
    assert_eq!(display_order_of(NovaStep::Setup), 1);
    assert_eq!(display_order_of(NovaStep::Prove), 2);
}

#[test]
fn command_texts() {
    assert_eq!(command_name(), "nova");
    assert_eq!(command_about(), "Nova IVC");
}

#[test]
fn str_equal_cases() {
    assert!(str_equal("", ""));
    assert!(str_equal("setup", "setup"));
    assert!(!str_equal("setup", "setu"));
    assert!(!str_equal("setup", "Setup"));
    assert!(str_equal("ünï", "ünï"));
    assert!(!str_equal("ünï", "üni"));
}

#[test]
fn route_declared_names() {
    assert_eq!(route("setup"), Some(NovaStep::Setup));
    assert_eq!(route("prove"), Some(NovaStep::Prove));
}

#[test]
fn route_other_names() {
    assert_eq!(route(""), None);
    assert_eq!(route("nova"), None);
    assert_eq!(route("setupx"), None);
    assert_eq!(route("PROVE"), None);
}

#[test]
fn route_of_step_name_round_trip() {
    for step in [NovaStep::Setup, NovaStep::Prove] {
        assert_eq!(route(step_name(step)), Some(step));
    }
}

#[test]
fn declared_command_is_named_nova() {
    assert_eq!(nova_app().get_name(), "nova");
}

#[test]
fn exec_runs_setup() {
    assert_eq!(run(&["nova", "setup"]), Err("setup 0".to_string()));
}

#[test]
fn exec_runs_prove() {
    assert_eq!(run(&["nova", "prove"]), Err("prove 0".to_string()));
}

#[test]
fn exec_passes_handler_success_through() {
    let matches = nova_app().get_matches_from_safe(["nova", "prove"].iter()).unwrap();
    assert_eq!(exec(&matches, |step, _| if step == NovaStep::Setup { Err("setup".to_string()) } else { Ok(()) }), Ok(()));
}

#[test]
fn missing_subcommand_is_refused() {
    let err = nova_app().get_matches_from_safe(["nova"].iter()).unwrap_err();
    assert_eq!(err.kind, ErrorKind::MissingArgumentOrSubcommand);
}

#[test]
fn unknown_subcommand_is_refused() {
    let err = nova_app().get_matches_from_safe(["nova", "verify"].iter()).unwrap_err();
    assert_eq!(err.kind, ErrorKind::UnknownArgument);
}

#[test]
fn help_describes_and_orders_steps() {
    let mut out: Vec<u8> = Vec::new();
    nova_app().write_help(&mut out).unwrap();
    let help = String::from_utf8(out).unwrap();
    assert!(help.contains("Nova IVC"));
    let setup_at = help.find("    setup").unwrap();
    let prove_at = help.find("    prove").unwrap();
    assert!(setup_at < prove_at);
}

#[test]
fn exec_without_subcommand_is_none() {
    let matches = App::new("nova").get_matches_from_safe(["nova"].iter()).unwrap();
    assert_eq!(try_exec(&matches, |_, _| Ok(())), None);
}

#[test]
fn exec_with_other_subcommand_is_none() {
    let app = App::new("nova").subcommand(SubCommand::with_name("verify"));
    let matches = app.get_matches_from_safe(["nova", "verify"].iter()).unwrap();
    assert_eq!(try_exec(&matches, |_, _| Ok(())), None);
}

#[test]
fn dispatch_cases() {
    let matches = nova_app().get_matches_from_safe(["nova", "setup"].iter()).unwrap();
    let (_, sub) = matches.subcommand();
    let sub = sub.unwrap();
    let by_step = |step: NovaStep, _: &clap::ArgMatches<'static>| -> Result<(), String> {
        Err(step_name(step).to_string())
    };
    assert_eq!(dispatch(("setup", Some(sub)), by_step), Some(Err("setup".to_string())));
    assert_eq!(dispatch(("prove", Some(sub)), by_step), Some(Err("prove".to_string())));
    assert_eq!(dispatch(("other", Some(sub)), by_step), None);
    assert_eq!(dispatch(("setup", None), by_step), None);
    assert_eq!(dispatch(("", None), by_step), None);
}

#[test]
fn declaration_fields() {
    let app = subcommand(
        SubCommand::with_name("setup").about("set up"),
        SubCommand::with_name("prove"),
    );
    assert_eq!(app.p.meta.name, "nova");
    assert_eq!(app.p.meta.disp_ord, 999);
    assert_eq!(app.p.meta.about, Some("Nova IVC"));
    assert!(app.p.is_set(AppSettings::SubcommandRequiredElseHelp));
    assert_eq!(app.p.subcommands.len(), 2);
    assert_eq!(app.p.subcommands[0].p.meta.name, "setup");
    assert_eq!(app.p.subcommands[0].p.meta.disp_ord, 1);
    assert_eq!(app.p.subcommands[0].p.meta.about, Some("set up"));
    assert!(!app.p.subcommands[0].p.is_set(AppSettings::SubcommandRequiredElseHelp));
    assert_eq!(app.p.subcommands[1].p.meta.name, "prove");
    assert_eq!(app.p.subcommands[1].p.meta.disp_ord, 2);
    assert_eq!(app.p.subcommands[1].p.meta.about, None);
}

#[test]
fn try_exec_runs_declared_steps() {
    let matches = nova_app().get_matches_from_safe(["nova", "setup"].iter()).unwrap();
    assert_eq!(
        try_exec(&matches, |step, _| if step == NovaStep::Setup { Err("s".to_string()) } else { Ok(()) }),
        Some(Err("s".to_string()))
    );
    let matches = nova_app().get_matches_from_safe(["nova", "prove"].iter()).unwrap();
    assert_eq!(
        try_exec(&matches, |step, _| if step == NovaStep::Setup { Err("s".to_string()) } else { Ok(()) }),
        Some(Ok(()))
    );
}

#[test]
fn try_exec_on_default_matches_is_none() {
    let matches: clap::ArgMatches<'static> = clap::ArgMatches::default();
    assert_eq!(try_exec(&matches, |_, _| Ok(())), None);
}

#[test]
fn exec_hands_child_matches_to_handler() {
    let app = subcommand(
        SubCommand::with_name("setup").arg(Arg::with_name("path").required(true)),
        SubCommand::with_name("prove"),
    );
    let matches = app.get_matches_from_safe(["nova", "setup", "circuit.zok"].iter()).unwrap();
    let seen = exec(&matches, |_, m| Err(m.value_of("path").unwrap_or("").to_string()));
    assert_eq!(seen, Err("circuit.zok".to_string()));
}

#[test]
fn declaration_keeps_child_arguments() {
    let app = subcommand(
        SubCommand::with_name("setup").arg(Arg::with_name("path").required(true)),
        SubCommand::with_name("prove"),
    );
    assert_eq!(app.p.subcommands[0].p.positionals.len(), 1);
    assert!(app.clone().get_matches_from_safe(["nova", "setup"].iter()).is_err());
    assert!(app.get_matches_from_safe(["nova", "setup", "a"].iter()).is_ok());
}

#[test]
fn exec_calls_the_handler_once_with_the_routed_step() {
    let matches = nova_app().get_matches_from_safe(["nova", "prove"].iter()).unwrap();
    let mut calls: Vec<NovaStep> = Vec::new();
    let result = exec(&matches, |step, _| {
        calls.push(step);
        Ok(())
    });
    assert_eq!(result, Ok(()));
    assert_eq!(calls, vec![NovaStep::Prove]);
}

#[test]
fn try_exec_does_not_call_the_handler_without_a_step() {
    let matches = App::new("nova").get_matches_from_safe(["nova"].iter()).unwrap();
    let mut calls = 0;
    let result = try_exec(&matches, |_, _| {
        calls += 1;
        Ok(())
    });
    assert_eq!(result, None);
    assert_eq!(calls, 0);
}

#[test]
fn declared_children_take_the_parent_width() {
    let app = subcommand(
        SubCommand::with_name("setup").set_term_width(80).about("set up"),
        SubCommand::with_name("prove").set_term_width(40),
    );
    assert_eq!(app.p.meta.term_w, None);
    assert_eq!(app.p.subcommands[0].p.meta.term_w, None);
    assert_eq!(app.p.subcommands[1].p.meta.term_w, None);
    assert_eq!(app.p.subcommands[0].p.meta.name, "setup");
    assert_eq!(app.p.subcommands[0].p.meta.about, Some("set up"));
    assert_eq!(app.p.subcommands[0].p.meta.disp_ord, 1);
}
