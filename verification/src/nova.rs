use vstd::prelude::*;
use clap::{App, ArgMatches};
use crate::clap_items::{
    add_subcommands, declare_command, declared_header, given_child, given_name, given_subcommand,
    adopted, reordered, subcommand_list, term_width, set_about, set_display_order, set_setting,
    CommandSetting,
};

verus! {

/// The two steps of Nova IVC that the `nova` command offers.
#[derive(PartialEq, Eq, Structural, Clone, Copy, Debug)]
pub enum NovaStep {
    Setup,
    Prove,
}

/// The name under which a step is declared and recognised.
pub open spec fn spec_step_name(step: NovaStep) -> Seq<char> {
    match step {
        NovaStep::Setup => "setup"@,
        NovaStep::Prove => "prove"@,
    }
}

/// The name of a step as the parser knows it.
pub fn step_name(step: NovaStep) -> (name: &'static str)
    ensures
        name@ == spec_step_name(step),
{
    match step {
        NovaStep::Setup => "setup",
        NovaStep::Prove => "prove",
    }
}

/// Position of a step in the help listing of the `nova` command: `setup` is
/// listed first, `prove` second.
pub open spec fn spec_display_order(step: NovaStep) -> usize {
    match step {
        NovaStep::Setup => 1,
        NovaStep::Prove => 2,
    }
}

/// The display order given to a step when the command is declared.
pub fn display_order_of(step: NovaStep) -> (order: usize)
    ensures
        order == spec_display_order(step),
{
    match step {
        NovaStep::Setup => 1,
        NovaStep::Prove => 2,
    }
}

/// The step that a subcommand name selects, if any.
pub open spec fn spec_route(name: Seq<char>) -> Option<NovaStep> {
    if name == spec_step_name(NovaStep::Setup) {
        Some(NovaStep::Setup)
    } else if name == spec_step_name(NovaStep::Prove) {
        Some(NovaStep::Prove)
    } else {
        None
    }
}

/// Character-wise equality of two string slices.
pub fn str_equal(a: &str, b: &str) -> (equal: bool)
    ensures
        equal == (a@ == b@),
{
    let n = a.unicode_len();
    if n != b.unicode_len() {
        return false;
    }
    let mut i: usize = 0;
    while i < n
        invariant
            n == a@.len(),
            n == b@.len(),
            i <= n,
            forall|j: int| 0 <= j < i ==> a@[j] == b@[j],
        decreases n - i,
    {
        if a.get_char(i) != b.get_char(i) {
            return false;
        }
        i = i + 1;
    }
    assert(a@ =~= b@);
    true
}

/// Selects the step named by a matched subcommand: `setup` and `prove`
/// select their step, every other name selects none.
pub fn route(name: &str) -> (step: Option<NovaStep>)
    ensures
        step == spec_route(name@),
{
    if str_equal(name, step_name(NovaStep::Setup)) {
        Some(NovaStep::Setup)
    } else if str_equal(name, step_name(NovaStep::Prove)) {
        Some(NovaStep::Prove)
    } else {
        None
    }
}

/// Every declared step is routed back to itself: the name under which a step
/// is declared selects exactly that step.
pub proof fn lemma_route_of_step_name(step: NovaStep)
    ensures
        spec_route(spec_step_name(step)) == Some(step),
{
    reveal_strlit("setup");
    reveal_strlit("prove");
    assert("setup"@[0] != "prove"@[0]);
}

/// Only the declared names select a step.
pub proof fn lemma_route_only_declared(name: Seq<char>)
    ensures
        spec_route(name) is Some <==> exists|step: NovaStep| spec_step_name(step) == name,
{
    if spec_route(name) is Some {
        assert(spec_step_name(spec_route(name)->0) == name);
    }
}

/// The declared steps have distinct names and distinct display orders, and
/// `setup` is listed before `prove`.
pub proof fn lemma_steps_distinct(a: NovaStep, b: NovaStep)
    ensures
        a != b ==> spec_step_name(a) != spec_step_name(b),
        a != b ==> spec_display_order(a) != spec_display_order(b),
        spec_display_order(NovaStep::Setup) < spec_display_order(NovaStep::Prove),
{
    reveal_strlit("setup");
    reveal_strlit("prove");
    assert("setup"@[0] != "prove"@[0]);
}


/// The name of the command.
pub fn command_name() -> (name: &'static str)
    ensures
        name@ == "nova"@,
{
    "nova"
}

/// The short description shown in the help of the command.
pub fn command_about() -> (about: &'static str)
    ensures
        about@ == "Nova IVC"@,
{
    "Nova IVC"
}

/// What a declaration is listed with once it is placed as the subcommand of
/// `step`: its own name, description and setting, and the display order of
/// that step.
pub open spec fn listed_header(
    header: (Seq<char>, usize, Option<Seq<char>>, bool),
    step: NovaStep,
) -> (Seq<char>, usize, Option<Seq<char>>, bool) {
    (header.0, spec_display_order(step), header.2, header.3)
}

/// `nova` is the declaration of the `nova` command with the given `setup` and
/// `prove` declarations: named `nova`, with the default display order, the
/// description "Nova IVC", a subcommand required and no terminal width; its
/// subcommands are the given declarations, in that order, each with its
/// display order set to that of its step and its terminal width to that of
/// `nova` (none), and each listed with its own name, description and setting.
pub open spec fn declares_nova(
    nova: App<'static, 'static>,
    setup: App<'static, 'static>,
    prove: App<'static, 'static>,
) -> bool {
    &&& declared_header(nova) == ("nova"@, 999usize, Some("Nova IVC"@), true)
    &&& term_width(nova) is None
    &&& subcommand_list(nova) == seq![
        adopted(reordered(setup, spec_display_order(NovaStep::Setup)), None),
        adopted(reordered(prove, spec_display_order(NovaStep::Prove)), None),
    ]
    &&& declared_header(subcommand_list(nova)[0]) == listed_header(declared_header(setup), NovaStep::Setup)
    &&& declared_header(subcommand_list(nova)[1]) == listed_header(declared_header(prove), NovaStep::Prove)
}

/// Declares the `nova` command: named `nova`, described as "Nova IVC",
/// refusing to run without a subcommand (showing the help instead), with the
/// given `setup` and `prove` declarations as its subcommands, listed in that
/// order (display orders 1 and 2). Its own display order is left at the
/// default.
pub fn subcommand(setup: App<'static, 'static>, prove: App<'static, 'static>) -> (nova: App<'static, 'static>)
    ensures
        declares_nova(nova, setup, prove),
{
    let listed_setup = set_display_order(setup, display_order_of(NovaStep::Setup));
    let listed_prove = set_display_order(prove, display_order_of(NovaStep::Prove));
    let mut steps: Vec<App<'static, 'static>> = Vec::new();
    steps.push(listed_setup);
    steps.push(listed_prove);
    let app = declare_command(command_name());
    let app = set_about(app, command_about());
    let app = set_setting(app, CommandSetting::SubcommandRequiredElseHelp);
    let nova = add_subcommands(app, steps);
    assert(subcommand_list(nova) =~= seq![adopted(listed_setup, None), adopted(listed_prove, None)]);
    assert(declared_header(subcommand_list(nova)[0]) == declared_header(steps@[0]));
    assert(declared_header(subcommand_list(nova)[1]) == declared_header(steps@[1]));
    nova
}

/// Declaration and routing agree: when the `setup` and `prove` declarations
/// carry the names of their steps, each subcommand of the `nova` declaration
/// is routed to its own step, and is listed with that step's display order.
pub proof fn lemma_declared_subcommands_route(
    nova: App<'static, 'static>,
    setup: App<'static, 'static>,
    prove: App<'static, 'static>,
)
    requires
        declares_nova(nova, setup, prove),
        declared_header(setup).0 == spec_step_name(NovaStep::Setup),
        declared_header(prove).0 == spec_step_name(NovaStep::Prove),
    ensures
        subcommand_list(nova).len() == 2,
        spec_route(declared_header(subcommand_list(nova)[0]).0) == Some(NovaStep::Setup),
        spec_route(declared_header(subcommand_list(nova)[1]).0) == Some(NovaStep::Prove),
        declared_header(subcommand_list(nova)[0]).1 == spec_display_order(NovaStep::Setup),
        declared_header(subcommand_list(nova)[1]).1 == spec_display_order(NovaStep::Prove),
{
    lemma_route_of_step_name(NovaStep::Setup);
    lemma_route_of_step_name(NovaStep::Prove);
}

/// Routes the subcommand that parsing found, given as `clap` reports it (its
/// name, and its matches when one was given): for `setup` or `prove`, the
/// handler is called once, with that step and the subcommand's matches, and
/// the result is `Some` of what it returns; with no subcommand, or one of
/// another name, the handler is not called and the result is `None`.
pub fn dispatch<'s, 'a, F>(
    given: (&'s str, Option<&'s ArgMatches<'a>>),
    handler: F,
) -> (result: Option<Result<(), String>>) where
    F: FnOnce(NovaStep, &'s ArgMatches<'a>) -> Result<(), String>,

    requires
        given.1 matches Some(m) && spec_route(given.0@) matches Some(step) ==> handler.requires((step, m)),
    ensures
        given.1 matches Some(m) && spec_route(given.0@) matches Some(step) ==> result matches Some(r)
            && handler.ensures((step, m), r),
        given.1 is None || spec_route(given.0@) is None ==> result is None,
{
    let (name, matches) = given;
    match matches {
        Some(m) => match route(name) {
            Some(step) => Some(handler(step, m)),
            None => None,
        },
        None => None,
    }
}

/// Executes a parsed `nova` invocation whose subcommand is `setup` or
/// `prove` (on any other the command has no step to run): calls the handler
/// once, with that step and the subcommand's matches, and returns what it
/// returns.
pub fn exec<'s, F>(sub_matches: &'s ArgMatches<'static>, handler: F) -> (result: Result<(), String>) where
    F: FnOnce(NovaStep, &'s ArgMatches<'static>) -> Result<(), String>,

    requires
        given_name(*sub_matches) matches Some(n) && spec_route(n) is Some,
        forall|c: &'s ArgMatches<'static>|
            given_child(*sub_matches) == Some(*c) ==> handler.requires(
                (spec_route(given_name(*sub_matches)->0)->0, c),
            ),
    ensures
        exists|c: &'s ArgMatches<'static>|
            given_child(*sub_matches) == Some(*c) && handler.ensures(
                (spec_route(given_name(*sub_matches)->0)->0, c),
                result,
            ),
{
    match dispatch(given_subcommand(sub_matches), handler) {
        Some(r) => r,
        None => vstd::pervasive::unreached(),
    }
}

/// Executes a parsed `nova` invocation when its subcommand is `setup` or
/// `prove`, returning `Some` of what `exec` returns; on any other outcome of
/// parsing (no subcommand, or one of another name) it does not call the
/// handler and returns `None`.
pub fn try_exec<'s, F>(sub_matches: &'s ArgMatches<'static>, handler: F) -> (result: Option<Result<(), String>>) where
    F: FnOnce(NovaStep, &'s ArgMatches<'static>) -> Result<(), String>,

    requires
        forall|c: &'s ArgMatches<'static>, step: NovaStep|
            given_child(*sub_matches) == Some(*c) && given_name(*sub_matches) is Some && spec_route(
                given_name(*sub_matches)->0,
            ) == Some(step) ==> handler.requires((step, c)),
    ensures
        match given_name(*sub_matches) {
            None => result is None,
            Some(n) => match spec_route(n) {
                None => result is None,
                Some(step) => result matches Some(r) && exists|c: &'s ArgMatches<'static>|
                    given_child(*sub_matches) == Some(*c) && handler.ensures((step, c), r),
            },
        },
{
    let (name, child) = given_subcommand(sub_matches);
    if child.is_some() && route(name).is_some() {
        Some(exec(sub_matches, handler))
    } else {
        None
    }
}

} // verus!
