//! The items of `clap` that the `nova` command uses, each with the contract
//! that the rest of the crate relies on.

use vstd::prelude::*;
use clap::{App, AppSettings, ArgMatches, SubCommand};

verus! {

/// `clap::App`, a command declaration. Its contents are seen only through
/// `declared_header`, `subcommand_list` and `reordered`.
#[verifier::external_type_specification]
#[verifier::external_body]
pub struct ExApp<'a: 'b, 'b>(App<'a, 'b>);

/// `clap::ArgMatches`, the result of parsing a command line. Its contents are
/// seen only through `given_name` and `given_child`.
#[verifier::external_type_specification]
#[verifier::external_body]
pub struct ExArgMatches<'a>(ArgMatches<'a>);

/// Settings that a command declaration can carry.
#[derive(PartialEq, Eq, Structural, Clone, Copy, Debug)]
pub enum CommandSetting {
    /// Parsing fails, showing the help, when no subcommand is given.
    SubcommandRequiredElseHelp,
}

/// What a declaration is listed with, as `clap` stores it in the
/// declaration: its name (`p.meta.name`), its display order
/// (`p.meta.disp_ord`), its short description (`p.meta.about`), and whether
/// the setting `SubcommandRequiredElseHelp` is on (in `p.settings`).
pub uninterp spec fn declared_header(app: App<'static, 'static>) -> (Seq<char>, usize, Option<Seq<char>>, bool);

/// The subcommand declarations that a declaration holds (`p.subcommands`),
/// in the order they were added.
pub uninterp spec fn subcommand_list(app: App<'static, 'static>) -> Seq<App<'static, 'static>>;

/// The terminal width a declaration wraps its help to (`p.meta.term_w`), if
/// one was set.
pub uninterp spec fn term_width(app: App<'static, 'static>) -> Option<usize>;

/// What a parent whose terminal width is `width` stores when `child` is added
/// as its subcommand (`Parser::add_subcommand`): the child with its terminal
/// width replaced by `width`.
pub uninterp spec fn adopted(child: App<'static, 'static>, width: Option<usize>) -> App<'static, 'static>;

/// What `clap::App::display_order` returns for a declaration and an order:
/// the same declaration with only its display order replaced.
pub uninterp spec fn reordered(app: App<'static, 'static>, order: usize) -> App<'static, 'static>;

/// The name of the subcommand that parsing found (`subcommand.name`), or
/// `None` when no subcommand was given.
pub uninterp spec fn given_name(matches: ArgMatches<'static>) -> Option<Seq<char>>;

/// The matches of the subcommand that parsing found (`subcommand.matches`), or
/// `None` when no subcommand was given.
pub uninterp spec fn given_child(matches: ArgMatches<'static>) -> Option<ArgMatches<'static>>;

/// Calls `clap::SubCommand::with_name`, which returns `App::new(name)`: a
/// declaration with that name, the default display order 999, no
/// description, the setting off, no terminal width and no subcommands.
#[verifier::external_body]
pub(crate) fn declare_command(name: &str) -> (app: App<'static, 'static>)
    ensures
        declared_header(app) == (name@, 999usize, None::<Seq<char>>, false),
        term_width(app) is None,
        subcommand_list(app).len() == 0,
{
    SubCommand::with_name(name)
}

/// Calls `clap::App::about`, which sets the short description of the
/// declaration and changes nothing else that is modelled here.
#[verifier::external_body]
pub(crate) fn set_about(app: App<'static, 'static>, about: &'static str) -> (result: App<'static, 'static>)
    ensures
        declared_header(result) == (declared_header(app).0, declared_header(app).1, Some(about@), declared_header(app).3),
        term_width(result) == term_width(app),
        subcommand_list(result) == subcommand_list(app),
{
    app.about(about)
}

/// Calls `clap::App::setting` with the `AppSettings` variant of the same name,
/// which turns the setting on and changes nothing else that is modelled here.
#[verifier::external_body]
pub(crate) fn set_setting(app: App<'static, 'static>, setting: CommandSetting) -> (result: App<'static, 'static>)
    ensures
        declared_header(result) == (declared_header(app).0, declared_header(app).1, declared_header(app).2, true),
        term_width(result) == term_width(app),
        subcommand_list(result) == subcommand_list(app),
{
    match setting {
        CommandSetting::SubcommandRequiredElseHelp => app.setting(AppSettings::SubcommandRequiredElseHelp),
    }
}

/// Calls `clap::App::display_order`, which sets the position of the
/// declaration in its parent's help listing and changes nothing else.
#[verifier::external_body]
pub(crate) fn set_display_order(app: App<'static, 'static>, order: usize) -> (result: App<'static, 'static>)
    ensures
        result == reordered(app, order),
        declared_header(result) == (declared_header(app).0, order, declared_header(app).2, declared_header(app).3),
        subcommand_list(result) == subcommand_list(app),
{
    app.display_order(order)
}

/// Calls `clap::App::subcommands`, which appends the given declarations, in
/// order, to the subcommands of `app`, each with its terminal width set to
/// that of `app` (which leaves what it is listed with unchanged), and changes
/// nothing else of `app` that is modelled here.
#[verifier::external_body]
pub(crate) fn add_subcommands(
    app: App<'static, 'static>,
    subcommands: Vec<App<'static, 'static>>,
) -> (result: App<'static, 'static>)
    ensures
        declared_header(result) == declared_header(app),
        term_width(result) == term_width(app),
        subcommand_list(result) == subcommand_list(app) + subcommands@.map_values(
            |child: App<'static, 'static>| adopted(child, term_width(app)),
        ),
        forall|i: int|
            subcommand_list(app).len() <= i < subcommand_list(result).len() ==> #[trigger] declared_header(
                subcommand_list(result)[i],
            ) == declared_header(subcommands@[i - subcommand_list(app).len()]),
{
    app.subcommands(subcommands)
}

/// Calls `clap::ArgMatches::subcommand`, which returns the name and the
/// matches of the subcommand that parsing found, or `("", None)` when none was.
#[verifier::external_body]
pub(crate) fn given_subcommand<'s>(
    matches: &'s ArgMatches<'static>,
) -> (given: (&'s str, Option<&'s ArgMatches<'static>>))
    ensures
        given_name(*matches) is None <==> given.1 is None,
        given_child(*matches) is None <==> given.1 is None,
        given_name(*matches) matches Some(n) ==> given.0@ == n,
        given.1 matches Some(c) ==> *c == given_child(*matches)->0,
{
    matches.subcommand()
}

} // verus!
