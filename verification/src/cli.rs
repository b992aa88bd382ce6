//! The command-line grammar: subcommands `create`, `update`, `get`,
//! `delete`, with their arguments.
//!
//! Accepted forms (the first token is the program name):
//!
//! - `create <name>`
//! - `delete <name>`
//! - `get -n <name>` / `get --name <name>`, or `get -a` / `get --all`
//!   (exactly one of the two)
//! - `update -n <name> -v <bool>` (either pair first; `-v`/`--value` takes
//!   exactly `true` or `false`)
//!
//! A positional value may not begin with `-`. Anything else is rejected.

use vstd::prelude::*;

use crate::text::str_eq;

verus! {

/// A parsed command line.
pub struct Cli {
    pub command: Commands,
}

pub enum Commands {
    Create(CreateArgs),
    Update(UpdateArgs),
    Get(GetArgs),
    Delete(DeleteArgs),
}

pub struct CreateArgs {
    pub name: String,
}

pub struct UpdateArgs {
    pub name: String,
    pub value: Option<bool>,
}

pub struct GetArgs {
    pub name: Option<String>,
    pub all: bool,
}

pub struct DeleteArgs {
    pub name: String,
}

pub open spec fn args_views(args: Seq<String>) -> Seq<Seq<char>> {
    args.map_values(|a: String| a@)
}

pub open spec fn is_name_flag(t: Seq<char>) -> bool {
    t == "-n"@ || t == "--name"@
}

pub open spec fn is_all_flag(t: Seq<char>) -> bool {
    t == "-a"@ || t == "--all"@
}

pub open spec fn is_value_flag(t: Seq<char>) -> bool {
    t == "-v"@ || t == "--value"@
}

pub open spec fn is_bool_token(t: Seq<char>) -> bool {
    t == "true"@ || t == "false"@
}

pub open spec fn bool_token_value(t: Seq<char>) -> bool {
    t == "true"@
}

/// A token that may stand as a positional value: it does not begin with `-`.
pub open spec fn is_positional(t: Seq<char>) -> bool {
    t.len() == 0 || t[0] != '-'
}

/// The argument lists the grammar accepts.
pub open spec fn wellformed_args(a: Seq<Seq<char>>) -> bool {
    &&& a.len() >= 2
    &&& {
        ||| (a[1] == "create"@ && a.len() == 3 && is_positional(a[2]))
        ||| (a[1] == "delete"@ && a.len() == 3 && is_positional(a[2]))
        ||| (a[1] == "get"@ && {
            ||| (a.len() == 4 && is_name_flag(a[2]) && is_positional(a[3]))
            ||| (a.len() == 3 && is_all_flag(a[2]))
        })
        ||| (a[1] == "update"@ && a.len() == 6 && {
            ||| (is_name_flag(a[2]) && is_positional(a[3]) && is_value_flag(a[4]) && is_bool_token(
                a[5],
            ))
            ||| (is_value_flag(a[2]) && is_bool_token(a[3]) && is_name_flag(a[4]) && is_positional(
                a[5],
            ))
        })
    }
}

/// What a well-formed argument list parses to.
pub open spec fn parse_ok(a: Seq<Seq<char>>, cli: Cli) -> bool {
    &&& a.len() >= 2
    &&& if a[1] == "create"@ {
        cli.command is Create && cli.command->Create_0.name@ == a[2]
    } else if a[1] == "delete"@ {
        cli.command is Delete && cli.command->Delete_0.name@ == a[2]
    } else if a[1] == "get"@ {
        &&& cli.command is Get
        &&& {
            ||| (a.len() == 4 && cli.command->Get_0.name is Some
                && cli.command->Get_0.name->Some_0@ == a[3] && cli.command->Get_0.all == false)
            ||| (a.len() == 3 && cli.command->Get_0.name is None && cli.command->Get_0.all == true)
        }
    } else if a[1] == "update"@ {
        &&& cli.command is Update
        &&& cli.command->Update_0.value is Some
        &&& {
            ||| (is_name_flag(a[2]) && cli.command->Update_0.name@ == a[3]
                && cli.command->Update_0.value->Some_0 == bool_token_value(a[5]))
            ||| (is_value_flag(a[2]) && cli.command->Update_0.name@ == a[5]
                && cli.command->Update_0.value->Some_0 == bool_token_value(a[3]))
        }
    } else {
        false
    }
}

fn is_name_flag_exec(t: &String) -> (r: bool)
    ensures
        r == is_name_flag(t@),
{
    str_eq(t.as_str(), "-n") || str_eq(t.as_str(), "--name")
}

fn is_all_flag_exec(t: &String) -> (r: bool)
    ensures
        r == is_all_flag(t@),
{
    str_eq(t.as_str(), "-a") || str_eq(t.as_str(), "--all")
}

fn is_value_flag_exec(t: &String) -> (r: bool)
    ensures
        r == is_value_flag(t@),
{
    str_eq(t.as_str(), "-v") || str_eq(t.as_str(), "--value")
}

fn is_bool_token_exec(t: &String) -> (r: bool)
    ensures
        r == is_bool_token(t@),
{
    str_eq(t.as_str(), "true") || str_eq(t.as_str(), "false")
}

fn is_positional_exec(t: &String) -> (r: bool)
    ensures
        r == is_positional(t@),
{
    let s = t.as_str();
    if s.unicode_len() == 0 {
        true
    } else {
        s.get_char(0) != '-'
    }
}

impl Cli {
    /// Parses an argument list (the first token is the program name):
    /// accepts exactly the grammar above, and maps each accepted list to
    /// its command.
    pub fn parse_from(args: &Vec<String>) -> (r: Result<Cli, String>)
        ensures
            r is Ok <==> wellformed_args(args_views(args@)),
            r is Ok ==> parse_ok(args_views(args@), r->Ok_0),
            r is Err ==> r->Err_0@ == "invalid arguments"@,
    {
        let ghost a = args_views(args@);
        proof {
            assert(a.len() == args@.len());
            assert forall|i: int| 0 <= i < args@.len() implies #[trigger] a[i] == args@[i]@ by {}
            reveal_strlit("create");
            reveal_strlit("delete");
            reveal_strlit("get");
            reveal_strlit("update");
            reveal_strlit("-n");
            reveal_strlit("--name");
            reveal_strlit("-a");
            reveal_strlit("--all");
            reveal_strlit("-v");
            reveal_strlit("--value");
            reveal_strlit("true");
            reveal_strlit("false");
            // The same-length keywords differ in their first character.
            assert("create"@[0] == 'c' && "delete"@[0] == 'd' && "update"@[0] == 'u');
            assert("create"@ != "delete"@);
            assert("create"@ != "update"@);
            assert("delete"@ != "update"@);
        }
        if args.len() < 2 {
            return Err(String::from_str("invalid arguments"));
        }
        let cmd = &args[1];
        if str_eq(cmd.as_str(), "create") {
            if args.len() == 3 && is_positional_exec(&args[2]) {
                Ok(Cli { command: Commands::Create(CreateArgs { name: args[2].clone() }) })
            } else {
                Err(String::from_str("invalid arguments"))
            }
        } else if str_eq(cmd.as_str(), "delete") {
            if args.len() == 3 && is_positional_exec(&args[2]) {
                Ok(Cli { command: Commands::Delete(DeleteArgs { name: args[2].clone() }) })
            } else {
                Err(String::from_str("invalid arguments"))
            }
        } else if str_eq(cmd.as_str(), "get") {
            if args.len() == 4 && is_name_flag_exec(&args[2]) && is_positional_exec(&args[3]) {
                Ok(
                    Cli {
                        command: Commands::Get(
                            GetArgs { name: Some(args[3].clone()), all: false },
                        ),
                    },
                )
            } else if args.len() == 3 && is_all_flag_exec(&args[2]) {
                Ok(Cli { command: Commands::Get(GetArgs { name: None, all: true }) })
            } else {
                Err(String::from_str("invalid arguments"))
            }
        } else if str_eq(cmd.as_str(), "update") {
            if args.len() == 6 && is_name_flag_exec(&args[2]) && is_positional_exec(&args[3])
                && is_value_flag_exec(&args[4]) && is_bool_token_exec(&args[5]) {
                let value = str_eq(args[5].as_str(), "true");
                Ok(
                    Cli {
                        command: Commands::Update(
                            UpdateArgs { name: args[3].clone(), value: Some(value) },
                        ),
                    },
                )
            } else if args.len() == 6 && is_value_flag_exec(&args[2]) && is_bool_token_exec(
                &args[3],
            ) && is_name_flag_exec(&args[4]) && is_positional_exec(&args[5]) {
                let value = str_eq(args[3].as_str(), "true");
                Ok(
                    Cli {
                        command: Commands::Update(
                            UpdateArgs { name: args[5].clone(), value: Some(value) },
                        ),
                    },
                )
            } else {
                Err(String::from_str("invalid arguments"))
            }
        } else {
            Err(String::from_str("invalid arguments"))
        }
    }
}

} // verus!
