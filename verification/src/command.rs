//! Validation of the untyped option list into a typed `PlayedCommand`.
//!
//! The option list may carry unrelated options, which are ignored; parsing
//! fails exactly when the string option named "user" or the number option
//! named "days" is absent, and never substitutes a default.

use vstd::prelude::*;
use vstd::string::StringExecFns;

use crate::text::str_eq;
use crate::types::BotError;
use crate::types::CommandOption;
use crate::types::PlayedCommand;

verus! {

/// The value of one option, if it is the string option named "user".
pub open spec fn user_value(opt: CommandOption) -> Option<Seq<char>> {
    match opt {
        CommandOption::StringCommandOption(o) => if o.name@ == "user"@ {
            Some(o.value@)
        } else {
            None
        },
        CommandOption::NumberCommandOption(_) => None,
    }
}

/// The value of one option, if it is the number option named "days".
pub open spec fn days_value(opt: CommandOption) -> Option<u64> {
    match opt {
        CommandOption::NumberCommandOption(o) => if o.name@ == "days"@ {
            Some(o.value)
        } else {
            None
        },
        CommandOption::StringCommandOption(_) => None,
    }
}

/// The first "user" string option of the list, if any.
pub open spec fn find_user(opts: Seq<CommandOption>) -> Option<Seq<char>>
    decreases opts.len(),
{
    if opts.len() == 0 {
        None
    } else if user_value(opts[0]) is Some {
        user_value(opts[0])
    } else {
        find_user(opts.drop_first())
    }
}

/// The first "days" number option of the list, if any.
pub open spec fn find_days(opts: Seq<CommandOption>) -> Option<u64>
    decreases opts.len(),
{
    if opts.len() == 0 {
        None
    } else if days_value(opts[0]) is Some {
        days_value(opts[0])
    } else {
        find_days(opts.drop_first())
    }
}

/// The error returned when the option list cannot be validated.
pub open spec fn missing_option_error(e: BotError) -> bool {
    e.status_code == 400 && e.body@ == "Could not find player name"@
}

fn parse_error() -> (r: BotError)
    ensures
        missing_option_error(r),
{
    let mut body = String::new();
    body.append("Could not find player name");
    BotError { status_code: 400, body }
}

/// Scans the options for the first string option named "user", ignoring
/// every other option.
fn scan_user(options: &Vec<CommandOption>) -> (r: Option<String>)
    ensures
        match r {
            Some(v) => find_user(options@) == Some(v@),
            None => find_user(options@) is None,
        },
{
    let mut i: usize = 0;
    proof {
        assert(options@.skip(0) =~= options@);
    }
    while i < options.len()
        invariant
            i <= options@.len(),
            find_user(options@) == find_user(options@.skip(i as int)),
        decreases options@.len() - i,
    {
        proof {
            assert(options@.skip(i as int).drop_first() =~= options@.skip(i as int + 1));
            assert(options@.skip(i as int)[0] == options@[i as int]);
        }
        match &options[i] {
            CommandOption::StringCommandOption(o) => {
                if str_eq(o.name.as_str(), "user") {
                    return Some(o.value.clone());
                }
            },
            CommandOption::NumberCommandOption(_) => {},
        }
        i += 1;
    }
    proof {
        assert(options@.skip(options@.len() as int) =~= Seq::<CommandOption>::empty());
    }
    None
}

/// Scans the options for the first number option named "days", ignoring
/// every other option.
fn scan_days(options: &Vec<CommandOption>) -> (r: Option<u64>)
    ensures
        r == find_days(options@),
{
    let mut i: usize = 0;
    proof {
        assert(options@.skip(0) =~= options@);
    }
    while i < options.len()
        invariant
            i <= options@.len(),
            find_days(options@) == find_days(options@.skip(i as int)),
        decreases options@.len() - i,
    {
        proof {
            assert(options@.skip(i as int).drop_first() =~= options@.skip(i as int + 1));
            assert(options@.skip(i as int)[0] == options@[i as int]);
        }
        match &options[i] {
            CommandOption::NumberCommandOption(o) => {
                if str_eq(o.name.as_str(), "days") {
                    return Some(o.value);
                }
            },
            CommandOption::StringCommandOption(_) => {},
        }
        i += 1;
    }
    proof {
        assert(options@.skip(options@.len() as int) =~= Seq::<CommandOption>::empty());
    }
    None
}

/// Validates the raw option list: succeeds exactly when a "user" string
/// option and a "days" number option are both present, preserving their
/// values; fails with a client-error envelope otherwise. Unknown options are
/// ignored.
pub fn build_played_command(command_options: Vec<CommandOption>) -> (r: Result<
    PlayedCommand,
    BotError,
>)
    ensures
        match r {
            Ok(cmd) => {
                &&& find_user(command_options@) == Some(cmd.player_name@)
                &&& find_days(command_options@) == Some(cmd.days)
            },
            Err(e) => {
                &&& find_user(command_options@) is None || find_days(command_options@) is None
                &&& missing_option_error(e)
            },
        },
{
    let player_name = match scan_user(&command_options) {
        Some(v) => v,
        None => {
            return Err(parse_error());
        },
    };
    let days = match scan_days(&command_options) {
        Some(v) => v,
        None => {
            return Err(parse_error());
        },
    };
    Ok(PlayedCommand { player_name, days })
}

} // verus!
