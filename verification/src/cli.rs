//! The command line: what the program is asked to do, and where its secrets
//! are taken from.

use vstd::prelude::*;

use crate::text::opt_view;

verus! {

/// The database path used when none is given.
pub const DEFAULT_DATABASE_PATH: &'static str = "./tcdb.lmdb";

/// The parsed command line.
#[derive(Debug)]
pub struct Cli {
    pub command: Option<Command>,
}

/// What the program is asked to do.
#[derive(Debug)]
pub enum Command {
    /// Generate a new private key, to be passed to `Start`.
    Privkey,
    /// Start the bot.
    Start {
        /// The private key that encrypts the users' keys.
        privkey: Option<String>,
        /// The Telegram bot token.
        token: Option<String>,
        /// Path to the database.
        database: String,
    },
}

/// The first of the three places a setting may come from that holds it: the
/// command line, then the `.env` file, then the process environment.
pub open spec fn spec_resolve_setting(
    from_cli: Option<Seq<char>>,
    from_dotenv: Option<Seq<char>>,
    from_env: Option<Seq<char>>,
) -> Option<Seq<char>> {
    if from_cli is Some {
        from_cli
    } else if from_dotenv is Some {
        from_dotenv
    } else {
        from_env
    }
}

/// Picks a setting from the command line, else the `.env` file, else the
/// process environment. `None` means that the setting is missing everywhere,
/// which stops the program.
pub fn resolve_setting(
    from_cli: Option<String>,
    from_dotenv: Option<String>,
    from_env: Option<String>,
) -> (r: Option<String>)
    ensures
        opt_view(r) == spec_resolve_setting(opt_view(from_cli), opt_view(from_dotenv), opt_view(from_env)),
{
    match from_cli {
        Some(s) => Some(s),
        None => match from_dotenv {
            Some(s) => Some(s),
            None => from_env,
        },
    }
}

} // verus!
