//! Command-line core of a tool that talks to a competitive-programming judge:
//! typed parsing of the `login` / `test` / `submit` subcommands, resolution of
//! a user-supplied language token into a canonical judge language id, and the
//! three-valued code-visibility policy with its wire encoding.

pub mod cli;
pub mod code_open;
pub mod lang;
pub mod strutil;
