//! The arguments of the program.

use vstd::prelude::*;

verus! {

/// The configuration file to use if no other is named.
pub const DEFAULT_CONFIG_FILE: &'static str = "./statime.toml";

/// The arguments that the program was started with.
pub struct Args {
    /// The configuration file to use.
    pub config_file: Option<String>,
}

impl Args {
    /// The arguments, given the configuration file that was named, if any.
    pub fn new(named: Option<String>) -> (args: Args)
        ensures
            args.config_file is Some,
            named is Some ==> args.config_file == named,
            named is None ==> args.config_file->0@ == DEFAULT_CONFIG_FILE@,
    {
        match named {
            Some(path) => Args { config_file: Some(path) },
            None => Args { config_file: Some(DEFAULT_CONFIG_FILE.to_owned()) },
        }
    }
}

/// The configuration file to use if no other is named lies in the working directory.
pub proof fn law_default_config_file()
    ensures
        DEFAULT_CONFIG_FILE@ == "./statime.toml"@,
{
}

/// A configuration file that was named is the one that is used.
pub proof fn law_named_config_file(named: Option<String>, args: Args)
    requires
        call_ensures(Args::new, (named,), args),
    ensures
        named is Some ==> args.config_file == named,
        named is None ==> args.config_file is Some && args.config_file->0@ == "./statime.toml"@,
{
}

} // verus!
