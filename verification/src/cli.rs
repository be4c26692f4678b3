//! The request as it comes from the command line.

use vstd::prelude::*;
use vstd::string::StringExecFns;

verus! {

/// The whole command line.
#[derive(Debug, Clone)]
pub struct Cli {
    /// The subcommand, if one was given.
    pub command: Option<Commands>,
    /// Whether the output is also copied to the clipboard.
    pub clipboard: bool,
}

/// The subcommands.
#[derive(Debug, Clone)]
pub enum Commands {
    /// Generate identifiers.
    Uuid(UuidArgs),
}

/// A request for identifiers. Only the parameters of the version asked for
/// are read; the others are ignored.
#[derive(Debug, Clone)]
pub struct UuidArgs {
    /// The version, `v1` to `v8`; version 7 where none is given.
    pub version: Option<String>,
    /// The output form: `hyphenated`, `simple`, `urn` or `braced`.
    pub format: String,
    /// Whether the digits are written in upper case.
    pub uppercase: bool,
    /// How many identifiers to generate.
    pub count: usize,
    /// The node id as 12 hexadecimal digits (versions 1 and 6).
    pub node_id: Option<String>,
    /// Ask for a random node id (versions 1 and 6).
    pub random_node: bool,
    /// The namespace: `dns`, `url`, `oid`, `x500` or an identifier text
    /// (versions 3 and 5).
    pub namespace: Option<String>,
    /// The name to hash (versions 3 and 5).
    pub name: Option<String>,
    /// The custom bytes as 32 hexadecimal digits (version 8).
    pub bytes: Option<String>,
}

impl UuidArgs {
    /// Whether this is the request made when nothing is asked for: one
    /// version 7 identifier in the canonical form, lower case.
    pub open spec fn is_default_v7(&self) -> bool {
        &&& self.version matches Some(v) && v@ == "v7"@
        &&& self.format@ == "hyphenated"@
        &&& !self.uppercase
        &&& self.count == 1
        &&& self.node_id is None
        &&& !self.random_node
        &&& self.namespace is None
        &&& self.name is None
        &&& self.bytes is None
    }

    /// The request made when nothing is asked for.
    pub fn default_v7() -> (args: Self)
        ensures
            args.is_default_v7(),
    {
        UuidArgs {
            version: Some(String::from_str("v7")),
            format: String::from_str("hyphenated"),
            uppercase: false,
            count: 1,
            node_id: None,
            random_node: false,
            namespace: None,
            name: None,
            bytes: None,
        }
    }
}

impl Cli {
    /// The request that the command line stands for: that of the subcommand,
    /// or the default where there is none.
    pub fn into_request(self) -> (args: UuidArgs)
        ensures
            match self.command {
                Some(Commands::Uuid(given)) => args == given,
                None => args.is_default_v7(),
            },
    {
        match self.command {
            Some(Commands::Uuid(given)) => given,
            None => UuidArgs::default_v7(),
        }
    }
}

} // verus!
