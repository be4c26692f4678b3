//! Why a request for an identifier is refused.

use crate::hex::HexError;
use crate::strings::{decimal, decimal_text, joined};
use vstd::prelude::*;
use vstd::string::StringExecFns;

verus! {

/// The two classes of refusal.
#[derive(Debug, Clone, Copy, PartialEq, Eq, Structural)]
pub enum ErrorKind {
    /// A parameter is missing or malformed.
    InvalidInput,
    /// The version asked for is not one that can be generated.
    UnsupportedVersion,
}

/// A refused request.
#[derive(Debug, Clone, PartialEq, Eq)]
pub enum GenerateError {
    /// The version is none of `v1`, `v3`, `v4`, `v5`, `v6`, `v7`, `v8`; holds
    /// the version that was asked for.
    UnsupportedVersion(String),
    /// A name-based version was asked for without a name.
    MissingName,
    /// A name-based version was asked for without a namespace.
    MissingNamespace,
    /// The custom version was asked for without bytes.
    MissingBytes,
    /// The node id is not 12 bytes long; holds its length.
    NodeIdLength(usize),
    /// The node id has 12 bytes, and a pair of them is not text.
    NodeIdNotText,
    /// The node id has 12 bytes, and a pair of them is not hexadecimal.
    NodeIdNotHex,
    /// The custom bytes are not 32 bytes long; holds their length.
    BytesLength(usize),
    /// The custom bytes are 32 bytes long, and a pair of them is not text.
    BytesNotText,
    /// The custom bytes are 32 bytes long, and a pair of them is not
    /// hexadecimal.
    BytesNotHex,
    /// The namespace is neither a well-known tag nor an identifier text.
    InvalidNamespace,
}

impl GenerateError {
    /// The refusal of a node id that did not decode.
    pub open spec fn node_id(e: HexError) -> GenerateError {
        match e {
            HexError::Length(n) => GenerateError::NodeIdLength(n),
            HexError::NotText => GenerateError::NodeIdNotText,
            HexError::NotHex => GenerateError::NodeIdNotHex,
        }
    }

    /// The refusal of custom bytes that did not decode.
    pub open spec fn custom_bytes(e: HexError) -> GenerateError {
        match e {
            HexError::Length(n) => GenerateError::BytesLength(n),
            HexError::NotText => GenerateError::BytesNotText,
            HexError::NotHex => GenerateError::BytesNotHex,
        }
    }

    /// The class of this refusal.
    pub open spec fn spec_kind(&self) -> ErrorKind {
        match self {
            GenerateError::UnsupportedVersion(_) => ErrorKind::UnsupportedVersion,
            _ => ErrorKind::InvalidInput,
        }
    }

    /// What a node id has to be. Every refusal of a node id starts with it.
    pub open spec fn node_id_rule() -> Seq<char> {
        "Node ID must be exactly 12 hex characters"@
    }

    /// What custom bytes have to be. Every refusal of custom bytes that were
    /// given starts with it.
    pub open spec fn custom_bytes_rule() -> Seq<char> {
        "Bytes must be exactly 32 hex characters"@
    }

    /// What was found in place of hexadecimal text of the right length.
    pub open spec fn found_text(&self) -> Seq<char> {
        match self {
            GenerateError::NodeIdLength(n) | GenerateError::BytesLength(n) => decimal_text(
                *n as nat,
            ),
            GenerateError::NodeIdNotText | GenerateError::BytesNotText => "invalid UTF-8"@,
            _ => "an invalid hex digit"@,
        }
    }

    /// The message shown for this refusal. A refusal of hexadecimal text
    /// names the length that was expected, then what was found.
    pub open spec fn message_text(&self) -> Seq<char> {
        match self {
            GenerateError::UnsupportedVersion(v) => "Unsupported UUID version: "@ + v@,
            GenerateError::MissingName => "--name is required for v3/v5"@,
            GenerateError::MissingNamespace => "--namespace is required for v3/v5"@,
            GenerateError::MissingBytes => "--bytes is required for v8"@,
            GenerateError::NodeIdLength(_)
            | GenerateError::NodeIdNotText
            | GenerateError::NodeIdNotHex => GenerateError::node_id_rule() + ", got "@
                + self.found_text(),
            GenerateError::BytesLength(_)
            | GenerateError::BytesNotText
            | GenerateError::BytesNotHex => GenerateError::custom_bytes_rule() + ", got "@
                + self.found_text(),
            GenerateError::InvalidNamespace => "Invalid namespace UUID"@,
        }
    }

    /// Whether this is the refusal of a node id that was given.
    pub open spec fn is_of_node_id(&self) -> bool {
        self is NodeIdLength || self is NodeIdNotText || self is NodeIdNotHex
    }

    /// Whether this is the refusal of custom bytes that were given.
    pub open spec fn is_of_custom_bytes(&self) -> bool {
        self is BytesLength || self is BytesNotText || self is BytesNotHex
    }

    /// The message for refused hexadecimal text begins by naming the length
    /// that was expected: 12 hexadecimal characters for a node id, 32 for
    /// custom bytes.
    pub proof fn lemma_message_names_the_length(&self)
        ensures
            self.is_of_node_id() ==> self.message_text().subrange(
                0,
                GenerateError::node_id_rule().len() as int,
            ) == GenerateError::node_id_rule(),
            self.is_of_custom_bytes() ==> self.message_text().subrange(
                0,
                GenerateError::custom_bytes_rule().len() as int,
            ) == GenerateError::custom_bytes_rule(),
            self.is_of_node_id() || self.is_of_custom_bytes() ==> self.spec_kind()
                == ErrorKind::InvalidInput,
    {
        let text = self.message_text();
        if self.is_of_node_id() {
            let rule = GenerateError::node_id_rule();
            assert(text.subrange(0, rule.len() as int) =~= rule);
        }
        if self.is_of_custom_bytes() {
            let rule = GenerateError::custom_bytes_rule();
            assert(text.subrange(0, rule.len() as int) =~= rule);
        }
    }

    /// The class of this refusal.
    pub fn kind(&self) -> (k: ErrorKind)
        ensures
            k == self.spec_kind(),
    {
        match self {
            GenerateError::UnsupportedVersion(_) => ErrorKind::UnsupportedVersion,
            _ => ErrorKind::InvalidInput,
        }
    }

    /// What was found in place of hexadecimal text of the right length.
    fn found(&self) -> (s: String)
        ensures
            s@ == self.found_text(),
    {
        match self {
            GenerateError::NodeIdLength(n) | GenerateError::BytesLength(n) => decimal(*n),
            GenerateError::NodeIdNotText | GenerateError::BytesNotText => String::from_str(
                "invalid UTF-8",
            ),
            _ => String::from_str("an invalid hex digit"),
        }
    }

    /// The message shown for this refusal.
    pub fn message(&self) -> (s: String)
        ensures
            s@ == self.message_text(),
    {
        match self {
            GenerateError::UnsupportedVersion(v) => joined("Unsupported UUID version: ", v.as_str()),
            GenerateError::MissingName => String::from_str("--name is required for v3/v5"),
            GenerateError::MissingNamespace => String::from_str(
                "--namespace is required for v3/v5",
            ),
            GenerateError::MissingBytes => String::from_str("--bytes is required for v8"),
            GenerateError::NodeIdLength(_)
            | GenerateError::NodeIdNotText
            | GenerateError::NodeIdNotHex => {
                let mut s = joined("Node ID must be exactly 12 hex characters", ", got ");
                s.append(self.found().as_str());
                s
            },
            GenerateError::BytesLength(_)
            | GenerateError::BytesNotText
            | GenerateError::BytesNotHex => {
                let mut s = joined("Bytes must be exactly 32 hex characters", ", got ");
                s.append(self.found().as_str());
                s
            },
            GenerateError::InvalidNamespace => String::from_str("Invalid namespace UUID"),
        }
    }
}

} // verus!
