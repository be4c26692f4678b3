//! Rendering of identifiers as text, and the lines that a request produces.

use crate::backend::{
    braced_lower, braced_upper, hyphenated_lower, hyphenated_upper, simple_lower, simple_upper,
    urn_lower, urn_upper,
};
use crate::cli::UuidArgs;
use crate::error::GenerateError;
use crate::generator::{
    answers, generate_next, lemma_version_tags, refusal, requested_version,
};
use crate::identifier::{not_below, Identifier};
use crate::sequence::SortableSource;
use crate::strings::{joined, same_text};
use crate::text::{
    braced_text, hyphenated_text, is_digit_of_case, lemma_ascii_encoding, lemma_braced_frame,
    lemma_forms_are_ascii, lemma_hyphenated_text, lemma_simple_text, lemma_urn_frame,
    parsed_identifier, simple_text, urn_prefix, urn_text,
};
use vstd::prelude::*;
use vstd::string::StringExecFns;
use vstd::utf8::encode_utf8;

verus! {

/// The four textual layouts of an identifier.
#[derive(Debug, Clone, Copy, PartialEq, Eq, Structural)]
pub enum FormatType {
    /// Digits in groups of 8, 4, 4, 4 and 12, joined by hyphens.
    Hyphenated,
    /// The 32 digits alone.
    Simple,
    /// The hyphenated form behind `urn:uuid:`.
    Urn,
    /// The hyphenated form between braces.
    Braced,
}

impl FormatType {
    /// The layout that a name stands for: the hyphenated one for every name
    /// but `simple`, `urn` and `braced`.
    pub open spec fn named(s: Seq<char>) -> FormatType {
        if s == "simple"@ {
            FormatType::Simple
        } else if s == "urn"@ {
            FormatType::Urn
        } else if s == "braced"@ {
            FormatType::Braced
        } else {
            FormatType::Hyphenated
        }
    }

    /// The layout that a name stands for.
    pub fn from_str(s: &str) -> (format: FormatType)
        ensures
            format == FormatType::named(s@),
    {
        if same_text(s, "simple") {
            FormatType::Simple
        } else if same_text(s, "urn") {
            FormatType::Urn
        } else if same_text(s, "braced") {
            FormatType::Braced
        } else {
            FormatType::Hyphenated
        }
    }
}

/// The text of sixteen identifier bytes in a layout and a case. The case is
/// that of the digits; hyphens, braces and the URN prefix are the same in
/// both.
pub open spec fn rendered_text(bytes: Seq<u8>, uppercase: bool, format: FormatType) -> Seq<char>
    recommends
        bytes.len() == 16,
{
    match format {
        FormatType::Hyphenated => hyphenated_text(bytes, uppercase),
        FormatType::Simple => simple_text(bytes, uppercase),
        FormatType::Urn => urn_text(bytes, uppercase),
        FormatType::Braced => braced_text(bytes, uppercase),
    }
}

/// Renders an identifier in a layout and a case.
pub fn format_uuid(uuid: &Identifier, uppercase: bool, format: FormatType) -> (s: String)
    ensures
        s@ == rendered_text(uuid@, uppercase, format),
{
    match format {
        FormatType::Hyphenated => {
            if uppercase {
                hyphenated_upper(&uuid.bytes)
            } else {
                hyphenated_lower(&uuid.bytes)
            }
        },
        FormatType::Simple => {
            if uppercase {
                simple_upper(&uuid.bytes)
            } else {
                simple_lower(&uuid.bytes)
            }
        },
        FormatType::Urn => {
            if uppercase {
                urn_upper(&uuid.bytes)
            } else {
                urn_lower(&uuid.bytes)
            }
        },
        FormatType::Braced => {
            if uppercase {
                braced_upper(&uuid.bytes)
            } else {
                braced_lower(&uuid.bytes)
            }
        },
    }
}

/// Reading a rendering back gives the identifier that was rendered, in each
/// of the four layouts and in both cases.
pub proof fn lemma_rendering_reads_back(bytes: Seq<u8>, uppercase: bool, format: FormatType)
    requires
        bytes.len() == 16,
    ensures
        parsed_identifier(encode_utf8(rendered_text(bytes, uppercase, format))) == Some(bytes),
{
    lemma_forms_are_ascii(bytes, uppercase);
    let canonical = hyphenated_text(bytes, uppercase);
    match format {
        FormatType::Hyphenated => {
            lemma_hyphenated_text(bytes, uppercase);
            lemma_ascii_encoding(canonical);
        },
        FormatType::Simple => {
            lemma_simple_text(bytes, uppercase);
            lemma_ascii_encoding(simple_text(bytes, uppercase));
        },
        FormatType::Urn => {
            lemma_hyphenated_text(bytes, uppercase);
            lemma_urn_frame(canonical);
            lemma_ascii_encoding(urn_text(bytes, uppercase));
        },
        FormatType::Braced => {
            lemma_hyphenated_text(bytes, uppercase);
            lemma_braced_frame(canonical);
            lemma_ascii_encoding(braced_text(bytes, uppercase));
        },
    }
}

/// The simple layout is exactly 32 hexadecimal digits, with no hyphen.
pub proof fn lemma_simple_is_digits_only(bytes: Seq<u8>, uppercase: bool)
    requires
        bytes.len() == 16,
    ensures
        rendered_text(bytes, uppercase, FormatType::Simple).len() == 32,
        forall|i: int|
            0 <= i < 32 ==> is_digit_of_case(
                #[trigger] rendered_text(bytes, uppercase, FormatType::Simple)[i],
                uppercase,
            ),
        !rendered_text(bytes, uppercase, FormatType::Simple).contains('-'),
{
    lemma_simple_text(bytes, uppercase);
    let text = simple_text(bytes, uppercase);
    assert forall|i: int| 0 <= i < text.len() implies text[i] != '-' by {
        assert(is_digit_of_case(text[i], uppercase));
    }
}

/// The URN layout starts with `urn:uuid:`; the braced layout starts with an
/// opening brace and ends with a closing one. Between them stands, in both,
/// the hyphenated layout.
pub proof fn lemma_frames(bytes: Seq<u8>, uppercase: bool)
    requires
        bytes.len() == 16,
    ensures
        rendered_text(bytes, uppercase, FormatType::Urn).len() == 45,
        rendered_text(bytes, uppercase, FormatType::Urn).subrange(0, 9) == "urn:uuid:"@,
        rendered_text(bytes, uppercase, FormatType::Urn).subrange(9, 45) == rendered_text(
            bytes,
            uppercase,
            FormatType::Hyphenated,
        ),
        rendered_text(bytes, uppercase, FormatType::Braced).len() == 38,
        rendered_text(bytes, uppercase, FormatType::Braced).first() == '{',
        rendered_text(bytes, uppercase, FormatType::Braced).last() == '}',
        rendered_text(bytes, uppercase, FormatType::Braced).subrange(1, 37) == rendered_text(
            bytes,
            uppercase,
            FormatType::Hyphenated,
        ),
{
    lemma_hyphenated_text(bytes, uppercase);
    let canonical = hyphenated_text(bytes, uppercase);
    lemma_urn_frame(canonical);
    lemma_braced_frame(canonical);
    reveal_strlit("urn:uuid:");
    assert(urn_prefix() =~= "urn:uuid:"@);
}

/// Whether a character is a lower-case ASCII letter.
pub open spec fn is_lower_letter(c: char) -> bool {
    'a' <= c <= 'z'
}

/// Whether a character is an upper-case ASCII letter.
pub open spec fn is_upper_letter(c: char) -> bool {
    'A' <= c <= 'Z'
}

/// Where the digits of a layout begin: behind the URN prefix, which is never
/// case-folded, and at the start of the other layouts.
pub open spec fn digits_start(format: FormatType) -> int {
    if format == FormatType::Urn {
        9
    } else {
        0
    }
}

/// A digit of one case is no letter of the other, and a hyphen is no letter.
proof fn lemma_case_of_canonical(bytes: Seq<u8>, uppercase: bool)
    requires
        bytes.len() == 16,
    ensures
        hyphenated_text(bytes, uppercase).len() == 36,
        forall|i: int|
            0 <= i < 36 ==> if uppercase {
                !is_lower_letter(#[trigger] hyphenated_text(bytes, uppercase)[i])
            } else {
                !is_upper_letter(hyphenated_text(bytes, uppercase)[i])
            },
{
    lemma_hyphenated_text(bytes, uppercase);
    let canonical = hyphenated_text(bytes, uppercase);
    assert forall|i: int| 0 <= i < 36 implies if uppercase {
        !is_lower_letter(#[trigger] canonical[i])
    } else {
        !is_upper_letter(canonical[i])
    } by {
        if i != 8 && i != 13 && i != 18 && i != 23 {
            assert(is_digit_of_case(canonical[i], uppercase));
        }
    }
}

/// In upper case no layout writes a lower-case letter from where its digits
/// begin, and in lower case none writes an upper-case letter.
pub proof fn lemma_case(bytes: Seq<u8>, uppercase: bool, format: FormatType)
    requires
        bytes.len() == 16,
    ensures
        forall|i: int|
            digits_start(format) <= i < rendered_text(bytes, uppercase, format).len() ==> if uppercase {
                !is_lower_letter(#[trigger] rendered_text(bytes, uppercase, format)[i])
            } else {
                !is_upper_letter(rendered_text(bytes, uppercase, format)[i])
            },
{
    let canonical = hyphenated_text(bytes, uppercase);
    let text = rendered_text(bytes, uppercase, format);
    match format {
        FormatType::Hyphenated => {
            lemma_case_of_canonical(bytes, uppercase);
        },
        FormatType::Simple => {
            lemma_simple_text(bytes, uppercase);
            assert forall|i: int| 0 <= i < text.len() implies if uppercase {
                !is_lower_letter(#[trigger] text[i])
            } else {
                !is_upper_letter(text[i])
            } by {
                assert(is_digit_of_case(text[i], uppercase));
            }
        },
        FormatType::Urn => {
            lemma_case_of_canonical(bytes, uppercase);
            lemma_urn_frame(canonical);
            assert forall|i: int| 9 <= i < text.len() implies if uppercase {
                !is_lower_letter(#[trigger] text[i])
            } else {
                !is_upper_letter(text[i])
            } by {
                assert(text[i] == canonical[i - 9]);
            }
        },
        FormatType::Braced => {
            lemma_case_of_canonical(bytes, uppercase);
            lemma_braced_frame(canonical);
            assert forall|i: int| 0 <= i < text.len() implies if uppercase {
                !is_lower_letter(#[trigger] text[i])
            } else {
                !is_upper_letter(text[i])
            } by {
                if 1 <= i < 37 {
                    assert(text[i] == canonical[i - 1]);
                }
            }
        },
    }
}

/// The text is the rendering, as the request asks for it, of an identifier
/// that answers the request.
pub open spec fn is_line_of(args: UuidArgs, line: Seq<char>) -> bool {
    exists|id: Seq<u8>|
        {
            &&& id.len() == 16
            &&& answers(args, id)
            &&& line == #[trigger] rendered_text(id, args.uppercase, FormatType::named(args.format@))
        }
}

/// No identifier of the sequence, taken as a number, is below one that
/// stands before it.
pub open spec fn never_go_back(ids: Seq<Identifier>) -> bool {
    forall|i: int, j: int|
        0 <= i <= j < ids.len() ==> not_below(#[trigger] ids[j]@, #[trigger] ids[i]@)
}

/// The identifiers are what a request that is not refused produces: as many
/// as it asks for, each answering it and, for version 7, none below an
/// earlier one.
pub open spec fn is_batch_of(args: UuidArgs, ids: Seq<Identifier>) -> bool {
    &&& ids.len() == args.count
    &&& forall|i: int| 0 <= i < ids.len() ==> answers(args, #[trigger] ids[i]@)
    &&& requested_version(args) == "v7"@ ==> never_go_back(ids)
}

/// The lines are the renderings of the identifiers, one for one and in the
/// same order.
pub open spec fn are_renderings(
    ids: Seq<Identifier>,
    uppercase: bool,
    format: FormatType,
    lines: Seq<String>,
) -> bool {
    &&& lines.len() == ids.len()
    &&& forall|i: int|
        0 <= i < lines.len() ==> (#[trigger] lines[i])@ == rendered_text(
            ids[i]@,
            uppercase,
            format,
        )
}

/// Generates the identifiers of a request, in the order in which they are
/// asked of the generator.
///
/// A request for no identifier gives none and is never refused. Any other
/// request is refused exactly when one identifier for it would be.
pub fn generate_identifiers(args: &UuidArgs) -> (r: Result<Vec<Identifier>, GenerateError>)
    ensures
        match r {
            Ok(ids) => (args.count == 0 || refusal(*args) is None) && is_batch_of(*args, ids@),
            Err(e) => args.count > 0 && refusal(*args) == Some(e),
        },
{
    let mut source = SortableSource::new();
    let mut ids: Vec<Identifier> = Vec::new();
    let mut i: usize = 0;
    while i < args.count
        invariant
            i <= args.count,
            ids@.len() == i,
            i > 0 ==> refusal(*args) is None,
            forall|k: int| 0 <= k < ids@.len() ==> answers(*args, #[trigger] ids@[k]@),
            requested_version(*args) == "v7"@ ==> never_go_back(ids@),
            requested_version(*args) == "v7"@ ==> forall|k: int|
                0 <= k < ids@.len() ==> not_below(source.last(), #[trigger] ids@[k]@),
        decreases args.count - i,
    {
        let ghost before = ids@;
        let uuid = match generate_next(&mut source, args) {
            Ok(uuid) => uuid,
            Err(e) => {
                return Err(e);
            },
        };
        ids.push(uuid);
        proof {
            assert forall|k: int| 0 <= k < ids@.len() implies answers(
                *args,
                #[trigger] ids@[k]@,
            ) by {
                if k < before.len() {
                    assert(ids@[k] == before[k]);
                }
            }
            if requested_version(*args) == "v7"@ {
                assert forall|k: int| 0 <= k < ids@.len() implies not_below(
                    source.last(),
                    #[trigger] ids@[k]@,
                ) by {
                    if k < before.len() {
                        assert(ids@[k] == before[k]);
                    }
                }
                assert forall|m: int, n: int| 0 <= m <= n < ids@.len() implies not_below(
                    #[trigger] ids@[n]@,
                    #[trigger] ids@[m]@,
                ) by {
                    if n < before.len() {
                        assert(ids@[n] == before[n] && ids@[m] == before[m]);
                    }
                }
            }
        }
        i += 1;
    }
    Ok(ids)
}

/// Renders identifiers, one line for each and in their order.
pub fn render_lines(ids: &Vec<Identifier>, uppercase: bool, format: FormatType) -> (lines: Vec<
    String,
>)
    ensures
        are_renderings(ids@, uppercase, format, lines@),
{
    let mut lines: Vec<String> = Vec::new();
    let mut i: usize = 0;
    while i < ids.len()
        invariant
            i <= ids@.len(),
            are_renderings(ids@.subrange(0, i as int), uppercase, format, lines@),
        decreases ids@.len() - i,
    {
        let ghost before = lines@;
        let line = format_uuid(&ids[i], uppercase, format);
        lines.push(line);
        proof {
            assert forall|k: int| 0 <= k < lines@.len() implies (#[trigger] lines@[k])@
                == rendered_text(ids@.subrange(0, i as int + 1)[k]@, uppercase, format) by {
                if k < before.len() {
                    assert(lines@[k] == before[k]);
                    assert(ids@.subrange(0, i as int)[k] == ids@[k]);
                }
            }
        }
        i += 1;
    }
    assert(ids@.subrange(0, i as int) =~= ids@);
    lines
}

/// Generates and renders the identifiers of a request, in the order in which
/// they are generated.
///
/// A request for no identifier gives no line and is never refused. Any other
/// request is refused exactly when one identifier for it would be. The lines
/// are the renderings, in order, of a batch of identifiers for the request.
pub fn generate_lines(args: &UuidArgs) -> (r: Result<Vec<String>, GenerateError>)
    ensures
        match r {
            Ok(lines) => {
                &&& args.count == 0 || refusal(*args) is None
                &&& lines@.len() == args.count
                &&& exists|ids: Seq<Identifier>|
                    #[trigger] is_batch_of(*args, ids) && are_renderings(
                        ids,
                        args.uppercase,
                        FormatType::named(args.format@),
                        lines@,
                    )
                &&& forall|i: int| 0 <= i < lines@.len() ==> is_line_of(*args, #[trigger] lines@[i]@)
            },
            Err(e) => args.count > 0 && refusal(*args) == Some(e),
        },
{
    let format_type = FormatType::from_str(args.format.as_str());
    let ids = match generate_identifiers(args) {
        Ok(ids) => ids,
        Err(e) => {
            return Err(e);
        },
    };
    let lines = render_lines(&ids, args.uppercase, format_type);
    proof {
        assert(is_batch_of(*args, ids@));
        assert forall|i: int| 0 <= i < lines@.len() implies is_line_of(
            *args,
            #[trigger] lines@[i]@,
        ) by {
            let id = ids@[i]@;
            assert(answers(*args, id));
            assert(lines@[i]@ == rendered_text(
                id,
                args.uppercase,
                FormatType::named(args.format@),
            ));
        }
    }
    Ok(lines)
}

/// Each line of a batch reads back as the identifier that it renders. So the
/// lines of a version 7 request, read back and taken as numbers, never go
/// back from one line to a later one.
pub proof fn lemma_lines_keep_the_order(
    args: UuidArgs,
    ids: Seq<Identifier>,
    lines: Seq<String>,
    i: int,
    j: int,
)
    requires
        is_batch_of(args, ids),
        are_renderings(ids, args.uppercase, FormatType::named(args.format@), lines),
        0 <= i <= j < lines.len(),
    ensures
        parsed_identifier(encode_utf8(lines[i]@)) == Some(ids[i]@),
        parsed_identifier(encode_utf8(lines[j]@)) == Some(ids[j]@),
        requested_version(args) == "v7"@ ==> not_below(
            parsed_identifier(encode_utf8(lines[j]@))->0,
            parsed_identifier(encode_utf8(lines[i]@))->0,
        ),
{
    lemma_rendering_reads_back(ids[i]@, args.uppercase, FormatType::named(args.format@));
    lemma_rendering_reads_back(ids[j]@, args.uppercase, FormatType::named(args.format@));
}

/// Every line that a request produces reads back as an identifier, and as
/// one that answers the request.
pub proof fn lemma_lines_read_back(args: UuidArgs, line: Seq<char>)
    requires
        is_line_of(args, line),
    ensures
        parsed_identifier(encode_utf8(line)) is Some,
        answers(args, parsed_identifier(encode_utf8(line))->0),
{
    let id = choose|id: Seq<u8>|
        {
            &&& id.len() == 16
            &&& answers(args, id)
            &&& line == #[trigger] rendered_text(id, args.uppercase, FormatType::named(args.format@))
        };
    lemma_rendering_reads_back(id, args.uppercase, FormatType::named(args.format@));
}

/// Two requests for the same name-based version, with the same namespace
/// tag, name, layout and case, produce the same lines.
pub proof fn lemma_name_based_lines_agree(
    a: UuidArgs,
    b: UuidArgs,
    first: Seq<char>,
    second: Seq<char>,
)
    requires
        requested_version(a) == "v3"@ || requested_version(a) == "v5"@,
        requested_version(b) == requested_version(a),
        a.namespace is Some && b.namespace is Some && a.namespace->0@ == b.namespace->0@,
        a.name is Some && b.name is Some && a.name->0@ == b.name->0@,
        a.format@ == b.format@,
        a.uppercase == b.uppercase,
        is_line_of(a, first),
        is_line_of(b, second),
    ensures
        first == second,
{
    lemma_version_tags();
    let x = choose|id: Seq<u8>|
        {
            &&& id.len() == 16
            &&& answers(a, id)
            &&& first == #[trigger] rendered_text(id, a.uppercase, FormatType::named(a.format@))
        };
    let y = choose|id: Seq<u8>|
        {
            &&& id.len() == 16
            &&& answers(b, id)
            &&& second == #[trigger] rendered_text(id, b.uppercase, FormatType::named(b.format@))
        };
    assert(x == y);
}

/// The lines joined by line feeds, with none after the last.
pub open spec fn joined_lines(lines: Seq<String>) -> Seq<char>
    decreases lines.len(),
{
    if lines.len() == 0 {
        Seq::empty()
    } else if lines.len() == 1 {
        lines[0]@
    } else {
        joined_lines(lines.drop_last()) + seq!['\n'] + lines.last()@
    }
}

/// The text that goes to the clipboard: the lines joined by line feeds.
pub fn clipboard_text(lines: &Vec<String>) -> (s: String)
    ensures
        s@ == joined_lines(lines@),
{
    let mut s = String::new();
    let mut i: usize = 0;
    proof {
        reveal_strlit("\n");
        assert("\n"@ =~= seq!['\n']);
    }
    while i < lines.len()
        invariant
            i <= lines@.len(),
            "\n"@ == seq!['\n'],
            s@ == joined_lines(lines@.subrange(0, i as int)),
        decreases lines@.len() - i,
    {
        let ghost before = lines@.subrange(0, i as int);
        let ghost after = lines@.subrange(0, i as int + 1);
        assert(after.drop_last() =~= before);
        assert(after.last() == lines@[i as int]);
        if i > 0 {
            s.append("\n");
        } else {
            assert(s@ + lines@[i as int]@ =~= lines@[i as int]@);
        }
        s.append(lines[i].as_str());
        i += 1;
    }
    assert(lines@.subrange(0, i as int) =~= lines@);
    s
}

/// Why the clipboard could not take the text.
#[derive(Debug, Clone, PartialEq, Eq)]
pub enum ClipboardError {
    /// The clipboard could not be opened; holds the cause.
    Unavailable(String),
    /// The clipboard was opened but refused the text; holds the cause.
    WriteFailed(String),
}

impl ClipboardError {
    /// The message shown for this failure.
    pub open spec fn message_text(&self) -> Seq<char> {
        match self {
            ClipboardError::Unavailable(cause) => "Failed to initialize clipboard: "@ + cause@
                + ". Is a display server running?"@,
            ClipboardError::WriteFailed(cause) => "Failed to copy to clipboard: "@ + cause@,
        }
    }

    /// The message shown for this failure.
    pub fn message(&self) -> (s: String)
        ensures
            s@ == self.message_text(),
    {
        match self {
            ClipboardError::Unavailable(cause) => {
                let mut s = joined("Failed to initialize clipboard: ", cause.as_str());
                s.append(". Is a display server running?");
                s
            },
            ClipboardError::WriteFailed(cause) => joined(
                "Failed to copy to clipboard: ",
                cause.as_str(),
            ),
        }
    }
}

} // verus!
