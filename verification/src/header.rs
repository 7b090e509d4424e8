//! The header extractor: finds the first `From:` line of a message and
//! decodes its value into the sender identity.

use vstd::prelude::*;
use vstd::string::StrSliceExecFns;

verus! {

/// Whether the line carries the sender header: it starts with the literal
/// prefix `From: `.
pub open spec fn is_from_line(s: Seq<char>) -> bool {
    &&& s.len() >= 6
    &&& s[0] == 'F'
    &&& s[1] == 'r'
    &&& s[2] == 'o'
    &&& s[3] == 'm'
    &&& s[4] == ':'
    &&& s[5] == ' '
}

/// The decoded value of one header line, exactly as `mailparse` decodes it
/// (header unfolding and MIME encoded-words applied); it is a function of
/// the line's characters alone.
pub uninterp spec fn parsed_header_value(line: Seq<char>) -> Seq<char>;

/// Assumed interface to `mailparse::MailParseError`, the error type of
/// `mailparse::parse_header`.
#[verifier::external_type_specification]
#[verifier::external_body]
pub struct ExMailParseError(mailparse::MailParseError);

/// Relies on `mailparse::parse_header`, whose only error exits are an empty
/// input and an input whose first byte is a space, and on
/// `mailparse::MailHeader::get_value`, which decodes the header's value from
/// the raw bytes alone (never failing).
#[verifier::external_body]
fn parse_header_value(line: &str) -> (r: Result<String, mailparse::MailParseError>)
    ensures
        r is Ok <==> (line@.len() > 0 && line@[0] != ' '),
        r is Ok ==> r->Ok_0@ == parsed_header_value(line@),
{
    match mailparse::parse_header(line.as_bytes()) {
        Ok((header, _)) => Ok(header.get_value()),
        Err(e) => Err(e),
    }
}

/// Whether the line starts with the literal prefix `From: `.
fn line_has_from_prefix(line: &str) -> (r: bool)
    ensures
        r == is_from_line(line@),
{
    let n: usize = line.unicode_len();
    if n < 6 {
        return false;
    }
    line.get_char(0) == 'F' && line.get_char(1) == 'r' && line.get_char(2) == 'o'
        && line.get_char(3) == 'm' && line.get_char(4) == ':' && line.get_char(5) == ' '
}

/// One step of the lazy per-line scan of a message: a line that carries the
/// sender header yields its decoded value, any other line yields nothing.
/// The caller stops reading the file at the first `Some`.
pub fn examine_line(line: &str) -> (r: Option<String>)
    ensures
        r is Some <==> is_from_line(line@),
        r is Some ==> r->0@ == parsed_header_value(line@),
{
    if line_has_from_prefix(line) {
        match parse_header_value(line) {
            Ok(value) => Some(value),
            // Unreachable: a line with the `From: ` prefix is nonempty and
            // does not start with a space, so the parse cannot fail.
            Err(_) => None,
        }
    } else {
        None
    }
}

/// The sender a message contributes: the decoded value of its first
/// `From:` line, or nothing when no line carries that prefix.
pub open spec fn extract_sender_spec(lines: Seq<Seq<char>>) -> Option<Seq<char>>
    decreases lines.len(),
{
    if lines.len() == 0 {
        None
    } else if is_from_line(lines.first()) {
        Some(parsed_header_value(lines.first()))
    } else {
        extract_sender_spec(lines.drop_first())
    }
}

/// Scans a whole message, given as its lines in file order, and returns the
/// sender it contributes, if any.
pub fn extract_sender(lines: &Vec<String>) -> (r: Option<String>)
    ensures
        r is Some <==> extract_sender_spec(lines.deep_view()) is Some,
        r is Some ==> r->0@ == extract_sender_spec(lines.deep_view())->0,
{
    let ghost dv = lines.deep_view();
    proof {
        assert(dv.skip(0) =~= dv);
    }
    let mut i: usize = 0;
    while i < lines.len()
        invariant
            dv == lines.deep_view(),
            i <= lines.len(),
            extract_sender_spec(dv.skip(i as int)) == extract_sender_spec(dv),
        decreases lines.len() - i,
    {
        proof {
            assert(dv.skip(i as int).first() == dv[i as int]);
            assert(dv[i as int] == lines@[i as int]@);
        }
        match examine_line(lines[i].as_str()) {
            Some(value) => {
                return Some(value);
            },
            None => {},
        }
        proof {
            assert(dv.skip(i as int).drop_first() =~= dv.skip(i as int + 1));
        }
        i += 1;
    }
    proof {
        assert(dv.skip(lines@.len() as int) =~= Seq::<Seq<char>>::empty());
    }
    None
}

/// A message with no `From:` line contributes nothing: its scan yields no
/// sender, so the mail count excludes it.
pub proof fn lemma_no_from_line_yields_none(lines: Seq<Seq<char>>)
    requires
        forall|i: int| 0 <= i < lines.len() ==> !is_from_line(#[trigger] lines[i]),
    ensures
        extract_sender_spec(lines) is None,
    decreases lines.len(),
{
    if lines.len() > 0 {
        assert(!is_from_line(lines[0]));
        assert(forall|i: int|
            0 <= i < lines.drop_first().len() ==> !is_from_line(
                #[trigger] lines.drop_first()[i],
            ));
        lemma_no_from_line_yields_none(lines.drop_first());
    }
}

} // verus!
