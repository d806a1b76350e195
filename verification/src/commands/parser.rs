//! Grammar for CAD command strings.
//!
//! Parses invocations like "LINE 0,0 100,100", "CIRCLE 50,50 25",
//! "ARC 0,0 50 0 90", and "PLINE 0,0 100,0 100,100 C".
//!
//! Numbers are recognised and converted by nom's `float` parser; the
//! library keeps each converted number as the bit pattern of the `f32`
//! value nom produced.

use vstd::prelude::*;
use vstd::string::*;

verus! {

/// A 2D point typed on the command line: the `f32` bit patterns of its
/// two coordinates.
#[derive(Debug, Clone, Copy, PartialEq, Eq, Structural)]
pub struct ParsedPoint {
    /// X coordinate (`f32` bits).
    pub x: u32,
    /// Y coordinate (`f32` bits).
    pub y: u32,
}

/// Arguments of a LINE invocation.
#[derive(Debug, Clone, Copy, PartialEq, Eq, Structural)]
pub struct LineArgs {
    /// Start point; `None` if just "LINE" with no arguments.
    pub start: Option<ParsedPoint>,
    /// End point.
    pub end: Option<ParsedPoint>,
}

/// Arguments of a CIRCLE invocation.
#[derive(Debug, Clone, Copy, PartialEq, Eq, Structural)]
pub struct CircleArgs {
    /// Centre point.
    pub center: Option<ParsedPoint>,
    /// Radius (`f32` bits).
    pub radius: Option<u32>,
}

/// Arguments of an ARC invocation.
#[derive(Debug, Clone, Copy, PartialEq, Eq, Structural)]
pub struct ArcArgs {
    /// Centre point.
    pub center: Option<ParsedPoint>,
    /// Radius (`f32` bits).
    pub radius: Option<u32>,
    /// Start angle in degrees (`f32` bits).
    pub start_angle: Option<u32>,
    /// End angle in degrees (`f32` bits).
    pub end_angle: Option<u32>,
}

/// Arguments of a PLINE invocation.
#[derive(Debug, Clone, PartialEq)]
pub struct PolylineArgs {
    /// The vertices, in the order typed.
    pub vertices: Vec<ParsedPoint>,
    /// Whether the polyline was closed with a trailing `C`.
    pub closed: bool,
}

/// The result of parsing a command invocation.
#[derive(Debug, Clone, PartialEq)]
pub enum ParsedCommand {
    Line(LineArgs),
    Circle(CircleArgs),
    Arc(ArcArgs),
    Polyline(PolylineArgs),
}

/// The mathematical value of a parsed command.
pub enum CommandModel {
    Line(LineArgs),
    Circle(CircleArgs),
    Arc(ArcArgs),
    Polyline(Seq<ParsedPoint>, bool),
}

impl View for ParsedCommand {
    type V = CommandModel;

    open spec fn view(&self) -> CommandModel {
        match self {
            ParsedCommand::Line(a) => CommandModel::Line(*a),
            ParsedCommand::Circle(a) => CommandModel::Circle(*a),
            ParsedCommand::Arc(a) => CommandModel::Arc(*a),
            ParsedCommand::Polyline(p) => CommandModel::Polyline(p.vertices@, p.closed),
        }
    }
}

/// Why a parse failed: a recoverable mismatch, or an unrecoverable failure
/// (a malformed exponent in a number, such as "1e").
#[derive(Debug, Clone, Copy, PartialEq, Eq, Structural)]
pub enum ParseError {
    /// The input does not match; an enclosing optional parser may recover.
    Error,
    /// The input is malformed beyond recovery.
    Failure,
}

/// What nom's `float` parser makes of the start of a string.
#[derive(Debug, Clone, Copy, PartialEq, Eq, Structural)]
pub enum FloatScan {
    /// A number was recognised; `rest_len` characters follow it, and `bits`
    /// is the bit pattern of the `f32` value nom produced.
    Number { rest_len: usize, bits: u32 },
    /// No number starts here.
    NoMatch,
    /// A number starts here but is malformed.
    Failure,
}

/// What nom's `float` parser makes of the start of `input`.
pub uninterp spec fn scan_float(input: Seq<char>) -> FloatScan;

/// Run nom's `float` parser on `input`.
#[verifier::external_body]
fn scan_float_prefix(input: &str) -> (r: FloatScan)
    ensures
        r == scan_float(input@),
        r matches FloatScan::Number { rest_len, .. } ==> rest_len < input@.len(),
{
    match nom::number::complete::float::<&str, nom::error::Error<&str>>(input) {
        Ok((rest, value)) => FloatScan::Number { rest_len: rest.chars().count(), bits: value.to_bits() },
        Err(nom::Err::Failure(_)) => FloatScan::Failure,
        Err(_) => FloatScan::NoMatch,
    }
}

// ---------------------------------------------------------------------------
// Specification of the grammar
// ---------------------------------------------------------------------------

/// A space or a tab (what nom's `space0` / `space1` accept).
pub open spec fn is_space(c: char) -> bool {
    c == ' ' || c == '\t'
}

/// ASCII whitespace: space, tab, line feed, form feed, carriage return.
pub open spec fn is_ascii_ws(c: char) -> bool {
    c == ' ' || c == '\t' || c == '\n' || c == '\x0C' || c == '\r'
}

/// The number of leading spaces and tabs of `s`.
pub open spec fn space_len(s: Seq<char>) -> nat
    decreases s.len(),
{
    if s.len() > 0 && is_space(s[0]) {
        1 + space_len(s.drop_first())
    } else {
        0
    }
}

/// `s` without its leading spaces and tabs.
pub open spec fn skip_space(s: Seq<char>) -> Seq<char> {
    s.skip(space_len(s) as int)
}

/// `c` is the keyword letter `t` (an upper-case ASCII letter) in either case.
pub open spec fn same_letter(c: char, t: char) -> bool {
    c == t || ('A' <= t && t <= 'Z' && c as u32 == t as u32 + 32)
}

/// `s` starts with `tag` (an upper-case keyword), ignoring ASCII case.
pub open spec fn starts_with_tag(s: Seq<char>, tag: Seq<char>) -> bool {
    &&& tag.len() <= s.len()
    &&& forall|i: int| 0 <= i < tag.len() ==> same_letter(#[trigger] s[i], tag[i])
}

/// The command keywords, in the order they are tried.
#[derive(Debug, Clone, Copy, PartialEq, Eq, Structural)]
pub enum Keyword {
    Line,
    L,
    Circle,
    C,
    Arc,
    A,
    Pline,
    Pl,
}

/// The spelling of a keyword.
pub open spec fn keyword_text(k: Keyword) -> Seq<char> {
    match k {
        Keyword::Line => seq!['L', 'I', 'N', 'E'],
        Keyword::L => seq!['L'],
        Keyword::Circle => seq!['C', 'I', 'R', 'C', 'L', 'E'],
        Keyword::C => seq!['C'],
        Keyword::Arc => seq!['A', 'R', 'C'],
        Keyword::A => seq!['A'],
        Keyword::Pline => seq!['P', 'L', 'I', 'N', 'E'],
        Keyword::Pl => seq!['P', 'L'],
    }
}

/// The first keyword, in the order LINE, L, CIRCLE, C, ARC, A, PLINE, PL,
/// that `s` starts with.
pub open spec fn leading_keyword(s: Seq<char>) -> Option<Keyword> {
    if starts_with_tag(s, keyword_text(Keyword::Line)) {
        Some(Keyword::Line)
    } else if starts_with_tag(s, keyword_text(Keyword::L)) {
        Some(Keyword::L)
    } else if starts_with_tag(s, keyword_text(Keyword::Circle)) {
        Some(Keyword::Circle)
    } else if starts_with_tag(s, keyword_text(Keyword::C)) {
        Some(Keyword::C)
    } else if starts_with_tag(s, keyword_text(Keyword::Arc)) {
        Some(Keyword::Arc)
    } else if starts_with_tag(s, keyword_text(Keyword::A)) {
        Some(Keyword::A)
    } else if starts_with_tag(s, keyword_text(Keyword::Pline)) {
        Some(Keyword::Pline)
    } else if starts_with_tag(s, keyword_text(Keyword::Pl)) {
        Some(Keyword::Pl)
    } else {
        None
    }
}

/// A number at the start of `s`: the rest of the input and the number's bits.
pub open spec fn spec_number(s: Seq<char>) -> Result<(Seq<char>, u32), ParseError> {
    match scan_float(s) {
        FloatScan::Number { rest_len, bits } => Ok((s.skip(s.len() - rest_len), bits)),
        FloatScan::NoMatch => Err(ParseError::Error),
        FloatScan::Failure => Err(ParseError::Failure),
    }
}

/// An optional number: a mismatch yields `None` and consumes nothing.
pub open spec fn spec_opt_number(s: Seq<char>) -> Result<(Seq<char>, Option<u32>), ParseError> {
    match spec_number(s) {
        Ok((r, v)) => Ok((r, Some(v))),
        Err(ParseError::Error) => Ok((s, None)),
        Err(ParseError::Failure) => Err(ParseError::Failure),
    }
}

/// A point `x,y`, with optional spaces before and after the comma.
pub open spec fn spec_parse_point(s: Seq<char>) -> Result<(Seq<char>, ParsedPoint), ParseError> {
    match spec_number(s) {
        Err(e) => Err(e),
        Ok((r1, x)) => {
            let r2 = skip_space(r1);
            if r2.len() > 0 && r2[0] == ',' {
                match spec_number(skip_space(r2.drop_first())) {
                    Err(e) => Err(e),
                    Ok((r3, y)) => Ok((r3, ParsedPoint { x, y })),
                }
            } else {
                Err(ParseError::Error)
            }
        },
    }
}

/// An optional point: a mismatch yields `None` and consumes nothing.
pub open spec fn spec_opt_point(s: Seq<char>) -> Result<(Seq<char>, Option<ParsedPoint>), ParseError> {
    match spec_parse_point(s) {
        Ok((r, p)) => Ok((r, Some(p))),
        Err(ParseError::Error) => Ok((s, None)),
        Err(ParseError::Failure) => Err(ParseError::Failure),
    }
}

/// LINE [start] [end]
pub open spec fn spec_line_args(s: Seq<char>) -> Result<(Seq<char>, CommandModel), ParseError> {
    match spec_opt_point(s) {
        Err(e) => Err(e),
        Ok((r, None)) => Ok((r, CommandModel::Line(LineArgs { start: None, end: None }))),
        Ok((r, Some(p))) => match spec_opt_point(skip_space(r)) {
            Err(e) => Err(e),
            Ok((r2, q)) => Ok((r2, CommandModel::Line(LineArgs { start: Some(p), end: q }))),
        },
    }
}

/// CIRCLE [center] [radius]
pub open spec fn spec_circle_args(s: Seq<char>) -> Result<(Seq<char>, CommandModel), ParseError> {
    match spec_opt_point(s) {
        Err(e) => Err(e),
        Ok((r, None)) => Ok((r, CommandModel::Circle(CircleArgs { center: None, radius: None }))),
        Ok((r, Some(c))) => match spec_opt_number(skip_space(r)) {
            Err(e) => Err(e),
            Ok((r2, rad)) => Ok((r2, CommandModel::Circle(CircleArgs { center: Some(c), radius: rad }))),
        },
    }
}

/// ARC [center] [radius] [start angle] [end angle]; each argument is looked
/// for only when the one before it was given.
pub open spec fn spec_arc_args(s: Seq<char>) -> Result<(Seq<char>, CommandModel), ParseError> {
    match spec_opt_point(s) {
        Err(e) => Err(e),
        Ok((r, None)) => Ok((r, CommandModel::Arc(ArcArgs { center: None, radius: None, start_angle: None, end_angle: None }))),
        Ok((r, Some(c))) => match spec_opt_number(skip_space(r)) {
            Err(e) => Err(e),
            Ok((r2, None)) => Ok((r2, CommandModel::Arc(ArcArgs { center: Some(c), radius: None, start_angle: None, end_angle: None }))),
            Ok((r2, Some(rad))) => match spec_opt_number(skip_space(r2)) {
                Err(e) => Err(e),
                Ok((r3, None)) => Ok((r3, CommandModel::Arc(ArcArgs { center: Some(c), radius: Some(rad), start_angle: None, end_angle: None }))),
                Ok((r3, Some(sa))) => match spec_opt_number(skip_space(r3)) {
                    Err(e) => Err(e),
                    Ok((r4, ea)) => Ok((r4, CommandModel::Arc(ArcArgs { center: Some(c), radius: Some(rad), start_angle: Some(sa), end_angle: ea }))),
                },
            },
        },
    }
}

/// `s` starts with the close token: `C` or `c` followed by ASCII whitespace
/// or the end of input.
pub open spec fn close_token(s: Seq<char>) -> bool {
    &&& s.len() >= 1
    &&& (s[0] == 'C' || s[0] == 'c')
    &&& (s.len() == 1 || is_ascii_ws(s[1]))
}

/// The vertex loop of PLINE: `acc` holds the vertices read so far and `s`
/// the input after the last vertex.
pub open spec fn spec_pline_loop(s: Seq<char>, acc: Seq<ParsedPoint>) -> Result<(Seq<char>, CommandModel), ParseError>
    decreases s.len(),
{
    let r = skip_space(s);
    if close_token(r) {
        Ok((r.drop_first(), CommandModel::Polyline(acc, true)))
    } else {
        match spec_parse_point(r) {
            Ok((r2, p)) => if r2.len() < s.len() {
                spec_pline_loop(r2, acc.push(p))
            } else {
                Err(ParseError::Error)
            },
            Err(_) => if acc.len() == 0 {
                Err(ParseError::Error)
            } else {
                Ok((s, CommandModel::Polyline(acc, false)))
            },
        }
    }
}

/// The whole grammar: optional leading spaces, a keyword, then (if any input
/// remains) at least one space and the keyword's arguments.
pub open spec fn spec_parse_command(input: Seq<char>) -> Result<(Seq<char>, CommandModel), ParseError> {
    let s = skip_space(input);
    match leading_keyword(s) {
        None => Err(ParseError::Error),
        Some(k) => {
            let rest = s.skip(keyword_text(k).len() as int);
            if rest.len() > 0 && !is_space(rest[0]) {
                Err(ParseError::Error)
            } else {
                let args = skip_space(rest);
                match k {
                    Keyword::Line | Keyword::L => spec_line_args(args),
                    Keyword::Circle | Keyword::C => spec_circle_args(args),
                    Keyword::Arc | Keyword::A => spec_arc_args(args),
                    Keyword::Pline | Keyword::Pl => spec_pline_loop(args, Seq::empty()),
                }
            }
        },
    }
}

/// An executable parse result agrees with its specification.
pub open spec fn agrees<T>(r: Result<(&str, T), ParseError>, m: Result<(Seq<char>, T), ParseError>) -> bool {
    match (r, m) {
        (Ok((rest, v)), Ok((mrest, mv))) => rest@ == mrest && v == mv,
        (Err(e), Err(me)) => e == me,
        _ => false,
    }
}

/// An executable command parse agrees with its specification.
pub open spec fn agrees_command(r: Result<(&str, ParsedCommand), ParseError>, m: Result<(Seq<char>, CommandModel), ParseError>) -> bool {
    match (r, m) {
        (Ok((rest, v)), Ok((mrest, mv))) => rest@ == mrest && v@ == mv,
        (Err(e), Err(me)) => e == me,
        _ => false,
    }
}

// ---------------------------------------------------------------------------
// Laws of the grammar
// ---------------------------------------------------------------------------

/// No more spaces are counted than there are characters.
proof fn lemma_space_len_bound(s: Seq<char>)
    ensures
        space_len(s) <= s.len(),
    decreases s.len(),
{
    if s.len() > 0 && is_space(s[0]) {
        lemma_space_len_bound(s.drop_first());
    }
}

/// The spaces skipped before `c + s` are those skipped before `s` when `c`
/// is a space or a tab.
proof fn lemma_skip_space_cons(c: char, s: Seq<char>)
    requires
        is_space(c),
    ensures
        skip_space(seq![c] + s) == skip_space(s),
{
    let t = seq![c] + s;
    lemma_space_len_bound(s);
    assert(t.drop_first() =~= s);
    assert(space_len(t) == 1 + space_len(s));
    assert(t.skip(1 + space_len(s) as int) =~= s.skip(space_len(s) as int));
}

/// Nothing is skipped before text that starts with a letter.
proof fn lemma_skip_space_none(s: Seq<char>)
    requires
        s.len() > 0,
        !is_space(s[0]),
    ensures
        skip_space(s) == s,
{
    assert(s.skip(0) =~= s);
}

/// Leading spaces and tabs do not change what a command parses to.
pub proof fn law_leading_space_ignored(c: char, s: Seq<char>)
    requires
        is_space(c),
    ensures
        spec_parse_command(seq![c] + s) == spec_parse_command(s),
{
    lemma_skip_space_cons(c, s);
}

/// The end of a keyword: the end of input or a space or tab.
pub open spec fn at_word_end(rest: Seq<char>) -> bool {
    rest.len() == 0 || is_space(rest[0])
}

/// The keyword that `text + rest` starts with: the full keywords whatever
/// follows them, the short aliases when a word end follows them.
proof fn lemma_keyword_of(k: Keyword, rest: Seq<char>)
    requires
        at_word_end(rest) || k is Line || k is Circle || k is Arc || k is Pline,
    ensures
        leading_keyword(keyword_text(k) + rest) == Some(k),
        (keyword_text(k) + rest).skip(keyword_text(k).len() as int) == rest,
        skip_space(keyword_text(k) + rest) == keyword_text(k) + rest,
{
    let s = keyword_text(k) + rest;
    assert(s.skip(keyword_text(k).len() as int) =~= rest);
    lemma_skip_space_none(s);
    assert(starts_with_tag(s, keyword_text(k)));
    match k {
        Keyword::Line => {},
        Keyword::L => {
            if rest.len() > 0 {
                assert(!same_letter(s[1], 'I'));
            }
            assert(!starts_with_tag(s, keyword_text(Keyword::Line)));
        },
        Keyword::Circle => {
            assert(!same_letter(s[0], 'L'));
            assert(!starts_with_tag(s, keyword_text(Keyword::Line)));
            assert(!starts_with_tag(s, keyword_text(Keyword::L)));
        },
        Keyword::C => {
            assert(!same_letter(s[0], 'L'));
            assert(!starts_with_tag(s, keyword_text(Keyword::Line)));
            assert(!starts_with_tag(s, keyword_text(Keyword::L)));
            if rest.len() > 0 {
                assert(!same_letter(s[1], 'I'));
            }
            assert(!starts_with_tag(s, keyword_text(Keyword::Circle)));
        },
        Keyword::Arc => {
            assert(!same_letter(s[0], 'L'));
            assert(!same_letter(s[0], 'C'));
            assert(!starts_with_tag(s, keyword_text(Keyword::Line)));
            assert(!starts_with_tag(s, keyword_text(Keyword::L)));
            assert(!starts_with_tag(s, keyword_text(Keyword::Circle)));
            assert(!starts_with_tag(s, keyword_text(Keyword::C)));
        },
        Keyword::A => {
            assert(!same_letter(s[0], 'L'));
            assert(!same_letter(s[0], 'C'));
            assert(!starts_with_tag(s, keyword_text(Keyword::Line)));
            assert(!starts_with_tag(s, keyword_text(Keyword::L)));
            assert(!starts_with_tag(s, keyword_text(Keyword::Circle)));
            assert(!starts_with_tag(s, keyword_text(Keyword::C)));
            if rest.len() > 0 {
                assert(!same_letter(s[1], 'R'));
            }
            assert(!starts_with_tag(s, keyword_text(Keyword::Arc)));
        },
        Keyword::Pline => {
            assert(!same_letter(s[0], 'L'));
            assert(!same_letter(s[0], 'C'));
            assert(!same_letter(s[0], 'A'));
            assert(!starts_with_tag(s, keyword_text(Keyword::Line)));
            assert(!starts_with_tag(s, keyword_text(Keyword::L)));
            assert(!starts_with_tag(s, keyword_text(Keyword::Circle)));
            assert(!starts_with_tag(s, keyword_text(Keyword::C)));
            assert(!starts_with_tag(s, keyword_text(Keyword::Arc)));
            assert(!starts_with_tag(s, keyword_text(Keyword::A)));
        },
        Keyword::Pl => {
            assert(!same_letter(s[0], 'L'));
            assert(!same_letter(s[0], 'C'));
            assert(!same_letter(s[0], 'A'));
            assert(!starts_with_tag(s, keyword_text(Keyword::Line)));
            assert(!starts_with_tag(s, keyword_text(Keyword::L)));
            assert(!starts_with_tag(s, keyword_text(Keyword::Circle)));
            assert(!starts_with_tag(s, keyword_text(Keyword::C)));
            assert(!starts_with_tag(s, keyword_text(Keyword::Arc)));
            assert(!starts_with_tag(s, keyword_text(Keyword::A)));
            if rest.len() > 0 {
                assert(!same_letter(s[2], 'I'));
            }
            assert(!starts_with_tag(s, keyword_text(Keyword::Pline)));
        },
    }
}

/// The short aliases parse exactly as the full keywords: "L" as "LINE",
/// "C" as "CIRCLE", "A" as "ARC" and "PL" as "PLINE", whatever arguments
/// follow.
pub proof fn law_aliases_agree(rest: Seq<char>)
    requires
        at_word_end(rest),
    ensures
        spec_parse_command(keyword_text(Keyword::L) + rest)
            == spec_parse_command(keyword_text(Keyword::Line) + rest),
        spec_parse_command(keyword_text(Keyword::C) + rest)
            == spec_parse_command(keyword_text(Keyword::Circle) + rest),
        spec_parse_command(keyword_text(Keyword::A) + rest)
            == spec_parse_command(keyword_text(Keyword::Arc) + rest),
        spec_parse_command(keyword_text(Keyword::Pl) + rest)
            == spec_parse_command(keyword_text(Keyword::Pline) + rest),
{
    lemma_keyword_of(Keyword::L, rest);
    lemma_keyword_of(Keyword::Line, rest);
    lemma_keyword_of(Keyword::C, rest);
    lemma_keyword_of(Keyword::Circle, rest);
    lemma_keyword_of(Keyword::A, rest);
    lemma_keyword_of(Keyword::Arc, rest);
    lemma_keyword_of(Keyword::Pl, rest);
    lemma_keyword_of(Keyword::Pline, rest);
}

/// A full keyword glued to what follows it ("LINE0,0") is refused: at
/// least one space must separate a keyword from its arguments.
pub proof fn law_keyword_needs_space(k: Keyword, rest: Seq<char>)
    requires
        k is Line || k is Circle || k is Arc || k is Pline,
        rest.len() > 0,
        !is_space(rest[0]),
    ensures
        spec_parse_command(keyword_text(k) + rest) == Err::<(Seq<char>, CommandModel), ParseError>(ParseError::Error),
{
    lemma_keyword_of(k, rest);
}

/// `a` is `b`, or the lower-case form of `b` when `b` is an upper-case
/// ASCII letter.
pub open spec fn case_variant(a: char, b: char) -> bool {
    a == b || ('A' <= b && b <= 'Z' && a as u32 == b as u32 + 32)
}

/// Two texts of one length that differ at most in the case of letters
/// start with the same keywords.
proof fn lemma_case_variant_tag(s1: Seq<char>, s2: Seq<char>, tag: Seq<char>)
    requires
        s1.len() == s2.len(),
        forall|i: int| 0 <= i < s1.len() ==> case_variant(#[trigger] s1[i], s2[i]),
        forall|i: int| 0 <= i < tag.len() ==> 'A' <= #[trigger] tag[i] && tag[i] <= 'Z',
    ensures
        starts_with_tag(s1, tag) == starts_with_tag(s2, tag),
{
    if tag.len() <= s1.len() {
        assert forall|i: int| 0 <= i < tag.len()
            implies same_letter(#[trigger] s1[i], tag[i]) == same_letter(s2[i], tag[i]) by {
            assert(case_variant(s1[i], s2[i]));
            assert('A' <= tag[i] && tag[i] <= 'Z');
        }
        if starts_with_tag(s1, tag) {
            assert forall|i: int| 0 <= i < tag.len() implies same_letter(#[trigger] s2[i], tag[i]) by {
                assert(same_letter(s1[i], tag[i]));
            }
        }
        if starts_with_tag(s2, tag) {
            assert forall|i: int| 0 <= i < tag.len() implies same_letter(#[trigger] s1[i], tag[i]) by {
                assert(same_letter(s2[i], tag[i]));
            }
        }
    }
}

/// Keywords may be typed in any mix of upper and lower case: a spelling
/// `t` of the keyword `k` that differs from it only in the case of letters
/// parses exactly as `k` does, whatever follows it.
pub proof fn law_keyword_case_ignored(k: Keyword, t: Seq<char>, rest: Seq<char>)
    requires
        t.len() == keyword_text(k).len(),
        forall|i: int| 0 <= i < t.len() ==> case_variant(#[trigger] t[i], keyword_text(k)[i]),
    ensures
        spec_parse_command(t + rest) == spec_parse_command(keyword_text(k) + rest),
{
    let kw = keyword_text(k);
    let s1 = t + rest;
    let s2 = kw + rest;
    assert forall|i: int| 0 <= i < s1.len() implies case_variant(#[trigger] s1[i], s2[i]) by {
        if i < t.len() {
            assert(s1[i] == t[i] && s2[i] == kw[i]);
        } else {
            assert(s1[i] == rest[i - t.len()] && s2[i] == rest[i - t.len()]);
        }
    }
    lemma_case_variant_tag(s1, s2, keyword_text(Keyword::Line));
    lemma_case_variant_tag(s1, s2, keyword_text(Keyword::L));
    lemma_case_variant_tag(s1, s2, keyword_text(Keyword::Circle));
    lemma_case_variant_tag(s1, s2, keyword_text(Keyword::C));
    lemma_case_variant_tag(s1, s2, keyword_text(Keyword::Arc));
    lemma_case_variant_tag(s1, s2, keyword_text(Keyword::A));
    lemma_case_variant_tag(s1, s2, keyword_text(Keyword::Pline));
    lemma_case_variant_tag(s1, s2, keyword_text(Keyword::Pl));
    assert(leading_keyword(s1) == leading_keyword(s2));
    assert(case_variant(s1[0], s2[0]));
    assert(s2[0] == kw[0]);
    lemma_skip_space_none(s1);
    lemma_skip_space_none(s2);
    assert(starts_with_tag(s2, kw));
    let m = keyword_text(leading_keyword(s2).unwrap()).len();
    assert(m >= kw.len());
    assert(s1.skip(m as int) =~= s2.skip(m as int));
}

/// ARC keeps the radius typed after its centre: when the arguments after
/// "ARC" start with a point and then a number, the parse either succeeds
/// with that point as the centre and that number as the radius, whatever
/// follows (angles or not), or fails only because a later number is
/// malformed.
pub proof fn law_arc_keeps_center_and_radius(
    rest: Seq<char>,
    r1: Seq<char>,
    center: ParsedPoint,
    r2: Seq<char>,
    radius: u32,
)
    requires
        rest.len() > 0,
        is_space(rest[0]),
        spec_parse_point(skip_space(rest)) == Ok::<(Seq<char>, ParsedPoint), ParseError>((r1, center)),
        spec_number(skip_space(r1)) == Ok::<(Seq<char>, u32), ParseError>((r2, radius)),
    ensures
        match spec_parse_command(keyword_text(Keyword::Arc) + rest) {
            Ok((_, CommandModel::Arc(a))) => a.center == Some(center) && a.radius == Some(radius),
            Ok(_) => false,
            Err(e) => e == ParseError::Failure,
        },
{
    lemma_keyword_of(Keyword::Arc, rest);
}

/// The full keyword that a keyword or an alias stands for.
pub open spec fn full_keyword(k: Keyword) -> Keyword {
    match k {
        Keyword::L => Keyword::Line,
        Keyword::C => Keyword::Circle,
        Keyword::A => Keyword::Arc,
        Keyword::Pl => Keyword::Pline,
        _ => k,
    }
}

/// How a command keyword is spelled does not matter: typing any keyword
/// or alias, in any mix of upper and lower case, parses exactly as the
/// upper-case full keyword it stands for, with the same arguments and the
/// same unparsed rest.  An alias must end the word ("L 0,0"); an alias
/// glued to letters ("LINE" read as "L" + "INE") is another keyword.
pub proof fn law_keyword_spelling_ignored(k: Keyword, t: Seq<char>, rest: Seq<char>)
    requires
        t.len() == keyword_text(k).len(),
        forall|i: int| 0 <= i < t.len() ==> case_variant(#[trigger] t[i], keyword_text(k)[i]),
        at_word_end(rest) || full_keyword(k) == k,
    ensures
        spec_parse_command(t + rest) == spec_parse_command(keyword_text(full_keyword(k)) + rest),
{
    law_keyword_case_ignored(k, t, rest);
    if full_keyword(k) != k {
        law_aliases_agree(rest);
    }
}

// ---------------------------------------------------------------------------
// Implementation
// ---------------------------------------------------------------------------

/// Counting the leading spaces of `s` one by one gives `space_len`.
proof fn lemma_space_len(s: Seq<char>, k: int)
    requires
        0 <= k <= s.len(),
        forall|i: int| 0 <= i < k ==> is_space(#[trigger] s[i]),
        k == s.len() || !is_space(s[k]),
    ensures
        space_len(s) == k,
    decreases k,
{
    if k > 0 {
        let t = s.drop_first();
        assert forall|i: int| 0 <= i < k - 1 implies is_space(#[trigger] t[i]) by {
            assert(t[i] == s[i + 1]);
        }
        if k - 1 < t.len() {
            assert(t[k - 1] == s[k]);
        }
        lemma_space_len(t, k - 1);
    }
}

/// Whether the `k`-th character of `s` is a space or a tab.
fn space_at(s: &str, k: usize) -> (b: bool)
    requires
        k < s@.len(),
    ensures
        b == is_space(s@[k as int]),
{
    let c = s.get_char(k);
    c == ' ' || c == '\t'
}

/// The input after its leading spaces and tabs.
fn skip_spaces<'a>(s: &'a str) -> (r: &'a str)
    ensures
        r@ == skip_space(s@),
        r@.len() <= s@.len(),
{
    let n = s.unicode_len();
    let mut k: usize = 0;
    while k < n && space_at(s, k)
        invariant
            n == s@.len(),
            k <= n,
            forall|i: int| 0 <= i < k ==> is_space(#[trigger] s@[i]),
        decreases n - k,
    {
        k = k + 1;
    }
    proof {
        lemma_space_len(s@, k as int);
    }
    s.substring_char(k, n)
}

/// A number at the start of the input.
fn number<'a>(s: &'a str) -> (r: Result<(&'a str, u32), ParseError>)
    ensures
        agrees(r, spec_number(s@)),
        r matches Ok((rest, _)) ==> rest@.len() < s@.len(),
{
    let n = s.unicode_len();
    match scan_float_prefix(s) {
        FloatScan::Number { rest_len, bits } => Ok((s.substring_char(n - rest_len, n), bits)),
        FloatScan::NoMatch => Err(ParseError::Error),
        FloatScan::Failure => Err(ParseError::Failure),
    }
}

/// An optional number.
fn opt_number<'a>(s: &'a str) -> (r: Result<(&'a str, Option<u32>), ParseError>)
    ensures
        agrees(r, spec_opt_number(s@)),
{
    match number(s) {
        Ok((rest, v)) => Ok((rest, Some(v))),
        Err(ParseError::Error) => Ok((s, None)),
        Err(ParseError::Failure) => Err(ParseError::Failure),
    }
}

/// Parse a 2D point from strings like "10,20" or "10.5, 20.3".
pub fn parse_point<'a>(input: &'a str) -> (r: Result<(&'a str, ParsedPoint), ParseError>)
    ensures
        agrees(r, spec_parse_point(input@)),
        r matches Ok((rest, _)) ==> rest@.len() < input@.len(),
{
    let (r1, x) = match number(input) {
        Ok(v) => v,
        Err(e) => {
            return Err(e);
        },
    };
    let r2 = skip_spaces(r1);
    if r2.unicode_len() > 0 && r2.get_char(0) == ',' {
        let n2 = r2.unicode_len();
        let r3 = skip_spaces(r2.substring_char(1, n2));
        assert(r2@.subrange(1, n2 as int) =~= r2@.drop_first());
        match number(r3) {
            Ok((r4, y)) => Ok((r4, ParsedPoint { x, y })),
            Err(e) => Err(e),
        }
    } else {
        Err(ParseError::Error)
    }
}

/// An optional point.
fn opt_point<'a>(s: &'a str) -> (r: Result<(&'a str, Option<ParsedPoint>), ParseError>)
    ensures
        agrees(r, spec_opt_point(s@)),
{
    match parse_point(s) {
        Ok((rest, p)) => Ok((rest, Some(p))),
        Err(ParseError::Error) => Ok((s, None)),
        Err(ParseError::Failure) => Err(ParseError::Failure),
    }
}

/// LINE [start] [end]
fn line_args<'a>(s: &'a str) -> (r: Result<(&'a str, ParsedCommand), ParseError>)
    ensures
        agrees_command(r, spec_line_args(s@)),
{
    match opt_point(s) {
        Err(e) => Err(e),
        Ok((rest, None)) => Ok((rest, ParsedCommand::Line(LineArgs { start: None, end: None }))),
        Ok((rest, Some(p))) => match opt_point(skip_spaces(rest)) {
            Err(e) => Err(e),
            Ok((rest2, q)) => Ok((rest2, ParsedCommand::Line(LineArgs { start: Some(p), end: q }))),
        },
    }
}

/// CIRCLE [center] [radius]
fn circle_args<'a>(s: &'a str) -> (r: Result<(&'a str, ParsedCommand), ParseError>)
    ensures
        agrees_command(r, spec_circle_args(s@)),
{
    match opt_point(s) {
        Err(e) => Err(e),
        Ok((rest, None)) => Ok((rest, ParsedCommand::Circle(CircleArgs { center: None, radius: None }))),
        Ok((rest, Some(c))) => match opt_number(skip_spaces(rest)) {
            Err(e) => Err(e),
            Ok((rest2, rad)) => Ok((rest2, ParsedCommand::Circle(CircleArgs { center: Some(c), radius: rad }))),
        },
    }
}

/// ARC [center] [radius] [start angle] [end angle]
fn arc_args<'a>(s: &'a str) -> (r: Result<(&'a str, ParsedCommand), ParseError>)
    ensures
        agrees_command(r, spec_arc_args(s@)),
{
    let (r1, c) = match opt_point(s) {
        Err(e) => {
            return Err(e);
        },
        Ok((r1, None)) => {
            return Ok((r1, ParsedCommand::Arc(ArcArgs { center: None, radius: None, start_angle: None, end_angle: None })));
        },
        Ok((r1, Some(c))) => (r1, c),
    };
    let (r2, rad) = match opt_number(skip_spaces(r1)) {
        Err(e) => {
            return Err(e);
        },
        Ok((r2, None)) => {
            return Ok((r2, ParsedCommand::Arc(ArcArgs { center: Some(c), radius: None, start_angle: None, end_angle: None })));
        },
        Ok((r2, Some(rad))) => (r2, rad),
    };
    let (r3, sa) = match opt_number(skip_spaces(r2)) {
        Err(e) => {
            return Err(e);
        },
        Ok((r3, None)) => {
            return Ok((r3, ParsedCommand::Arc(ArcArgs { center: Some(c), radius: Some(rad), start_angle: None, end_angle: None })));
        },
        Ok((r3, Some(sa))) => (r3, sa),
    };
    match opt_number(skip_spaces(r3)) {
        Err(e) => Err(e),
        Ok((r4, ea)) => Ok((r4, ParsedCommand::Arc(ArcArgs { center: Some(c), radius: Some(rad), start_angle: Some(sa), end_angle: ea }))),
    }
}

/// Whether `s` starts with the PLINE close token.
fn at_close_token(s: &str) -> (b: bool)
    ensures
        b == close_token(s@),
{
    let n = s.unicode_len();
    if n == 0 {
        return false;
    }
    let c = s.get_char(0);
    if !(c == 'C' || c == 'c') {
        return false;
    }
    if n == 1 {
        return true;
    }
    let d = s.get_char(1);
    d == ' ' || d == '\t' || d == '\n' || d == '\x0C' || d == '\r'
}

/// PLINE x1,y1 x2,y2 ... [C]
fn pline_args<'a>(s: &'a str) -> (r: Result<(&'a str, ParsedCommand), ParseError>)
    ensures
        agrees_command(r, spec_pline_loop(s@, Seq::empty())),
{
    let mut vertices: Vec<ParsedPoint> = Vec::new();
    let mut rest = s;
    loop
        invariant
            spec_pline_loop(rest@, vertices@) == spec_pline_loop(s@, Seq::empty()),
        decreases rest@.len(),
    {
        let r = skip_spaces(rest);
        if at_close_token(r) {
            let n = r.unicode_len();
            assert(r@.subrange(1, n as int) =~= r@.drop_first());
            return Ok((r.substring_char(1, n), ParsedCommand::Polyline(PolylineArgs { vertices, closed: true })));
        }
        match parse_point(r) {
            Ok((r2, p)) => {
                vertices.push(p);
                rest = r2;
            },
            Err(_) => {
                if vertices.len() == 0 {
                    return Err(ParseError::Error);
                }
                return Ok((rest, ParsedCommand::Polyline(PolylineArgs { vertices, closed: false })));
            },
        }
    }
}

/// The spelling of a keyword, as characters.
fn keyword_chars(k: Keyword) -> (v: Vec<char>)
    ensures
        v@ == keyword_text(k),
{
    let v = match k {
        Keyword::Line => vec!['L', 'I', 'N', 'E'],
        Keyword::L => vec!['L'],
        Keyword::Circle => vec!['C', 'I', 'R', 'C', 'L', 'E'],
        Keyword::C => vec!['C'],
        Keyword::Arc => vec!['A', 'R', 'C'],
        Keyword::A => vec!['A'],
        Keyword::Pline => vec!['P', 'L', 'I', 'N', 'E'],
        Keyword::Pl => vec!['P', 'L'],
    };
    assert(v@ =~= keyword_text(k));
    v
}

/// Whether `s` starts with the keyword `k`, ignoring ASCII case.
fn starts_with_keyword(s: &str, k: Keyword) -> (b: bool)
    ensures
        b == starts_with_tag(s@, keyword_text(k)),
{
    let tag = keyword_chars(k);
    let n = s.unicode_len();
    if tag.len() > n {
        return false;
    }
    let mut i: usize = 0;
    while i < tag.len()
        invariant
            tag@ == keyword_text(k),
            n == s@.len(),
            tag@.len() <= n,
            i <= tag@.len(),
            forall|j: int| 0 <= j < i ==> same_letter(#[trigger] s@[j], tag@[j]),
        decreases tag@.len() - i,
    {
        let c = s.get_char(i);
        let t = tag[i];
        if !(c == t || ('A' <= t && t <= 'Z' && (c as u32) == (t as u32) + 32)) {
            return false;
        }
        i = i + 1;
    }
    true
}

/// The first keyword that `s` starts with.
fn keyword_at(s: &str) -> (r: Option<Keyword>)
    ensures
        r == leading_keyword(s@),
{
    if starts_with_keyword(s, Keyword::Line) {
        Some(Keyword::Line)
    } else if starts_with_keyword(s, Keyword::L) {
        Some(Keyword::L)
    } else if starts_with_keyword(s, Keyword::Circle) {
        Some(Keyword::Circle)
    } else if starts_with_keyword(s, Keyword::C) {
        Some(Keyword::C)
    } else if starts_with_keyword(s, Keyword::Arc) {
        Some(Keyword::Arc)
    } else if starts_with_keyword(s, Keyword::A) {
        Some(Keyword::A)
    } else if starts_with_keyword(s, Keyword::Pline) {
        Some(Keyword::Pline)
    } else if starts_with_keyword(s, Keyword::Pl) {
        Some(Keyword::Pl)
    } else {
        None
    }
}

/// Parse a command invocation such as "LINE", "LINE 0,0 100,100", "L"
/// (alias), "CIRCLE 50,50 25", "ARC 0,0 50 0 90" or "PL 0,0 10,0 C".
///
/// Returns the unparsed rest of the input with the parsed command.  When
/// input remains after the keyword, at least one space must separate them,
/// so "LINE0,0" is rejected.
pub fn parse_command<'a>(input: &'a str) -> (r: Result<(&'a str, ParsedCommand), ParseError>)
    ensures
        agrees_command(r, spec_parse_command(input@)),
{
    let s = skip_spaces(input);
    let k = match keyword_at(s) {
        Some(k) => k,
        None => {
            return Err(ParseError::Error);
        },
    };
    let kl = keyword_chars(k).len();
    let n = s.unicode_len();
    let rest = s.substring_char(kl, n);
    if rest.unicode_len() > 0 && !space_at(rest, 0) {
        return Err(ParseError::Error);
    }
    let args = skip_spaces(rest);
    match k {
        Keyword::Line | Keyword::L => line_args(args),
        Keyword::Circle | Keyword::C => circle_args(args),
        Keyword::Arc | Keyword::A => arc_args(args),
        Keyword::Pline | Keyword::Pl => pline_args(args),
    }
}

} // verus!
