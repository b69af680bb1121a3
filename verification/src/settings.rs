//! Reading settings that a host holds as text: the stage, the rank and the
//! list of entrypoints.
//!
//! Numbers are read by `parse_int::parse`, which accepts decimal numbers,
//! the prefixes `0x`, `0o` and `0b`, and underscores between digits.

use vstd::prelude::*;

use crate::text::{split, split_on, trim, trimmed, views_of};

verus! {

/// The first stage.
pub const STAGE_MIN: u8 = 1;

/// The last stage.
pub const STAGE_MAX: u8 = 16;

/// The highest rank. The lowest is 0.
pub const RANK_MAX: u8 = 7;

/// Why a text is not a number of the type asked for.
#[derive(Debug, Clone, Copy, PartialEq, Eq, Structural)]
pub enum NumberError {
    /// The text is empty.
    Empty,
    /// The text holds a character that is no digit of its base.
    InvalidDigit,
    /// The number is too large for the type.
    PosOverflow,
    /// The number is too small for the type.
    NegOverflow,
    /// Any other reason.
    Other,
}

/// Why a setting could not be read.
#[derive(Debug, Clone, Copy, PartialEq, Eq, Structural)]
pub enum ParseError {
    /// A text is not a number.
    Number(NumberError),
    /// The number of entrypoints differs from the number of enemies.
    EntrypointCountMismatch,
    /// The stage is not within `STAGE_MIN..=STAGE_MAX`.
    StageOutOfRange,
    /// The rank is above `RANK_MAX`.
    RankOutOfRange,
}

impl NumberError {
    /// The words of [`NumberError::message`].
    pub open spec fn message_text(self) -> Seq<char> {
        match self {
            NumberError::Empty => "cannot parse integer from empty string"@,
            NumberError::InvalidDigit => "invalid digit found in string"@,
            NumberError::PosOverflow => "number too large to fit in target type"@,
            NumberError::NegOverflow => "number too small to fit in target type"@,
            NumberError::Other => "cannot parse integer"@,
        }
    }

    /// The failure in words.
    pub fn message(&self) -> (text: String)
        ensures
            text@ == self.message_text(),
    {
        match self {
            NumberError::Empty => "cannot parse integer from empty string".to_owned(),
            NumberError::InvalidDigit => "invalid digit found in string".to_owned(),
            NumberError::PosOverflow => "number too large to fit in target type".to_owned(),
            NumberError::NegOverflow => "number too small to fit in target type".to_owned(),
            NumberError::Other => "cannot parse integer".to_owned(),
        }
    }
}

impl ParseError {
    /// The words of [`ParseError::message`].
    pub open spec fn message_text(self) -> Seq<char> {
        match self {
            ParseError::Number(error) => error.message_text(),
            ParseError::EntrypointCountMismatch => "entrypoint count mismatch"@,
            ParseError::StageOutOfRange => "stage must be within 1..=16"@,
            ParseError::RankOutOfRange => "rank must be within 0..=7"@,
        }
    }

    /// The failure in words.
    pub fn message(&self) -> (text: String)
        ensures
            text@ == self.message_text(),
    {
        match self {
            ParseError::Number(error) => error.message(),
            ParseError::EntrypointCountMismatch => "entrypoint count mismatch".to_owned(),
            ParseError::StageOutOfRange => "stage must be within 1..=16".to_owned(),
            ParseError::RankOutOfRange => "rank must be within 0..=7".to_owned(),
        }
    }
}

/// What `parse_int::parse::<u8>` returns for `text`.
pub uninterp spec fn parsed_u8(text: Seq<char>) -> Result<u8, NumberError>;

/// What `parse_int::parse::<usize>` returns for `text`.
pub uninterp spec fn parsed_usize(text: Seq<char>) -> Result<usize, NumberError>;

/// Calls `parse_int::parse::<u8>`. Trusted: the result is a function of the
/// text alone, named [`parsed_u8`]. Nothing is claimed of which texts give
/// which numbers. The kind of a failure is carried over from
/// `std::num::IntErrorKind`, variant by variant.
#[verifier::external_body]
pub(crate) fn parse_u8(text: &str) -> (parsed: Result<u8, NumberError>)
    ensures
        parsed == parsed_u8(text@),
{
    match parse_int::parse::<u8>(text) {
        Ok(number) => Ok(number),
        Err(error) => Err(
            match error.kind() {
                std::num::IntErrorKind::Empty => NumberError::Empty,
                std::num::IntErrorKind::InvalidDigit => NumberError::InvalidDigit,
                std::num::IntErrorKind::PosOverflow => NumberError::PosOverflow,
                std::num::IntErrorKind::NegOverflow => NumberError::NegOverflow,
                _ => NumberError::Other,
            },
        ),
    }
}

/// Calls `parse_int::parse::<usize>`. Trusted: the result is a function of
/// the text alone, named [`parsed_usize`]. Nothing is claimed of which texts
/// give which numbers. The kind of a failure is carried over from
/// `std::num::IntErrorKind`, variant by variant.
#[verifier::external_body]
pub(crate) fn parse_usize(text: &str) -> (parsed: Result<usize, NumberError>)
    ensures
        parsed == parsed_usize(text@),
{
    match parse_int::parse::<usize>(text) {
        Ok(number) => Ok(number),
        Err(error) => Err(
            match error.kind() {
                std::num::IntErrorKind::Empty => NumberError::Empty,
                std::num::IntErrorKind::InvalidDigit => NumberError::InvalidDigit,
                std::num::IntErrorKind::PosOverflow => NumberError::PosOverflow,
                std::num::IntErrorKind::NegOverflow => NumberError::NegOverflow,
                _ => NumberError::Other,
            },
        ),
    }
}

/// The stage that a read number stands for: the number itself if it is a
/// stage, the failure of reading it if there is one.
pub open spec fn stage_outcome(parsed: Result<u8, NumberError>) -> Result<u8, ParseError> {
    match parsed {
        Err(error) => Err(ParseError::Number(error)),
        Ok(stage) => if STAGE_MIN <= stage <= STAGE_MAX {
            Ok(stage)
        } else {
            Err(ParseError::StageOutOfRange)
        },
    }
}

/// The rank that a read number stands for: the number itself if it is a
/// rank, the failure of reading it if there is one.
pub open spec fn rank_outcome(parsed: Result<u8, NumberError>) -> Result<u8, ParseError> {
    match parsed {
        Err(error) => Err(ParseError::Number(error)),
        Ok(rank) => if rank <= RANK_MAX {
            Ok(rank)
        } else {
            Err(ParseError::RankOutOfRange)
        },
    }
}

/// The first failure among `parsed`, if there is one.
pub open spec fn first_error(parsed: Seq<Result<usize, NumberError>>) -> Option<NumberError>
    decreases parsed.len(),
{
    if parsed.len() == 0 {
        None
    } else {
        match parsed[0] {
            Err(error) => Some(error),
            Ok(_) => first_error(parsed.drop_first()),
        }
    }
}

/// The numbers of `parsed`, where all of them were read.
pub open spec fn numbers_of(parsed: Seq<Result<usize, NumberError>>) -> Seq<usize> {
    Seq::new(parsed.len(), |i: int| parsed[i]->Ok_0)
}

/// The entrypoints that a list of read numbers stands for, where `count`
/// enemies are asked for: the first failure of reading one, if there is one;
/// else the numbers, if there are `count` of them.
pub open spec fn entrypoints_outcome(
    parsed: Seq<Result<usize, NumberError>>,
    count: usize,
) -> Result<Seq<usize>, ParseError> {
    match first_error(parsed) {
        Some(error) => Err(ParseError::Number(error)),
        None => if parsed.len() == count {
            Ok(numbers_of(parsed))
        } else {
            Err(ParseError::EntrypointCountMismatch)
        },
    }
}

/// What reading each piece of an entrypoint list gives: the pieces are what
/// stands between the commas of `text`, each without the white space around it.
pub open spec fn entrypoint_readings(text: Seq<char>) -> Seq<Result<usize, NumberError>> {
    let pieces = split_on(text, ',');
    Seq::new(pieces.len(), |i: int| parsed_usize(trimmed(pieces[i])))
}

/// Whether `made` is `outcome`, the entrypoints taken as a sequence.
pub open spec fn is_outcome(
    made: Result<Vec<usize>, ParseError>,
    outcome: Result<Seq<usize>, ParseError>,
) -> bool {
    match made {
        Ok(entrypoints) => outcome == Ok::<Seq<usize>, ParseError>(entrypoints@),
        Err(error) => outcome == Err::<Seq<usize>, ParseError>(error),
    }
}

/// Checks a read number for being a stage.
pub fn stage_from(parsed: Result<u8, NumberError>) -> (made: Result<u8, ParseError>)
    ensures
        made == stage_outcome(parsed),
{
    match parsed {
        Err(error) => Err(ParseError::Number(error)),
        Ok(stage) => {
            if STAGE_MIN <= stage && stage <= STAGE_MAX {
                Ok(stage)
            } else {
                Err(ParseError::StageOutOfRange)
            }
        },
    }
}

/// Reads a stage: a number within `STAGE_MIN..=STAGE_MAX`.
pub fn stage_parse(stage_str: &str) -> (made: Result<u8, ParseError>)
    ensures
        made == stage_outcome(parsed_u8(stage_str@)),
{
    stage_from(parse_u8(stage_str))
}

/// Checks a read number for being a rank.
pub fn rank_from(parsed: Result<u8, NumberError>) -> (made: Result<u8, ParseError>)
    ensures
        made == rank_outcome(parsed),
{
    match parsed {
        Err(error) => Err(ParseError::Number(error)),
        Ok(rank) => {
            if rank <= RANK_MAX {
                Ok(rank)
            } else {
                Err(ParseError::RankOutOfRange)
            }
        },
    }
}

/// Reads a rank: a number within `0..=RANK_MAX`.
pub fn rank_parse(rank_str: &str) -> (made: Result<u8, ParseError>)
    ensures
        made == rank_outcome(parsed_u8(rank_str@)),
{
    rank_from(parse_u8(rank_str))
}

/// Gathers the entrypoints from the readings of their texts. The first
/// failure in the list is the error; with no failure, a number of entrypoints
/// other than `count` is the error.
pub fn entrypoints_from(parsed: &[Result<usize, NumberError>], count: usize) -> (made: Result<
    Vec<usize>,
    ParseError,
>)
    ensures
        is_outcome(made, entrypoints_outcome(parsed@, count)),
{
    let mut entrypoints: Vec<usize> = Vec::new();
    let mut i: usize = 0;
    assert(parsed@.skip(0) == parsed@);
    while i < parsed.len()
        invariant
            i <= parsed.len(),
            entrypoints@.len() == i,
            first_error(parsed@) == first_error(parsed@.skip(i as int)),
            forall|j: int| 0 <= j < i ==> parsed@[j] == Ok::<usize, NumberError>(entrypoints@[j]),
        decreases parsed.len() - i,
    {
        assert(parsed@.skip(i as int).drop_first() == parsed@.skip(i + 1));
        match parsed[i] {
            Err(error) => {
                return Err(ParseError::Number(error));
            },
            Ok(entrypoint) => {
                entrypoints.push(entrypoint);
            },
        }
        i += 1;
    }
    if entrypoints.len() != count {
        return Err(ParseError::EntrypointCountMismatch);
    }
    assert(entrypoints@ =~= numbers_of(parsed@));
    Ok(entrypoints)
}

/// Reads each piece of an entrypoint list: what stands between the commas of
/// `entrypoints_str`, without the white space around it.
pub fn entrypoints_read(entrypoints_str: &str) -> (parsed: Vec<Result<usize, NumberError>>)
    ensures
        parsed@ == entrypoint_readings(entrypoints_str@),
{
    let pieces = split(entrypoints_str, ',');
    let mut parsed: Vec<Result<usize, NumberError>> = Vec::new();
    let mut i: usize = 0;
    while i < pieces.len()
        invariant
            i <= pieces.len(),
            parsed@.len() == i,
            views_of(pieces@) == split_on(entrypoints_str@, ','),
            forall|j: int|
                0 <= j < i ==> parsed@[j] == #[trigger] entrypoint_readings(entrypoints_str@)[j],
        decreases pieces.len() - i,
    {
        let piece = pieces[i];
        assert(views_of(pieces@)[i as int] == piece@);
        parsed.push(parse_usize(trim(piece)));
        i += 1;
    }
    assert(parsed@ =~= entrypoint_readings(entrypoints_str@));
    parsed
}

/// Reads a list of entrypoints: numbers with commas between them and any
/// white space around them, `count` in all.
pub fn entrypoints_parse(entrypoints_str: &str, count: usize) -> (made: Result<
    Vec<usize>,
    ParseError,
>)
    ensures
        is_outcome(made, entrypoints_outcome(entrypoint_readings(entrypoints_str@), count)),
{
    let parsed = entrypoints_read(entrypoints_str);
    entrypoints_from(parsed.as_slice(), count)
}

} // verus!
