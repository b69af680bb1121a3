use starsoldier_bytecode_playground::settings::{
    entrypoints_from, entrypoints_parse, rank_from, rank_parse, stage_from, stage_parse,
    NumberError, ParseError, RANK_MAX, STAGE_MAX, STAGE_MIN,
};

#[test]
fn bounds_of_stage_and_rank() {
    assert_eq!(STAGE_MIN, 1);
    assert_eq!(STAGE_MAX, 16);
    assert_eq!(RANK_MAX, 7);
}

#[test]
fn every_stage_is_read() {
    for stage in 1..=16u8 {
        assert_eq!(stage_parse(&stage.to_string()), Ok(stage));
    }
}

#[test]
fn numbers_outside_the_stages_are_refused() {
    assert_eq!(stage_parse("0"), Err(ParseError::StageOutOfRange));
    assert_eq!(stage_parse("17"), Err(ParseError::StageOutOfRange));
    assert_eq!(stage_parse("255"), Err(ParseError::StageOutOfRange));
}

#[test]
fn stage_in_other_bases() {
    assert_eq!(stage_parse("0x10"), Ok(16));
    assert_eq!(stage_parse("0o17"), Ok(15));
    assert_eq!(stage_parse("0b101"), Ok(5));
    assert_eq!(stage_parse("1_6"), Ok(16));
    assert_eq!(stage_parse("0x11"), Err(ParseError::StageOutOfRange));
}

#[test]
fn stage_with_white_space_around_it() {
    assert_eq!(stage_parse("  7\t"), Ok(7));
}

#[test]
fn stage_that_is_no_number() {
    assert_eq!(stage_parse(""), Err(ParseError::Number(NumberError::Empty)));
    assert_eq!(stage_parse("   "), Err(ParseError::Number(NumberError::Empty)));
    assert_eq!(stage_parse("seven"), Err(ParseError::Number(NumberError::InvalidDigit)));
    assert_eq!(stage_parse("-1"), Err(ParseError::Number(NumberError::InvalidDigit)));
    assert_eq!(stage_parse("_1"), Err(ParseError::Number(NumberError::InvalidDigit)));
    assert_eq!(stage_parse("256"), Err(ParseError::Number(NumberError::PosOverflow)));
    assert_eq!(stage_parse("0x100"), Err(ParseError::Number(NumberError::PosOverflow)));
}

#[test]
fn stage_from_a_read_number() {
    assert_eq!(stage_from(Ok(1)), Ok(1));
    assert_eq!(stage_from(Ok(16)), Ok(16));
    assert_eq!(stage_from(Ok(0)), Err(ParseError::StageOutOfRange));
    assert_eq!(stage_from(Ok(17)), Err(ParseError::StageOutOfRange));
    assert_eq!(
        stage_from(Err(NumberError::NegOverflow)),
        Err(ParseError::Number(NumberError::NegOverflow))
    );
    assert_eq!(stage_from(Err(NumberError::Other)), Err(ParseError::Number(NumberError::Other)));
}

#[test]
fn every_rank_is_read() {
    for rank in 0..=7u8 {
        assert_eq!(rank_parse(&rank.to_string()), Ok(rank));
    }
}

#[test]
fn numbers_above_the_ranks_are_refused() {
    assert_eq!(rank_parse("8"), Err(ParseError::RankOutOfRange));
    assert_eq!(rank_parse("255"), Err(ParseError::RankOutOfRange));
}

#[test]
fn rank_in_other_bases() {
    assert_eq!(rank_parse("0b111"), Ok(7));
    assert_eq!(rank_parse("0x7"), Ok(7));
    assert_eq!(rank_parse("0o10"), Err(ParseError::RankOutOfRange));
}

#[test]
fn rank_that_is_no_number() {
    assert_eq!(rank_parse(""), Err(ParseError::Number(NumberError::Empty)));
    assert_eq!(rank_parse("x"), Err(ParseError::Number(NumberError::InvalidDigit)));
    assert_eq!(rank_parse("1000"), Err(ParseError::Number(NumberError::PosOverflow)));
}

#[test]
fn rank_from_a_read_number() {
    assert_eq!(rank_from(Ok(0)), Ok(0));
    assert_eq!(rank_from(Ok(7)), Ok(7));
    assert_eq!(rank_from(Ok(8)), Err(ParseError::RankOutOfRange));
    assert_eq!(
        rank_from(Err(NumberError::Empty)),
        Err(ParseError::Number(NumberError::Empty))
    );
}

#[test]
fn entrypoints_are_read_in_order() {
    assert_eq!(entrypoints_parse("1, 2, 3", 3), Ok(vec![1, 2, 3]));
    assert_eq!(entrypoints_parse("10,20", 2), Ok(vec![10, 20]));
    assert_eq!(entrypoints_parse("7", 1), Ok(vec![7]));
}

#[test]
fn entrypoints_in_other_bases_and_with_white_space() {
    assert_eq!(entrypoints_parse(" 0x10 ,\t0o17,0b11\n, 1_000", 4), Ok(vec![16, 15, 3, 1000]));
    assert_eq!(entrypoints_parse("\u{3000}5\u{2003},\u{A0}6", 2), Ok(vec![5, 6]));
}

#[test]
fn entrypoint_count_must_match() {
    assert_eq!(entrypoints_parse("1, 2, 3", 2), Err(ParseError::EntrypointCountMismatch));
    assert_eq!(entrypoints_parse("1, 2, 3", 4), Err(ParseError::EntrypointCountMismatch));
    assert_eq!(entrypoints_parse("1", 0), Err(ParseError::EntrypointCountMismatch));
}

#[test]
fn an_empty_list_holds_one_empty_piece() {
    assert_eq!(entrypoints_parse("", 0), Err(ParseError::Number(NumberError::Empty)));
    assert_eq!(entrypoints_parse("", 1), Err(ParseError::Number(NumberError::Empty)));
    assert_eq!(entrypoints_parse("1,", 1), Err(ParseError::Number(NumberError::Empty)));
    assert_eq!(entrypoints_parse("1,,2", 3), Err(ParseError::Number(NumberError::Empty)));
}

#[test]
fn the_first_failure_is_the_error() {
    assert_eq!(
        entrypoints_parse("1, x, 99999999999999999999999999", 3),
        Err(ParseError::Number(NumberError::InvalidDigit))
    );
    assert_eq!(
        entrypoints_parse("1, 99999999999999999999999999, x", 3),
        Err(ParseError::Number(NumberError::PosOverflow))
    );
    assert_eq!(
        entrypoints_parse("1, x", 5),
        Err(ParseError::Number(NumberError::InvalidDigit))
    );
}

#[test]
fn entrypoints_from_read_numbers() {
    assert_eq!(entrypoints_from(&[Ok(4), Ok(5)], 2), Ok(vec![4, 5]));
    assert_eq!(entrypoints_from(&[], 0), Ok(vec![]));
    assert_eq!(entrypoints_from(&[], 1), Err(ParseError::EntrypointCountMismatch));
    assert_eq!(entrypoints_from(&[Ok(4), Ok(5)], 3), Err(ParseError::EntrypointCountMismatch));
    assert_eq!(
        entrypoints_from(&[Ok(4), Err(NumberError::Empty), Err(NumberError::Other)], 3),
        Err(ParseError::Number(NumberError::Empty))
    );
    assert_eq!(
        entrypoints_from(&[Err(NumberError::NegOverflow), Ok(1)], 7),
        Err(ParseError::Number(NumberError::NegOverflow))
    );
}

#[test]
fn failures_in_words() {
    assert_eq!(ParseError::EntrypointCountMismatch.message(), "entrypoint count mismatch");
    assert_eq!(ParseError::StageOutOfRange.message(), "stage must be within 1..=16");
    assert_eq!(ParseError::RankOutOfRange.message(), "rank must be within 0..=7");
    assert_eq!(
        ParseError::Number(NumberError::InvalidDigit).message(),
        NumberError::InvalidDigit.message()
    );
    assert_eq!(NumberError::Other.message(), "cannot parse integer");
}

#[test]
fn number_failures_in_the_words_of_the_standard_library() {
    assert_eq!(NumberError::Empty.message(), "".parse::<u8>().unwrap_err().to_string());
    assert_eq!(NumberError::InvalidDigit.message(), "x".parse::<u8>().unwrap_err().to_string());
    assert_eq!(NumberError::PosOverflow.message(), "256".parse::<u8>().unwrap_err().to_string());
    assert_eq!(NumberError::NegOverflow.message(), "-129".parse::<i8>().unwrap_err().to_string());
}
