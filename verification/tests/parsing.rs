//! Argument parsing: field parsers, kernel selection, and the argument
//! count checks.

use kernel_generator::PrefetchType;
use kernel_generator::argument::ArgumentError;
use kernel_generator::argument::ArgumentParser;
use kernel_generator::argument::GeneratorType;
use kernel_generator::argument::parse_arguments;
use kernel_generator::microkernel::Direction;

fn strings(words: &[&str]) -> Vec<String> {
    words.iter().map(|w| w.to_string()).collect()
}

#[test]
fn parse_u8_accepts_decimal_counts() {
    assert_eq!(ArgumentParser::parse_u8("0"), Ok(0));
    assert_eq!(ArgumentParser::parse_u8("8"), Ok(8));
    assert_eq!(ArgumentParser::parse_u8("255"), Ok(255));
    assert_eq!(ArgumentParser::parse_u8("007"), Ok(7));
    assert_eq!(ArgumentParser::parse_u8("256"), Err(ArgumentError::InvalidArgument));
    assert_eq!(ArgumentParser::parse_u8(""), Err(ArgumentError::InvalidArgument));
    assert_eq!(ArgumentParser::parse_u8("8x"), Err(ArgumentError::InvalidArgument));
    assert_eq!(ArgumentParser::parse_u8("-1"), Err(ArgumentError::InvalidArgument));
}

#[test]
fn parse_option_u8_reads_minus_one_as_none() {
    assert_eq!(ArgumentParser::parse_option_u8("-1"), Ok(None));
    assert_eq!(ArgumentParser::parse_option_u8("0"), Ok(Some(0)));
    assert_eq!(ArgumentParser::parse_option_u8("2"), Ok(Some(2)));
    assert_eq!(ArgumentParser::parse_option_u8("255"), Ok(Some(255)));
    assert_eq!(ArgumentParser::parse_option_u8("-2"), Err(ArgumentError::InvalidArgument));
    assert_eq!(ArgumentParser::parse_option_u8("256"), Err(ArgumentError::InvalidArgument));
    assert_eq!(ArgumentParser::parse_option_u8("x"), Err(ArgumentError::InvalidArgument));
}

#[test]
fn parse_prefetch_info_reads_kind_and_distance() {
    assert_eq!(
        ArgumentParser::parse_prefetch_info("T2", "4096"),
        Ok(Some((PrefetchType::T2, 4096)))
    );
    assert_eq!(
        ArgumentParser::parse_prefetch_info("nta", "0"),
        Ok(Some((PrefetchType::NTA, 0)))
    );
    assert_eq!(ArgumentParser::parse_prefetch_info("None", "4096"), Ok(None));
    assert_eq!(ArgumentParser::parse_prefetch_info("n", "1"), Ok(None));
    assert_eq!(
        ArgumentParser::parse_prefetch_info("T9", "4096"),
        Err(ArgumentError::InvalidArgument)
    );
    assert_eq!(
        ArgumentParser::parse_prefetch_info("T2", "huge"),
        Err(ArgumentError::InvalidArgument)
    );
}

#[test]
fn parse_direction_and_bool_accept_their_spellings() {
    assert_eq!(ArgumentParser::parse_direction("f"), Ok(Direction::Forward));
    assert_eq!(ArgumentParser::parse_direction("BACKWARD"), Ok(Direction::Backward));
    assert_eq!(ArgumentParser::parse_direction("x"), Err(ArgumentError::InvalidArgument));
    assert_eq!(ArgumentParser::parse_bool("t"), Ok(true));
    assert_eq!(ArgumentParser::parse_bool("False"), Ok(false));
    assert_eq!(ArgumentParser::parse_bool("yes"), Err(ArgumentError::InvalidArgument));
}

#[test]
fn parse_arguments_selects_the_kernel() {
    let args = strings(&[
        "spmv", "T2", "4096", "1", "T2", "4096", "-1", "2", "8", "0", "f", "t", "t",
    ]);
    match parse_arguments(&args) {
        Ok(GeneratorType::Spmv(_)) => {},
        _ => panic!("expected a matrix-vector product generator"),
    }
    let args = strings(&[
        "trsv", "f", "-1", "T2", "4096", "1", "T2", "4096", "-1", "2", "8", "0", "f", "t", "t",
    ]);
    match parse_arguments(&args) {
        Ok(GeneratorType::Sptrsv(_)) => {},
        _ => panic!("expected a triangular-solve generator"),
    }
    let args = strings(&[
        "symgs", "-1", "T2", "4096", "1", "T2", "4096", "-1", "2", "8", "8", "0", "0", "0", "0",
        "0", "0", "0", "f", "t", "t",
    ]);
    match parse_arguments(&args) {
        Ok(GeneratorType::Symgs(_)) => {},
        _ => panic!("expected a symmetric Gauss-Seidel generator"),
    }
}

#[test]
fn parse_arguments_rejects_bad_lists() {
    assert!(matches!(parse_arguments(&strings(&[])), Err(ArgumentError::InvalidArgument)));
    assert!(matches!(
        parse_arguments(&strings(&["sort"])),
        Err(ArgumentError::InvalidArgument)
    ));
    assert!(matches!(
        parse_arguments(&strings(&["spmv", "T2"])),
        Err(ArgumentError::NotEnoughArguments)
    ));
    assert!(matches!(
        parse_arguments(&strings(&[
            "spmv", "T2", "4096", "1", "T2", "4096", "-1", "2", "8", "0", "f", "t", "t", "extra",
        ])),
        Err(ArgumentError::TooManyArguments)
    ));
    assert!(matches!(
        parse_arguments(&strings(&[
            "spmv", "T2", "4096", "one", "T2", "4096", "-1", "2", "8", "0", "f", "t", "t",
        ])),
        Err(ArgumentError::InvalidArgument)
    ));
}

#[test]
fn parsed_generator_produces_code() {
    let args = strings(&[
        "spmv", "None", "0", "1", "None", "0", "-1", "0", "8", "0", "f", "f", "f",
    ]);
    let generator = parse_arguments(&args).unwrap();
    let code = kernel_generator::codegen::generator_code(generator).unwrap();
    assert!(code.contains("extern \"C\" int spmv("));
}

#[test]
fn tools_compute_gcd_and_lcm() {
    assert_eq!(kernel_generator::tools::gcd(12, 18), 6);
    assert_eq!(kernel_generator::tools::gcd(7, 0), 7);
    assert_eq!(kernel_generator::tools::gcd(0, 9), 9);
    assert_eq!(kernel_generator::tools::lcm(&[2, 3, 4]), 12);
    // Zero entries are skipped rather than zeroing the result.
    assert_eq!(kernel_generator::tools::lcm(&[1, 0, 1, 8]), 8);
    assert_eq!(kernel_generator::tools::lcm(&[]), 1);
    assert_eq!(kernel_generator::tools::lcm_checked(&[255, 254]), None);
}

#[test]
fn error_messages_name_the_failure() {
    assert_eq!(
        kernel_generator::GenerateError::RegisterOverflow.message(),
        "vector register overflow"
    );
    assert_eq!(
        kernel_generator::GenerateError::IllegalUnrollFactor.message(),
        "illegal unroll factor"
    );
    assert_eq!(ArgumentError::InvalidArgument.message(), "invalid argument");
}

#[test]
fn parse_option_u8_accepts_an_explicit_plus_sign() {
    assert_eq!(ArgumentParser::parse_option_u8("+5"), Ok(Some(5)));
    assert_eq!(ArgumentParser::parse_option_u8("+"), Err(ArgumentError::InvalidArgument));
    assert_eq!(ArgumentParser::parse_option_u8("-"), Err(ArgumentError::InvalidArgument));
    assert_eq!(ArgumentParser::parse_option_u8("-0"), Ok(Some(0)));
}
