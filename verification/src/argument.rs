//! Turning a textual argument list into a configured kernel generator.

use vstd::prelude::*;
use vstd::string::*;

use crate::PrefetchType;
use crate::microkernel::Direction;
use crate::sparse_matrix;
use crate::spmv;
use crate::sptrsv;
use crate::symgs;

verus! {

/// A fully configured generator for one of the three kernels.
pub enum GeneratorType {
    Spmv(spmv::Generator),
    Sptrsv(sptrsv::Generator),
    Symgs(symgs::Generator),
}

/// Argument-list rejection.
#[derive(Clone, Copy, PartialEq, Eq, Structural, Debug)]
pub enum ArgumentError {
    InvalidArgument,
    NotEnoughArguments,
    TooManyArguments,
}

impl ArgumentError {
    /// A human-readable description of the rejection.
    pub fn message(&self) -> (r: &'static str)
        ensures
            r@ == match self {
                ArgumentError::InvalidArgument => "invalid argument"@,
                ArgumentError::NotEnoughArguments => "not enough argument"@,
                ArgumentError::TooManyArguments => "too many arguments"@,
            },
    {
        let r = match self {
            ArgumentError::InvalidArgument => "invalid argument",
            ArgumentError::NotEnoughArguments => "not enough argument",
            ArgumentError::TooManyArguments => "too many arguments",
        };
        r
    }
}

/// The numeric value of a decimal digit.
pub open spec fn spec_digit(c: char) -> Option<int> {
    if '0' <= c && c <= '9' {
        Some(c as int - '0' as int)
    } else {
        None
    }
}

pub open spec fn spec_dec_fold(s: Seq<char>, acc: int) -> Option<int>
    decreases s.len(),
{
    if s.len() == 0 {
        Some(acc)
    } else {
        match spec_digit(s[0]) {
            None => None,
            Some(d) => spec_dec_fold(s.drop_first(), acc * 10 + d),
        }
    }
}

/// The value of a non-empty all-digit string, most significant digit
/// first; `None` when the string is empty or holds a non-digit.
pub open spec fn spec_parse_dec(s: Seq<char>) -> Option<int> {
    if s.len() == 0 {
        None
    } else {
        spec_dec_fold(s, 0)
    }
}

/// The value of an optionally signed decimal string.
pub open spec fn spec_parse_int(s: Seq<char>) -> Option<int> {
    if s.len() >= 1 && s[0] == '-' {
        match spec_parse_dec(s.drop_first()) {
            None => None,
            Some(v) => Some(-v),
        }
    } else if s.len() >= 1 && s[0] == '+' {
        spec_parse_dec(s.drop_first())
    } else {
        spec_parse_dec(s)
    }
}

proof fn lemma_dec_fold_ge(s: Seq<char>, acc: int)
    requires
        acc >= 0,
    ensures
        spec_dec_fold(s, acc) matches Some(v) ==> v >= acc,
    decreases s.len(),
{
    if s.len() > 0 {
        match spec_digit(s[0]) {
            None => {},
            Some(d) => {
                lemma_dec_fold_ge(s.drop_first(), acc * 10 + d);
            },
        }
    }
}

/// Parses a non-negative decimal value, capped: values above 65535 report
/// as 65536.
fn parse_dec_capped(arg: &str) -> (r: Option<u32>)
    ensures
        match r {
            Some(v) => if v <= 65535 {
                spec_parse_dec(arg@) == Some(v as int)
            } else {
                v == 65536 && (spec_parse_dec(arg@) matches Some(w) && w > 65535)
            },
            None => spec_parse_dec(arg@) is None,
        },
{
    let n = arg.unicode_len();
    if n == 0 {
        return None;
    }
    let mut i: usize = 0;
    let mut val: u32 = 0;
    let ghost mut true_acc: int = 0;
    proof {
        assert(arg@.skip(0) =~= arg@);
    }
    while i < n
        invariant
            n == arg@.len(),
            i <= n,
            true_acc >= 0,
            spec_dec_fold(arg@, 0) == spec_dec_fold(arg@.skip(i as int), true_acc),
            true_acc <= 65535 ==> val == true_acc,
            true_acc > 65535 ==> val == 65536,
        decreases n - i,
    {
        let c = arg.get_char(i);
        if !('0' <= c && c <= '9') {
            proof {
                assert(arg@.skip(i as int)[0] == arg@[i as int]);
            }
            return None;
        }
        let d: u32 = c as u32 - 48;
        proof {
            assert(arg@.skip(i as int)[0] == arg@[i as int]);
            assert(arg@.skip(i as int).drop_first() =~= arg@.skip(i + 1 as int));
        }
        if val > 65535 || val * 10 + d > 65535 {
            val = 65536;
        } else {
            val = val * 10 + d;
        }
        proof {
            true_acc = true_acc * 10 + (d as int);
        }
        i += 1;
    }
    proof {
        assert(arg@.skip(n as int) =~= Seq::<char>::empty());
        if val == 65536 {
            lemma_dec_fold_ge(arg@.skip(0), true_acc);
        }
    }
    Some(val)
}

/// Exact character-wise equality of two strings.
fn str_eq(a: &str, b: &str) -> (r: bool)
    ensures
        r == (a@ == b@),
{
    let na = a.unicode_len();
    let nb = b.unicode_len();
    if na != nb {
        return false;
    }
    let mut i: usize = 0;
    while i < na
        invariant
            na == a@.len(),
            na == b@.len(),
            i <= na,
            forall|j: int| 0 <= j < i ==> a@[j] == b@[j],
        decreases na - i,
    {
        if a.get_char(i) != b.get_char(i) {
            return false;
        }
        i += 1;
    }
    proof {
        assert(a@ =~= b@);
    }
    true
}

/// The prefetch selector a string denotes: a hint, explicitly none, or an
/// invalid word.
pub open spec fn spec_prefetch_kind(s: Seq<char>) -> Option<Option<PrefetchType>> {
    if s == "T0"@ || s == "t0"@ {
        Some(Some(PrefetchType::T0))
    } else if s == "T1"@ || s == "t1"@ {
        Some(Some(PrefetchType::T1))
    } else if s == "T2"@ || s == "t2"@ {
        Some(Some(PrefetchType::T2))
    } else if s == "NTA"@ || s == "nta"@ {
        Some(Some(PrefetchType::NTA))
    } else if s == "None"@ || s == "none"@ || s == "n"@ {
        Some(None)
    } else {
        None
    }
}

/// The traversal direction a string denotes.
pub open spec fn spec_direction(s: Seq<char>) -> Option<Direction> {
    if s == "F"@ || s == "f"@ || s == "forward"@ || s == "Forward"@ || s == "FORWARD"@ {
        Some(Direction::Forward)
    } else if s == "B"@ || s == "b"@ || s == "backward"@ || s == "Backward"@ || s == "BACKWARD"@ {
        Some(Direction::Backward)
    } else {
        None
    }
}

/// The boolean a string denotes.
pub open spec fn spec_bool(s: Seq<char>) -> Option<bool> {
    if s == "T"@ || s == "t"@ || s == "true"@ || s == "True"@ || s == "TRUE"@ {
        Some(true)
    } else if s == "F"@ || s == "f"@ || s == "false"@ || s == "False"@ || s == "FALSE"@ {
        Some(false)
    } else {
        None
    }
}

/// Whether a string parses as an 8-bit count.
pub open spec fn spec_u8_ok(s: Seq<char>) -> bool {
    spec_parse_dec(s) matches Some(v) && v <= 255
}

/// Whether a string parses as a 16-bit prefetch distance.
pub open spec fn spec_u16_ok(s: Seq<char>) -> bool {
    spec_parse_dec(s) matches Some(v) && v <= 65535
}

/// Whether a string parses as an optional 8-bit count: `-1` stands for
/// "none".
pub open spec fn spec_option_u8_ok(s: Seq<char>) -> bool {
    spec_parse_int(s) matches Some(v) && -1 <= v < 256
}

/// Whether a prefetch selector and distance pair parses.
pub open spec fn spec_prefetch_ok(kind: Seq<char>, dist: Seq<char>) -> bool {
    spec_prefetch_kind(kind) is Some && spec_u16_ok(dist)
}

/// Parses the textual fields of one generator configuration.
pub struct ArgumentParser;

impl ArgumentParser {
    /// Parses a prefetch selector and its distance.
    pub fn parse_prefetch_info(arg0: &str, arg1: &str) -> (r: Result<
        Option<(PrefetchType, u16)>,
        ArgumentError,
    >)
        ensures
            match r {
                Ok(info) => spec_prefetch_ok(arg0@, arg1@) && (match info {
                    Some(p) => spec_prefetch_kind(arg0@) == Some(Some(p.0)) && spec_parse_dec(
                        arg1@,
                    ) == Some(p.1 as int),
                    None => spec_prefetch_kind(arg0@) == Some(None::<PrefetchType>),
                }),
                Err(e) => e == ArgumentError::InvalidArgument && !spec_prefetch_ok(arg0@, arg1@),
            },
    {
        let prefetch_kind: Option<PrefetchType> = if str_eq(arg0, "T0") || str_eq(arg0, "t0") {
            Some(PrefetchType::T0)
        } else if str_eq(arg0, "T1") || str_eq(arg0, "t1") {
            Some(PrefetchType::T1)
        } else if str_eq(arg0, "T2") || str_eq(arg0, "t2") {
            Some(PrefetchType::T2)
        } else if str_eq(arg0, "NTA") || str_eq(arg0, "nta") {
            Some(PrefetchType::NTA)
        } else if str_eq(arg0, "None") || str_eq(arg0, "none") || str_eq(arg0, "n") {
            None
        } else {
            return Err(ArgumentError::InvalidArgument);
        };
        let prefetch_dist: u16 = match parse_dec_capped(arg1) {
            Some(v) if v <= 65535 => v as u16,
            _ => {
                return Err(ArgumentError::InvalidArgument);
            },
        };
        match prefetch_kind {
            Some(kind) => Ok(Some((kind, prefetch_dist))),
            None => Ok(None),
        }
    }

    /// Parses an 8-bit count.
    pub fn parse_u8(arg: &str) -> (r: Result<u8, ArgumentError>)
        ensures
            match r {
                Ok(n) => spec_parse_dec(arg@) == Some(n as int),
                Err(e) => e == ArgumentError::InvalidArgument && !spec_u8_ok(arg@),
            },
    {
        match parse_dec_capped(arg) {
            Some(v) if v <= 255 => Ok(v as u8),
            _ => Err(ArgumentError::InvalidArgument),
        }
    }

    /// Parses an optional 8-bit count, where `-1` stands for "none".
    pub fn parse_option_u8(arg: &str) -> (r: Result<Option<u8>, ArgumentError>)
        ensures
            match r {
                Ok(None) => spec_parse_int(arg@) == Some(-1int),
                Ok(Some(n)) => spec_parse_int(arg@) == Some(n as int),
                Err(e) => e == ArgumentError::InvalidArgument && !spec_option_u8_ok(arg@),
            },
    {
        let n = arg.unicode_len();
        if n >= 1 {
            let c0 = arg.get_char(0);
            if c0 == '-' {
                // Only `-1` is a meaningful negative value.
                let rest = arg.substring_char(1, n);
                proof {
                    assert(rest@ =~= arg@.drop_first());
                }
                match parse_dec_capped(rest) {
                    Some(v) if v == 1 => {
                        return Ok(None);
                    },
                    Some(v) if v == 0 => {
                        return Ok(Some(0));
                    },
                    _ => {
                        return Err(ArgumentError::InvalidArgument);
                    },
                }
            }
            if c0 == '+' {
                let rest = arg.substring_char(1, n);
                proof {
                    assert(rest@ =~= arg@.drop_first());
                }
                match parse_dec_capped(rest) {
                    Some(v) if v <= 255 => {
                        return Ok(Some(v as u8));
                    },
                    _ => {
                        return Err(ArgumentError::InvalidArgument);
                    },
                }
            }
        }
        match parse_dec_capped(arg) {
            Some(v) if v <= 255 => Ok(Some(v as u8)),
            _ => Err(ArgumentError::InvalidArgument),
        }
    }

    /// Parses a traversal direction.
    pub fn parse_direction(arg: &str) -> (r: Result<Direction, ArgumentError>)
        ensures
            match r {
                Ok(d) => spec_direction(arg@) == Some(d),
                Err(e) => e == ArgumentError::InvalidArgument && spec_direction(arg@) is None,
            },
    {
        if str_eq(arg, "F") || str_eq(arg, "f") || str_eq(arg, "forward") || str_eq(arg, "Forward")
            || str_eq(arg, "FORWARD") {
            Ok(Direction::Forward)
        } else if str_eq(arg, "B") || str_eq(arg, "b") || str_eq(arg, "backward") || str_eq(
            arg,
            "Backward",
        ) || str_eq(arg, "BACKWARD") {
            Ok(Direction::Backward)
        } else {
            Err(ArgumentError::InvalidArgument)
        }
    }

    /// Parses a boolean toggle.
    pub fn parse_bool(arg: &str) -> (r: Result<bool, ArgumentError>)
        ensures
            match r {
                Ok(b) => spec_bool(arg@) == Some(b),
                Err(e) => e == ArgumentError::InvalidArgument && spec_bool(arg@) is None,
            },
    {
        if str_eq(arg, "T") || str_eq(arg, "t") || str_eq(arg, "true") || str_eq(arg, "True")
            || str_eq(arg, "TRUE") {
            Ok(true)
        } else if str_eq(arg, "F") || str_eq(arg, "f") || str_eq(arg, "false") || str_eq(
            arg,
            "False",
        ) || str_eq(arg, "FALSE") {
            Ok(false)
        } else {
            Err(ArgumentError::InvalidArgument)
        }
    }
}

/// Whether a string selects the matrix-vector product kernel.
pub open spec fn spec_is_spmv(s: Seq<char>) -> bool {
    s == "spmv"@ || s == "SPMV"@
}

/// Whether a string selects the triangular-solve kernel.
pub open spec fn spec_is_sptrsv(s: Seq<char>) -> bool {
    s == "trsv"@ || s == "TRSV"@ || s == "sptrsv"@ || s == "SPTRSV"@
}

/// Whether a string selects the symmetric Gauss-Seidel kernel.
pub open spec fn spec_is_symgs(s: Seq<char>) -> bool {
    s == "symgs"@ || s == "SYMGS"@
}

/// Parses the argument list of the matrix-vector product kernel, after the
/// kernel selector.
fn parse_spmv_arguments(args: &[String]) -> (r: Result<spmv::Generator, ArgumentError>)
    ensures
        r is Err ==> (args@.len() < 12 ==> r == Err::<spmv::Generator, ArgumentError>(
            ArgumentError::NotEnoughArguments,
        ) || r == Err::<spmv::Generator, ArgumentError>(ArgumentError::InvalidArgument)),
        r == Err::<spmv::Generator, ArgumentError>(ArgumentError::TooManyArguments) ==> args@.len()
            > 12,
        r is Ok ==> args@.len() == 12,
{
    if args.len() < 2 {
        return Err(ArgumentError::NotEnoughArguments);
    }
    let ell_info = sparse_matrix::ELLInfo::new(
        sparse_matrix::DiagonalStatus::Default,
        sparse_matrix::LUStatus::Default,
        sparse_matrix::GridPointOrdering::Default,
    );
    let matrix_format = sparse_matrix::SparseMatrixFormat::ELL(ell_info);
    let action = spmv::Action::AssignPosAx;
    let direction = Direction::Forward;

    let col_prefetch_info = match ArgumentParser::parse_prefetch_info(
        args[0].as_str(),
        args[1].as_str(),
    ) {
        Ok(v) => v,
        Err(e) => {
            return Err(e);
        },
    };
    if args.len() < 3 {
        return Err(ArgumentError::NotEnoughArguments);
    }
    let col_preload_dist = match ArgumentParser::parse_u8(args[2].as_str()) {
        Ok(v) => v,
        Err(e) => {
            return Err(e);
        },
    };
    if args.len() < 5 {
        return Err(ArgumentError::NotEnoughArguments);
    }
    let val_prefetch_info = match ArgumentParser::parse_prefetch_info(
        args[3].as_str(),
        args[4].as_str(),
    ) {
        Ok(v) => v,
        Err(e) => {
            return Err(e);
        },
    };
    if args.len() < 6 {
        return Err(ArgumentError::NotEnoughArguments);
    }
    let val_preload_dist = match ArgumentParser::parse_option_u8(args[5].as_str()) {
        Ok(v) => v,
        Err(e) => {
            return Err(e);
        },
    };
    if args.len() < 7 {
        return Err(ArgumentError::NotEnoughArguments);
    }
    let x_preload_dist = match ArgumentParser::parse_u8(args[6].as_str()) {
        Ok(v) => v,
        Err(e) => {
            return Err(e);
        },
    };
    if args.len() < 8 {
        return Err(ArgumentError::NotEnoughArguments);
    }
    let rowblock_size = match ArgumentParser::parse_u8(args[7].as_str()) {
        Ok(v) => v,
        Err(e) => {
            return Err(e);
        },
    };
    if args.len() < 9 {
        return Err(ArgumentError::NotEnoughArguments);
    }
    let n_nops = match ArgumentParser::parse_u8(args[8].as_str()) {
        Ok(v) => v,
        Err(e) => {
            return Err(e);
        },
    };
    if args.len() < 10 {
        return Err(ArgumentError::NotEnoughArguments);
    }
    let store_to_tmp = match ArgumentParser::parse_bool(args[9].as_str()) {
        Ok(v) => v,
        Err(e) => {
            return Err(e);
        },
    };
    if args.len() < 11 {
        return Err(ArgumentError::NotEnoughArguments);
    }
    let move_reg = match ArgumentParser::parse_bool(args[10].as_str()) {
        Ok(v) => v,
        Err(e) => {
            return Err(e);
        },
    };
    if args.len() < 12 {
        return Err(ArgumentError::NotEnoughArguments);
    }
    let move_base = match ArgumentParser::parse_bool(args[11].as_str()) {
        Ok(v) => v,
        Err(e) => {
            return Err(e);
        },
    };
    if args.len() > 12 {
        return Err(ArgumentError::TooManyArguments);
    }
    Ok(
        spmv::Generator::new(
            matrix_format,
            action,
            direction,
            "NROW",
            col_prefetch_info,
            col_preload_dist,
            "COL",
            val_prefetch_info,
            val_preload_dist,
            "VAL",
            x_preload_dist,
            "X",
            "TMP",
            "I",
            "loop_spmv",
            "Y",
            rowblock_size,
            n_nops,
            store_to_tmp,
            move_reg,
            move_base,
        ),
    )
}

/// Parses the argument list of the triangular-solve kernel, after the
/// kernel selector.
fn parse_sptrsv_arguments(args: &[String]) -> (r: Result<sptrsv::Generator, ArgumentError>)
    ensures
        r == Err::<sptrsv::Generator, ArgumentError>(ArgumentError::TooManyArguments)
            ==> args@.len() > 14,
        r is Ok ==> args@.len() == 14,
{
    let ell_info = sparse_matrix::ELLInfo::new(
        sparse_matrix::DiagonalStatus::Excluded,
        sparse_matrix::LUStatus::Default,
        sparse_matrix::GridPointOrdering::Default,
    );
    let matrix_format = sparse_matrix::SparseMatrixFormat::ELL(ell_info);

    if args.len() < 1 {
        return Err(ArgumentError::NotEnoughArguments);
    }
    let direction = match ArgumentParser::parse_direction(args[0].as_str()) {
        Ok(v) => v,
        Err(e) => {
            return Err(e);
        },
    };
    if args.len() < 2 {
        return Err(ArgumentError::NotEnoughArguments);
    }
    let static_iter = match ArgumentParser::parse_option_u8(args[1].as_str()) {
        Ok(v) => v,
        Err(e) => {
            return Err(e);
        },
    };
    if args.len() < 4 {
        return Err(ArgumentError::NotEnoughArguments);
    }
    let col_prefetch_info = match ArgumentParser::parse_prefetch_info(
        args[2].as_str(),
        args[3].as_str(),
    ) {
        Ok(v) => v,
        Err(e) => {
            return Err(e);
        },
    };
    if args.len() < 5 {
        return Err(ArgumentError::NotEnoughArguments);
    }
    let col_preload_dist = match ArgumentParser::parse_u8(args[4].as_str()) {
        Ok(v) => v,
        Err(e) => {
            return Err(e);
        },
    };
    if args.len() < 7 {
        return Err(ArgumentError::NotEnoughArguments);
    }
    let val_prefetch_info = match ArgumentParser::parse_prefetch_info(
        args[5].as_str(),
        args[6].as_str(),
    ) {
        Ok(v) => v,
        Err(e) => {
            return Err(e);
        },
    };
    if args.len() < 8 {
        return Err(ArgumentError::NotEnoughArguments);
    }
    let val_preload_dist = match ArgumentParser::parse_option_u8(args[7].as_str()) {
        Ok(v) => v,
        Err(e) => {
            return Err(e);
        },
    };
    if args.len() < 9 {
        return Err(ArgumentError::NotEnoughArguments);
    }
    let x_preload_dist = match ArgumentParser::parse_u8(args[8].as_str()) {
        Ok(v) => v,
        Err(e) => {
            return Err(e);
        },
    };
    if args.len() < 10 {
        return Err(ArgumentError::NotEnoughArguments);
    }
    let rowblock_size = match ArgumentParser::parse_u8(args[9].as_str()) {
        Ok(v) => v,
        Err(e) => {
            return Err(e);
        },
    };
    if args.len() < 11 {
        return Err(ArgumentError::NotEnoughArguments);
    }
    let n_nops = match ArgumentParser::parse_u8(args[10].as_str()) {
        Ok(v) => v,
        Err(e) => {
            return Err(e);
        },
    };
    if args.len() < 12 {
        return Err(ArgumentError::NotEnoughArguments);
    }
    let store_to_tmp = match ArgumentParser::parse_bool(args[11].as_str()) {
        Ok(v) => v,
        Err(e) => {
            return Err(e);
        },
    };
    if args.len() < 13 {
        return Err(ArgumentError::NotEnoughArguments);
    }
    let move_reg = match ArgumentParser::parse_bool(args[12].as_str()) {
        Ok(v) => v,
        Err(e) => {
            return Err(e);
        },
    };
    if args.len() < 14 {
        return Err(ArgumentError::NotEnoughArguments);
    }
    let move_base = match ArgumentParser::parse_bool(args[13].as_str()) {
        Ok(v) => v,
        Err(e) => {
            return Err(e);
        },
    };
    if args.len() > 14 {
        return Err(ArgumentError::TooManyArguments);
    }
    Ok(
        sptrsv::Generator::new(
            matrix_format,
            direction,
            static_iter,
            "NROW",
            0,
            col_prefetch_info,
            col_preload_dist,
            "COL",
            0,
            val_prefetch_info,
            val_preload_dist,
            "VAL",
            x_preload_dist,
            "X",
            "IMM_X",
            "TMP",
            "I",
            "loop_sptrsv",
            "P",
            "D",
            "R",
            rowblock_size,
            n_nops,
            store_to_tmp,
            move_reg,
            move_base,
            false,
        ),
    )
}

/// Parses the argument list of the symmetric Gauss-Seidel kernel, after
/// the kernel selector.
fn parse_symgs_arguments(args: &[String]) -> (r: Result<symgs::Generator, ArgumentError>)
    ensures
        r == Err::<symgs::Generator, ArgumentError>(ArgumentError::TooManyArguments)
            ==> args@.len() > 20,
        r is Ok ==> args@.len() == 20,
{
    let ell_info = sparse_matrix::ELLInfo::new(
        sparse_matrix::DiagonalStatus::Excluded,
        sparse_matrix::LUStatus::Default,
        sparse_matrix::GridPointOrdering::Default,
    );
    let matrix_format = sparse_matrix::SparseMatrixFormat::ELL(ell_info);

    if args.len() < 1 {
        return Err(ArgumentError::NotEnoughArguments);
    }
    let sptrsv_static_iter = match ArgumentParser::parse_option_u8(args[0].as_str()) {
        Ok(v) => v,
        Err(e) => {
            return Err(e);
        },
    };
    if args.len() < 3 {
        return Err(ArgumentError::NotEnoughArguments);
    }
    let col_prefetch_info = match ArgumentParser::parse_prefetch_info(
        args[1].as_str(),
        args[2].as_str(),
    ) {
        Ok(v) => v,
        Err(e) => {
            return Err(e);
        },
    };
    if args.len() < 4 {
        return Err(ArgumentError::NotEnoughArguments);
    }
    let col_preload_dist = match ArgumentParser::parse_u8(args[3].as_str()) {
        Ok(v) => v,
        Err(e) => {
            return Err(e);
        },
    };
    if args.len() < 6 {
        return Err(ArgumentError::NotEnoughArguments);
    }
    let val_prefetch_info = match ArgumentParser::parse_prefetch_info(
        args[4].as_str(),
        args[5].as_str(),
    ) {
        Ok(v) => v,
        Err(e) => {
            return Err(e);
        },
    };
    if args.len() < 7 {
        return Err(ArgumentError::NotEnoughArguments);
    }
    let val_preload_dist = match ArgumentParser::parse_option_u8(args[6].as_str()) {
        Ok(v) => v,
        Err(e) => {
            return Err(e);
        },
    };
    if args.len() < 8 {
        return Err(ArgumentError::NotEnoughArguments);
    }
    let x_preload_dist = match ArgumentParser::parse_u8(args[7].as_str()) {
        Ok(v) => v,
        Err(e) => {
            return Err(e);
        },
    };
    if args.len() < 9 {
        return Err(ArgumentError::NotEnoughArguments);
    }
    let spmv_rowblock_size = match ArgumentParser::parse_u8(args[8].as_str()) {
        Ok(v) => v,
        Err(e) => {
            return Err(e);
        },
    };
    if args.len() < 10 {
        return Err(ArgumentError::NotEnoughArguments);
    }
    let sptrsv_rowblock_size = match ArgumentParser::parse_u8(args[9].as_str()) {
        Ok(v) => v,
        Err(e) => {
            return Err(e);
        },
    };
    if args.len() < 11 {
        return Err(ArgumentError::NotEnoughArguments);
    }
    let n_nops_c = match ArgumentParser::parse_u8(args[10].as_str()) {
        Ok(v) => v,
        Err(e) => {
            return Err(e);
        },
    };
    if args.len() < 12 {
        return Err(ArgumentError::NotEnoughArguments);
    }
    let n_nops_f0 = match ArgumentParser::parse_u8(args[11].as_str()) {
        Ok(v) => v,
        Err(e) => {
            return Err(e);
        },
    };
    if args.len() < 13 {
        return Err(ArgumentError::NotEnoughArguments);
    }
    let n_nops_f1 = match ArgumentParser::parse_u8(args[12].as_str()) {
        Ok(v) => v,
        Err(e) => {
            return Err(e);
        },
    };
    if args.len() < 14 {
        return Err(ArgumentError::NotEnoughArguments);
    }
    let n_nops_f2 = match ArgumentParser::parse_u8(args[13].as_str()) {
        Ok(v) => v,
        Err(e) => {
            return Err(e);
        },
    };
    if args.len() < 15 {
        return Err(ArgumentError::NotEnoughArguments);
    }
    let n_nops_b0 = match ArgumentParser::parse_u8(args[14].as_str()) {
        Ok(v) => v,
        Err(e) => {
            return Err(e);
        },
    };
    if args.len() < 16 {
        return Err(ArgumentError::NotEnoughArguments);
    }
    let n_nops_b1 = match ArgumentParser::parse_u8(args[15].as_str()) {
        Ok(v) => v,
        Err(e) => {
            return Err(e);
        },
    };
    if args.len() < 17 {
        return Err(ArgumentError::NotEnoughArguments);
    }
    let n_nops_b2 = match ArgumentParser::parse_u8(args[16].as_str()) {
        Ok(v) => v,
        Err(e) => {
            return Err(e);
        },
    };
    if args.len() < 18 {
        return Err(ArgumentError::NotEnoughArguments);
    }
    let store_to_tmp = match ArgumentParser::parse_bool(args[17].as_str()) {
        Ok(v) => v,
        Err(e) => {
            return Err(e);
        },
    };
    if args.len() < 19 {
        return Err(ArgumentError::NotEnoughArguments);
    }
    let move_reg = match ArgumentParser::parse_bool(args[18].as_str()) {
        Ok(v) => v,
        Err(e) => {
            return Err(e);
        },
    };
    if args.len() < 20 {
        return Err(ArgumentError::NotEnoughArguments);
    }
    let move_base = match ArgumentParser::parse_bool(args[19].as_str()) {
        Ok(v) => v,
        Err(e) => {
            return Err(e);
        },
    };
    if args.len() > 20 {
        return Err(ArgumentError::TooManyArguments);
    }
    Ok(
        symgs::Generator::new(
            matrix_format,
            sptrsv_static_iter,
            "NROW",
            "IMM_NROW",
            col_prefetch_info,
            col_preload_dist,
            "UCOL",
            "LCOL",
            val_prefetch_info,
            val_preload_dist,
            "UVAL",
            "LVAL",
            x_preload_dist,
            "X",
            "IMM_X",
            "TMP",
            "I",
            "loop_c",
            "loop_f0",
            "loop_f1",
            "loop_f2",
            "loop_b0",
            "loop_b1",
            "loop_b2",
            "P",
            "IMM_P",
            "D",
            "R",
            spmv_rowblock_size,
            sptrsv_rowblock_size,
            n_nops_c,
            n_nops_f0,
            n_nops_f1,
            n_nops_f2,
            n_nops_b0,
            n_nops_b1,
            n_nops_b2,
            store_to_tmp,
            move_reg,
            move_base,
        ),
    )
}

/// Parses a full argument list: the kernel selector, then that kernel's
/// configuration fields.
pub fn parse_arguments(args: &[String]) -> (r: Result<GeneratorType, ArgumentError>)
    ensures
        args@.len() == 0 ==> r == Err::<GeneratorType, ArgumentError>(
            ArgumentError::InvalidArgument,
        ),
        r is Ok ==> args@.len() >= 1 && (spec_is_spmv(args@[0]@) || spec_is_sptrsv(args@[0]@)
            || spec_is_symgs(args@[0]@)),
{
    if args.len() == 0 {
        return Err(ArgumentError::InvalidArgument);
    }
    let head = args[0].as_str();
    let rest: &[String] = slice_drop_first(args);
    if str_eq(head, "spmv") || str_eq(head, "SPMV") {
        match parse_spmv_arguments(rest) {
            Ok(g) => Ok(GeneratorType::Spmv(g)),
            Err(e) => Err(e),
        }
    } else if str_eq(head, "trsv") || str_eq(head, "TRSV") || str_eq(head, "sptrsv") || str_eq(
        head,
        "SPTRSV",
    ) {
        match parse_sptrsv_arguments(rest) {
            Ok(g) => Ok(GeneratorType::Sptrsv(g)),
            Err(e) => Err(e),
        }
    } else if str_eq(head, "symgs") || str_eq(head, "SYMGS") {
        match parse_symgs_arguments(rest) {
            Ok(g) => Ok(GeneratorType::Symgs(g)),
            Err(e) => Err(e),
        }
    } else {
        Err(ArgumentError::InvalidArgument)
    }
}

/// All elements of a slice but the first.
fn slice_drop_first(args: &[String]) -> (r: &[String])
    requires
        args@.len() >= 1,
    ensures
        r@ == args@.drop_first(),
{
    let r = vstd::slice::slice_subrange(args, 1, args.len());
    proof {
        assert(r@ =~= args@.drop_first());
    }
    r
}

} // verus!
