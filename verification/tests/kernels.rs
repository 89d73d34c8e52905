//! End-to-end generation: whole kernels driven through the fixpoint
//! engine, and the configuration errors the generators report.

use kernel_generator::Generate;
use kernel_generator::GenerateError;
use kernel_generator::RegisterPool;
use kernel_generator::StateManager;
use kernel_generator::codegen;
use kernel_generator::drive;
use kernel_generator::microkernel::Direction;
use kernel_generator::sparse_matrix::DiagonalStatus;
use kernel_generator::sparse_matrix::ELLInfo;
use kernel_generator::sparse_matrix::GridPointOrdering;
use kernel_generator::sparse_matrix::LUStatus;
use kernel_generator::sparse_matrix::SparseMatrixFormat;
use kernel_generator::spmv;
use kernel_generator::sptrsv;

fn ell(diag: DiagonalStatus) -> SparseMatrixFormat {
    SparseMatrixFormat::ELL(ELLInfo::new(diag, LUStatus::Default, GridPointOrdering::Default))
}

fn spmv_generator(rowblock_size: u8) -> spmv::Generator {
    spmv::Generator::new(
        ell(DiagonalStatus::Default),
        spmv::Action::AssignPosAx,
        Direction::Forward,
        "NROW",
        None,
        0,
        "COL",
        None,
        None,
        "VAL",
        0,
        "X",
        "TMP",
        "I",
        "loop_spmv",
        "Y",
        rowblock_size,
        0,
        false,
        false,
        false,
    )
}

#[test]
fn width_one_body_is_load_multiply_store() {
    // A row-block width of 1, no prefetch, no staging: per block one
    // column load, one gather, and one multiply into the accumulator —
    // a plain multiply for the first block, fused multiply-adds after —
    // then a single scalar store of the reduced result.
    let code = spmv_generator(1).generate().unwrap();
    let text = code.print(1, &["nrow"], &["NROW"]);
    assert_eq!(text.matches("vmovdqa").count(), 4);
    assert_eq!(text.matches("vgatherdpd").count(), 4);
    assert_eq!(text.matches("vmulpd").count(), 1);
    assert_eq!(text.matches("vfmadd231pd").count(), 3);
    assert_eq!(text.matches("vmovsd %%xmm").count(), 1);
    assert!(text.contains("(%[Y])"));
    // The clobber list contains the lane's accumulator register.
    assert!(text.contains("\"zmm4\""));
}

#[test]
fn width_eight_drives_all_reduction_levels_to_one_store() {
    // A row-block width of 8 with full reduction passes through the
    // stride-4, stride-2 and stride-1 combine levels and ends in exactly
    // one store of the reduced row block.
    let code = spmv_generator(8).generate().unwrap();
    let text = code.print(1, &["nrow"], &["NROW"]);
    // Level 0 to 1: cross-256-bit insert/align/add, once per pair.
    assert_eq!(text.matches("vinsertf64x4 $0x0").count(), 4);
    assert_eq!(text.matches("valignq $0x4").count(), 4);
    // Level 1 to 2: mask-controlled permutes.
    assert_eq!(text.matches("vpermpd $0x4e").count(), 4);
    // Level 2 to 3: 128-bit shuffles.
    assert_eq!(text.matches("vshufpd $0xaa").count(), 1);
    assert_eq!(text.matches("vshufpd $0x55").count(), 1);
    // Exactly one store of the final result.
    assert_eq!(text.matches("(%[Y])").count(), 1);
    assert_eq!(text.matches(", (%[Y])").count(), 1);
}

#[test]
fn width_eight_run_conserves_pool_and_store() {
    let generator = spmv_generator(8);
    let entry_mask = generator.avail_registers();
    let mut pool = RegisterPool::new(entry_mask);
    let mut mgr = StateManager::new(generator.initial_states()).unwrap();
    let out = drive(&generator, &mut pool, &mut mgr);
    assert!(out.is_ok());
    assert!(mgr.is_empty());
    assert_eq!(pool.avail_list(), &entry_mask);
}

#[test]
fn unsupported_rowblock_widths_are_rejected_at_validation() {
    for width in [2u8, 4] {
        match spmv_generator(width).generate() {
            Err(e) => assert_eq!(e, GenerateError::UnsupportedConfiguration),
            Ok(_) => panic!("a row-block width without a reduction path must be rejected"),
        }
    }
}

fn sptrsv_generator(direction: Direction, rowblock_size: u8) -> sptrsv::Generator {
    sptrsv::Generator::new(
        ell(DiagonalStatus::Excluded),
        direction,
        None,
        "NROW",
        0,
        None,
        0,
        "COL",
        0,
        None,
        None,
        "VAL",
        0,
        "X",
        "IMM_X",
        "TMP",
        "I",
        "loop_sptrsv",
        "P",
        "D",
        "R",
        rowblock_size,
        0,
        false,
        false,
        false,
        false,
    )
}

#[test]
fn forward_solve_emits_residual_product_and_diagonal_steps() {
    let code = sptrsv_generator(Direction::Forward, 1).generate().unwrap();
    let text = code.print(1, &["nrow"], &["NROW"]);
    // The solve step folds in the residual and staged product, divides by
    // the diagonal, and stores both the solution and the product.
    assert!(text.contains("vaddsd (%[R]), %%xmm"));
    assert!(text.contains("vaddsd (%[P]), %%xmm"));
    assert!(text.contains("vdivsd (%[D]), %%xmm"));
    assert!(text.contains("vmovsd %%xmm"));
    assert!(text.contains("(%[X])"));
}

#[test]
fn backward_solve_multiplies_by_reciprocal_diagonal() {
    let generator = sptrsv::Generator::new(
        ell(DiagonalStatus::ExcludedReciprocal),
        Direction::Backward,
        None,
        "NROW",
        0,
        None,
        0,
        "COL",
        0,
        None,
        None,
        "VAL",
        0,
        "X",
        "IMM_X",
        "TMP",
        "I",
        "loop_sptrsv",
        "P",
        "D",
        "R",
        1,
        0,
        false,
        false,
        false,
        false,
    );
    let code = generator.generate().unwrap();
    let text = code.print(1, &["nrow"], &["NROW"]);
    assert!(text.contains("vmulsd (%[D]), %%xmm"));
    assert!(!text.contains("vdivsd"));
    // Backward traversal rewinds the solution, product and diagonal
    // pointers before the loop.
    assert!(text.contains("sub $0x8, %[X]"));
    assert!(text.contains("sub $0x8, %[P]"));
    assert!(text.contains("sub $0x8, %[D]"));
}

#[test]
fn nop_padding_is_emitted_verbatim() {
    let generator = spmv::Generator::new(
        ell(DiagonalStatus::Default),
        spmv::Action::AssignPosAx,
        Direction::Forward,
        "NROW",
        None,
        0,
        "COL",
        None,
        None,
        "VAL",
        0,
        "X",
        "TMP",
        "I",
        "loop_spmv",
        "Y",
        1,
        3,
        false,
        false,
        false,
    );
    let code = generator.generate().unwrap();
    let text = code.print(1, &[], &[]);
    assert_eq!(text.matches("nop").count(), 3);
}

#[test]
fn generated_code_is_wrapped_in_its_host_function() {
    let code = codegen::get_spmv_code(spmv_generator(8)).unwrap();
    assert!(code.starts_with("    extern \"C\" int spmv("));
    assert!(code.contains("asm volatile(\n"));
    assert!(code.contains("[NROW]\"+r\"(nrow)"));
    assert!(code.contains("[Y]\"+r\"(y)"));
    assert!(code.ends_with("\n    return 0;\n}\n"));
}

#[test]
fn sptrsv_code_binds_the_solve_operands() {
    let code = codegen::get_sptrsv_code(sptrsv_generator(Direction::Forward, 8)).unwrap();
    assert!(code.starts_with("    extern \"C\" int sptrsv("));
    assert!(code.contains("[IMM_X]\"+r\"(imm_x)"));
    assert!(code.contains("[D]\"+r\"(d)"));
    assert!(code.contains("[R]\"+r\"(r)"));
}

#[test]
fn symgs_composes_the_three_phases_in_order() {
    let generator = kernel_generator::symgs::Generator::new(
        ell(DiagonalStatus::Excluded),
        None,
        "NROW",
        "IMM_NROW",
        None,
        0,
        "UCOL",
        "LCOL",
        None,
        None,
        "UVAL",
        "LVAL",
        0,
        "X",
        "IMM_X",
        "TMP",
        "I",
        "loop_c",
        "loop_f0",
        "loop_f1",
        "loop_f2",
        "loop_b0",
        "loop_b1",
        "loop_b2",
        "P",
        "IMM_P",
        "D",
        "R",
        8,
        8,
        0,
        0,
        0,
        0,
        0,
        0,
        0,
        false,
        false,
        false,
    );
    let code = codegen::get_symgs_code(generator).unwrap();
    let pre = code.find("--- precomputing start ---").unwrap();
    let fwd = code.find("--- forwarding start ---").unwrap();
    let bwd = code.find("--- backwarding start ---").unwrap();
    assert!(pre < fwd && fwd < bwd);
    // The precomputing product reads the upper triangle; the forward solve
    // the lower one.
    assert!(code.contains("(%[UCOL])") || code.contains("%[UCOL]"));
    assert!(code.contains("%[LCOL]"));
    // The product pointer is restored between the phases.
    assert!(code.contains("mov %[IMM_P], %[P]"));
    assert!(code.contains("mov %[IMM_NROW], %[NROW]"));
}

#[test]
fn indivisible_unroll_factor_is_an_illegal_unroll() {
    // A column preload distance of 2 makes three column register groups;
    // the least common multiple with eight accumulators is 24, which does
    // not divide a row block of 8.
    let generator = spmv::Generator::new(
        ell(DiagonalStatus::Default),
        spmv::Action::AssignPosAx,
        Direction::Forward,
        "NROW",
        None,
        2,
        "COL",
        None,
        None,
        "VAL",
        0,
        "X",
        "TMP",
        "I",
        "loop_spmv",
        "Y",
        8,
        0,
        false,
        false,
        false,
    );
    match generator.generate() {
        Err(e) => assert_eq!(e, GenerateError::IllegalUnrollFactor),
        Ok(_) => panic!("an indivisible unroll factor must be rejected"),
    }
}

#[test]
fn saturated_preload_distance_is_unsupported() {
    let generator = spmv::Generator::new(
        ell(DiagonalStatus::Default),
        spmv::Action::AssignPosAx,
        Direction::Forward,
        "NROW",
        None,
        255,
        "COL",
        None,
        None,
        "VAL",
        0,
        "X",
        "TMP",
        "I",
        "loop_spmv",
        "Y",
        8,
        0,
        false,
        false,
        false,
    );
    match generator.generate() {
        Err(e) => assert_eq!(e, GenerateError::UnsupportedConfiguration),
        Ok(_) => panic!("an uncountable register group must be rejected"),
    }
}

#[test]
fn rotating_staged_configuration_generates_and_conserves() {
    // Preload rotation through registers, staging through memory and
    // in-body base advancement together: the pool still returns to its
    // entry state and every token is consumed.
    let generator = spmv::Generator::new(
        ell(DiagonalStatus::Default),
        spmv::Action::AssignPosAx,
        Direction::Forward,
        "NROW",
        Some((kernel_generator::PrefetchType::T2, 4096)),
        1,
        "COL",
        Some((kernel_generator::PrefetchType::T2, 4096)),
        None,
        "VAL",
        2,
        "X",
        "TMP",
        "I",
        "loop_spmv",
        "Y",
        8,
        0,
        true,
        true,
        true,
    );
    let entry_mask = generator.avail_registers();
    let mut pool = RegisterPool::new(entry_mask);
    let mut mgr = StateManager::new(generator.initial_states()).unwrap();
    let out = drive(&generator, &mut pool, &mut mgr);
    assert!(out.is_ok());
    assert!(mgr.is_empty());
    assert_eq!(pool.avail_list(), &entry_mask);
    let text = out.ok().unwrap().print(1, &[], &[]);
    // Rotation moves, staging stores, prefetches and the staged reload all
    // appear.
    assert!(text.contains("vmovupd %%zmm"));
    assert!(text.contains("(%[TMP])"));
    assert!(text.contains("prefetcht2 0x1000(%[COL])"));
    assert!(text.contains("vmovupd (%[TMP]), %%zmm"));
}

#[test]
fn wavefront_solve_adds_fixed_count_edges() {
    // A static iteration count wraps the main solve in a fixed-count
    // pre-solve and post-solve and shortens the row counter by both.
    let generator = kernel_generator::symgs::Generator::new(
        ell(DiagonalStatus::Excluded),
        Some(1),
        "NROW",
        "IMM_NROW",
        None,
        0,
        "UCOL",
        "LCOL",
        None,
        None,
        "UVAL",
        "LVAL",
        0,
        "X",
        "IMM_X",
        "TMP",
        "I",
        "loop_c",
        "loop_f0",
        "loop_f1",
        "loop_f2",
        "loop_b0",
        "loop_b1",
        "loop_b2",
        "P",
        "IMM_P",
        "D",
        "R",
        8,
        8,
        0,
        0,
        0,
        0,
        0,
        0,
        0,
        false,
        false,
        false,
    );
    let code = kernel_generator::codegen::get_symgs_code(generator).unwrap();
    assert!(code.contains("loop_f0:"));
    assert!(code.contains("loop_f1:"));
    assert!(code.contains("loop_f2:"));
    assert!(code.contains("loop_b0:"));
    assert!(code.contains("loop_b2:"));
    assert!(code.contains("sub $0x2, %[NROW]"));
}
