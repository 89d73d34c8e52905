//! Rendering: addressing forms, instruction lines, concatenation laws and
//! the operand/clobber interface of a printed block.

use kernel_generator::Assembly;
use kernel_generator::PrefetchType;

fn plain(a: &Assembly) -> String {
    a.print(0, &[], &[])
}

#[test]
fn zero_displacement_omits_the_offset_term() {
    let text = plain(&Assembly::new().load_f64x8(1, "X", 0));
    assert!(text.contains("vmovupd (%[X]), %%zmm1"));
    assert!(!text.contains("0x0(%[X])"));
}

#[test]
fn negative_displacement_renders_with_explicit_sign() {
    let text = plain(&Assembly::new().load_f64x8(1, "X", -8));
    assert!(text.contains("vmovupd -0x8(%[X]), %%zmm1"));
}

#[test]
fn positive_displacement_renders_as_hexadecimal() {
    let text = plain(&Assembly::new().load_f64x8(1, "X", 16));
    assert!(text.contains("vmovupd 0x10(%[X]), %%zmm1"));
}

#[test]
fn store_and_scalar_forms_render_exactly() {
    let text = plain(
        &Assembly::new()
            .store_f64x8("Y", 64, 7)
            .load_f64x1(2, "D", 0)
            .store_f64x1("P", -16, 3),
    );
    assert!(text.contains("vmovupd %%zmm7, 0x40(%[Y])"));
    assert!(text.contains("vmovsd (%[D]), %%xmm2"));
    assert!(text.contains("vmovsd %%xmm3, -0x10(%[P])"));
}

#[test]
fn arithmetic_and_control_lines_render_exactly() {
    let text = plain(
        &Assembly::new()
            .label("loop_a")
            .add_immediate("COL", 128)
            .sub_immediate("I", 1)
            .set_immediate("I", 4)
            .shift_right("NROW", 3)
            .move_reg("NROW", "IMM_NROW")
            .muladd_f64x8(4, 5, 6)
            .gather_f64x8(9, "X", 3, 1)
            .prefetch(PrefetchType::T2, "COL", 4096)
            .jump_nz("loop_a"),
    );
    assert!(text.contains("loop_a:"));
    assert!(text.contains("add $0x80, %[COL]"));
    assert!(text.contains("sub $0x1, %[I]"));
    assert!(text.contains("movl $0x4, %[I]"));
    assert!(text.contains("sar $0x3, %[NROW]"));
    assert!(text.contains("mov %[IMM_NROW], %[NROW]"));
    assert!(text.contains("vfmadd231pd %%zmm6, %%zmm5, %%zmm4"));
    assert!(text.contains("vgatherdpd (%[X],%%ymm3,8), %%zmm9%{%%k1%}"));
    assert!(text.contains("prefetcht2 0x1000(%[COL])"));
    assert!(text.contains("jnz loop_a"));
}

#[test]
fn reduction_primitives_render_exactly() {
    let text = plain(
        &Assembly::new()
            .mix4add_f64x8(2, 0, 1)
            .init_mix2mask("I", 1, 2)
            .mix2add_f64x8(5, 3, 4, 1, 2)
            .mix1add_f64x8(8, 6, 7)
            .fold4add_f64x8(9, 8)
            .fold2add_f64x4(10, 9)
            .fold1add_f64x2(11, 10),
    );
    assert!(text.contains("vinsertf64x4 $0x0, %%ymm0, %%zmm1, %%zmm2"));
    assert!(text.contains("valignq $0x4, %%zmm0, %%zmm1, %%zmm1"));
    assert!(text.contains("movl $0x33, %[I]"));
    assert!(text.contains("kmovw %[I], %%k1"));
    assert!(text.contains("knotw %%k1, %%k2"));
    assert!(text.contains("vpermpd $0x4e, %%zmm3, %%zmm4%{%%k1%}"));
    assert!(text.contains("vshufpd $0xaa, %%zmm7, %%zmm6, %%zmm8"));
    assert!(text.contains("vshufpd $0x55, %%zmm7, %%zmm6, %%zmm6"));
    assert!(text.contains("vextractf64x4 $0x1, %%zmm8, %%ymm9"));
    assert!(text.contains("vextractf128 $0x1, %%ymm9, %%xmm10"));
    assert!(text.contains("vhaddpd %%xmm10, %%xmm10, %%xmm11"));
}

#[test]
fn comments_and_blank_lines_render_verbatim() {
    let text = plain(&Assembly::new().comment("--- preload ---").empty_line().nop(2));
    assert!(text.contains("// --- preload ---"));
    assert!(text.contains("\n\n"));
    assert_eq!(text.matches("nop").count(), 2);
}

#[test]
fn output_operands_bind_variables_to_aliases_in_order() {
    let text = Assembly::new().nop(1).print(1, &["nrow", "col"], &["NROW", "COL"]);
    assert!(text.contains(": [NROW]\"+r\"(nrow), [COL]\"+r\"(col)\n"));
    assert!(text.starts_with("    asm volatile(\n"));
    assert!(text.ends_with("    );\n"));
}

#[test]
fn clobbers_list_touched_registers_ascending_and_deduplicated() {
    let a = Assembly::new()
        .move_f64x8(9, 1)
        .move_f64x8(2, 1)
        .move_f64x8(9, 3)
        .mask_on(2)
        .mask_on(1)
        .mask_on(2);
    let text = plain(&a);
    assert!(text.contains(": \"zmm2\", \"zmm9\", \"k1\", \"k2\"\n"));
}

#[test]
fn concatenation_is_associative_on_the_rendered_block() {
    // (a ++ b) ++ c and a ++ (b ++ c) render identically, clobbers
    // included.
    let a = || Assembly::new().move_f64x8(1, 2).mask_on(1);
    let b = || Assembly::new().store_f64x8("Y", 0, 3).move_f64x8(4, 5);
    let c = || Assembly::new().mask_on(3).load_f64x8(31, "X", 8);
    let left = a().append(b()).append(c());
    let right = a().append(b().append(c()));
    assert_eq!(plain(&left), plain(&right));
}

#[test]
fn appending_never_removes_recorded_usage() {
    let a = Assembly::new().move_f64x8(5, 0).mask_on(2);
    let before = plain(&a);
    let after = plain(&a.append(Assembly::new().move_f64x8(17, 0).mask_on(4)));
    assert!(before.contains("\"zmm5\""));
    assert!(before.contains("\"k2\""));
    assert!(after.contains("\"zmm5\""));
    assert!(after.contains("\"k2\""));
    assert!(after.contains("\"zmm17\""));
    assert!(after.contains("\"k4\""));
}

#[test]
fn comment_detection_requires_leading_slashes() {
    assert!(kernel_generator::assembly::is_comment("// note"));
    assert!(!kernel_generator::assembly::is_comment("//"));
    assert!(!kernel_generator::assembly::is_comment("nop"));
    assert!(!kernel_generator::assembly::is_comment(""));
}

#[test]
fn prefetch_zero_distance_keeps_the_sign_prefix() {
    // The prefetch form has no zero-omission branch: a zero distance
    // renders through the non-positive arm.
    let text = plain(&Assembly::new().prefetch(PrefetchType::T0, "COL", 0));
    assert!(text.contains("prefetcht0 -0x0(%[COL])"));
}

#[test]
fn load_i32x8_uses_the_aligned_integer_move() {
    let text = plain(&Assembly::new().load_i32x8(15, "COL", 32));
    assert!(text.contains("vmovdqa 0x20(%[COL]), %%ymm15"));
}

#[test]
fn printed_block_matches_character_for_character() {
    let a = Assembly::new().load_f64x8(1, "X", 0).comment("note").empty_line();
    let text = a.print(1, &["x"], &["X"]);
    let expected = format!(
        "    asm volatile(\n    \" {:<48} \\t\\n\"\n    {:<48}\n\n    : [X]\"+r\"(x)\n    :\n    : \"zmm1\"\n    );\n",
        "vmovupd (%[X]), %%zmm1", "// note",
    );
    assert_eq!(text, expected);
}

#[test]
fn most_negative_displacement_renders_exactly() {
    let text = plain(&Assembly::new().load_f64x8(0, "X", -32768).store_f64x8("Y", 32767, 2));
    assert!(text.contains("vmovupd -0x8000(%[X]), %%zmm0"));
    assert!(text.contains("vmovupd %%zmm2, 0x7fff(%[Y])"));
}
