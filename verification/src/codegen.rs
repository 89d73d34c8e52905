//! Embedding a generated instruction sequence into the text of a host
//! function: a fixed prologue, the rendered inline-assembly block, and a
//! fixed epilogue, with the operand names each kernel binds.

use vstd::prelude::*;
use vstd::string::*;

use crate::Assembly;
use crate::Generate;
use crate::GenerateError;
use crate::spec_complete_run;
use crate::spec_empty_store;
use crate::spec_insert_all;
use crate::argument::GeneratorType;
use crate::assembly::AssemblyView;
use crate::assembly::spec_print;
use crate::spmv;
use crate::sptrsv;
use crate::symgs;

verus! {

/// The complete host-function text around a matrix-vector product block.
pub open spec fn spec_spmv_code(v: AssemblyView) -> Seq<char> {
    "    extern \"C\" int spmv(int nrow, const int* col, const double* val, const double* x, double* tmp, double* y) { \n    int i;\n\n"@
        + spec_print(
        v,
        1,
        seq!["nrow", "col", "x", "val", "tmp", "y", "i"],
        seq!["NROW", "COL", "X", "VAL", "TMP", "Y", "I"],
    ) + "\n    return 0;\n}\n"@
}

/// The complete host-function text around a triangular-solve block.
pub open spec fn spec_sptrsv_code(v: AssemblyView) -> Seq<char> {
    "    extern \"C\" int sptrsv(int nrow, const int* col, const double* val, double* x, double* tmp, double* p, const double* d, const double* r) {\n    int i;\n    double* imm_x = x;\n\n"@
        + spec_print(
        v,
        1,
        seq!["nrow", "col", "val", "x", "imm_x", "tmp", "i", "p", "d", "r"],
        seq!["NROW", "COL", "VAL", "X", "IMM_X", "TMP", "I", "P", "D", "R"],
    ) + "\n    return 0;\n}\n"@
}

/// The complete host-function text around a symmetric Gauss-Seidel block.
pub open spec fn spec_symgs_code(v: AssemblyView) -> Seq<char> {
    "    extern \"C\" int symgs(int nrow, const int* ucol, const int* lcol, const double* uval, const double* lval, double* x, double* tmp, double* p, const double* d, const double* r) {\n    int i;\n    int imm_nrow = nrow;\n    double* imm_x = x;\n    double* imm_p = p;\n\n"@
        + spec_print(
        v,
        1,
        seq![
            "nrow",
            "imm_nrow",
            "ucol",
            "lcol",
            "uval",
            "lval",
            "x",
            "imm_x",
            "tmp",
            "i",
            "p",
            "imm_p",
            "d",
            "r",
        ],
        seq![
            "NROW",
            "IMM_NROW",
            "UCOL",
            "LCOL",
            "UVAL",
            "LVAL",
            "X",
            "IMM_X",
            "TMP",
            "I",
            "P",
            "IMM_P",
            "D",
            "R",
        ],
    ) + "\n    return 0;\n}\n"@
}

/// Wraps an already-generated matrix-vector product block in its host
/// function.
pub fn spmv_code_text(body: &Assembly) -> (r: String)
    requires
        body@.wf(),
    ensures
        r@ == spec_spmv_code(body@),
{
    let variable_names: [&'static str; 7] = ["nrow", "col", "x", "val", "tmp", "y", "i"];
    let asm_names: [&'static str; 7] = ["NROW", "COL", "X", "VAL", "TMP", "Y", "I"];
    let main_code = body.print(1, &variable_names, &asm_names);
    proof {
        assert(variable_names@ =~= seq!["nrow", "col", "x", "val", "tmp", "y", "i"]);
        assert(asm_names@ =~= seq!["NROW", "COL", "X", "VAL", "TMP", "Y", "I"]);
    }
    let mut out = String::from_str(
        "    extern \"C\" int spmv(int nrow, const int* col, const double* val, const double* x, double* tmp, double* y) { \n    int i;\n\n",
    );
    out.append(main_code.as_str());
    out.append("\n    return 0;\n}\n");
    out
}

/// Wraps an already-generated triangular-solve block in its host function.
pub fn sptrsv_code_text(body: &Assembly) -> (r: String)
    requires
        body@.wf(),
    ensures
        r@ == spec_sptrsv_code(body@),
{
    let variable_names: [&'static str; 10] = [
        "nrow",
        "col",
        "val",
        "x",
        "imm_x",
        "tmp",
        "i",
        "p",
        "d",
        "r",
    ];
    let asm_names: [&'static str; 10] = [
        "NROW",
        "COL",
        "VAL",
        "X",
        "IMM_X",
        "TMP",
        "I",
        "P",
        "D",
        "R",
    ];
    let main_code = body.print(1, &variable_names, &asm_names);
    proof {
        assert(variable_names@ =~= seq![
            "nrow",
            "col",
            "val",
            "x",
            "imm_x",
            "tmp",
            "i",
            "p",
            "d",
            "r",
        ]);
        assert(asm_names@ =~= seq![
            "NROW",
            "COL",
            "VAL",
            "X",
            "IMM_X",
            "TMP",
            "I",
            "P",
            "D",
            "R",
        ]);
    }
    let mut out = String::from_str(
        "    extern \"C\" int sptrsv(int nrow, const int* col, const double* val, double* x, double* tmp, double* p, const double* d, const double* r) {\n    int i;\n    double* imm_x = x;\n\n",
    );
    out.append(main_code.as_str());
    out.append("\n    return 0;\n}\n");
    out
}

/// Wraps an already-generated symmetric Gauss-Seidel block in its host
/// function.
pub fn symgs_code_text(body: &Assembly) -> (r: String)
    requires
        body@.wf(),
    ensures
        r@ == spec_symgs_code(body@),
{
    let variable_names: [&'static str; 14] = [
        "nrow",
        "imm_nrow",
        "ucol",
        "lcol",
        "uval",
        "lval",
        "x",
        "imm_x",
        "tmp",
        "i",
        "p",
        "imm_p",
        "d",
        "r",
    ];
    let asm_names: [&'static str; 14] = [
        "NROW",
        "IMM_NROW",
        "UCOL",
        "LCOL",
        "UVAL",
        "LVAL",
        "X",
        "IMM_X",
        "TMP",
        "I",
        "P",
        "IMM_P",
        "D",
        "R",
    ];
    let main_code = body.print(1, &variable_names, &asm_names);
    proof {
        assert(variable_names@ =~= seq![
            "nrow",
            "imm_nrow",
            "ucol",
            "lcol",
            "uval",
            "lval",
            "x",
            "imm_x",
            "tmp",
            "i",
            "p",
            "imm_p",
            "d",
            "r",
        ]);
        assert(asm_names@ =~= seq![
            "NROW",
            "IMM_NROW",
            "UCOL",
            "LCOL",
            "UVAL",
            "LVAL",
            "X",
            "IMM_X",
            "TMP",
            "I",
            "P",
            "IMM_P",
            "D",
            "R",
        ]);
    }
    let mut out = String::from_str(
        "    extern \"C\" int symgs(int nrow, const int* ucol, const int* lcol, const double* uval, const double* lval, double* x, double* tmp, double* p, const double* d, const double* r) {\n    int i;\n    int imm_nrow = nrow;\n    double* imm_x = x;\n    double* imm_p = p;\n\n",
    );
    out.append(main_code.as_str());
    out.append("\n    return 0;\n}\n");
    out
}

/// Generates the matrix-vector product kernel and embeds it in its host
/// function.
pub fn get_spmv_code(spmv_generator: spmv::Generator) -> (r: Result<String, GenerateError>)
    ensures
        r matches Ok(code) ==> exists|v: AssemblyView|
            {
                &&& #[trigger] spec_complete_run(
                    spmv_generator.spec_rulebook(),
                    spec_insert_all(spec_empty_store(), spmv_generator.spec_initial_states()),
                    v,
                )
                &&& v.wf()
                &&& code@ == spec_spmv_code(v)
            },
{
    let body = match spmv_generator.generate() {
        Ok(a) => a,
        Err(e) => {
            return Err(e);
        },
    };
    let code = spmv_code_text(&body);
    proof {
        assert(spec_complete_run(
            spmv_generator.spec_rulebook(),
            spec_insert_all(spec_empty_store(), spmv_generator.spec_initial_states()),
            body@,
        ) && body@.wf() && code@ == spec_spmv_code(body@));
    }
    Ok(code)
}

/// Generates the triangular-solve kernel and embeds it in its host
/// function.
pub fn get_sptrsv_code(sptrsv_generator: sptrsv::Generator) -> (r: Result<String, GenerateError>)
    ensures
        r matches Ok(code) ==> exists|v: AssemblyView|
            {
                &&& #[trigger] spec_complete_run(
                    sptrsv_generator.spec_rulebook(),
                    spec_insert_all(spec_empty_store(), sptrsv_generator.spec_initial_states()),
                    v,
                )
                &&& v.wf()
                &&& code@ == spec_sptrsv_code(v)
            },
{
    let body = match sptrsv_generator.generate() {
        Ok(a) => a,
        Err(e) => {
            return Err(e);
        },
    };
    let code = sptrsv_code_text(&body);
    proof {
        assert(spec_complete_run(
            sptrsv_generator.spec_rulebook(),
            spec_insert_all(spec_empty_store(), sptrsv_generator.spec_initial_states()),
            body@,
        ) && body@.wf() && code@ == spec_sptrsv_code(body@));
    }
    Ok(code)
}

/// Generates the symmetric Gauss-Seidel kernel and embeds it in its host
/// function.
pub fn get_symgs_code(symgs_generator: symgs::Generator) -> (r: Result<String, GenerateError>)
    ensures
        r matches Ok(code) ==> exists|v: AssemblyView|
            {
                &&& #[trigger] spec_complete_run(
                    symgs_generator.spec_rulebook(),
                    spec_insert_all(spec_empty_store(), symgs_generator.spec_initial_states()),
                    v,
                )
                &&& v.wf()
                &&& code@ == spec_symgs_code(v)
            },
{
    let body = match symgs_generator.generate() {
        Ok(a) => a,
        Err(e) => {
            return Err(e);
        },
    };
    let code = symgs_code_text(&body);
    proof {
        assert(spec_complete_run(
            symgs_generator.spec_rulebook(),
            spec_insert_all(spec_empty_store(), symgs_generator.spec_initial_states()),
            body@,
        ) && body@.wf() && code@ == spec_symgs_code(body@));
    }
    Ok(code)
}

/// Generates whichever kernel the parsed arguments selected, embedded in
/// its host function: the complete run of that kernel's rulebook from its
/// seed tokens, wrapped in its host-function text.
pub fn generator_code(generator: GeneratorType) -> (r: Result<String, GenerateError>)
    ensures
        match generator {
            GeneratorType::Spmv(g) => (r matches Ok(code) ==> exists|v: AssemblyView|
                {
                    &&& #[trigger] spec_complete_run(
                        g.spec_rulebook(),
                        spec_insert_all(spec_empty_store(), g.spec_initial_states()),
                        v,
                    )
                    &&& v.wf()
                    &&& code@ == spec_spmv_code(v)
                }),
            GeneratorType::Sptrsv(g) => (r matches Ok(code) ==> exists|v: AssemblyView|
                {
                    &&& #[trigger] spec_complete_run(
                        g.spec_rulebook(),
                        spec_insert_all(spec_empty_store(), g.spec_initial_states()),
                        v,
                    )
                    &&& v.wf()
                    &&& code@ == spec_sptrsv_code(v)
                }),
            GeneratorType::Symgs(g) => (r matches Ok(code) ==> exists|v: AssemblyView|
                {
                    &&& #[trigger] spec_complete_run(
                        g.spec_rulebook(),
                        spec_insert_all(spec_empty_store(), g.spec_initial_states()),
                        v,
                    )
                    &&& v.wf()
                    &&& code@ == spec_symgs_code(v)
                }),
        },
{
    match generator {
        GeneratorType::Spmv(g) => get_spmv_code(g),
        GeneratorType::Sptrsv(g) => get_sptrsv_code(g),
        GeneratorType::Symgs(g) => get_symgs_code(g),
    }
}

} // verus!
