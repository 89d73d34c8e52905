//! The symmetric Gauss-Seidel kernel generator: an upper-triangle
//! precomputing product, a forward triangular solve and a backward
//! triangular solve, composed in sequence through the fixpoint driver.

use vstd::prelude::*;

pub mod backwarding;
pub mod forwarding;
pub mod precomputing;

use crate::Assembly;
use crate::Condition;
use crate::Generate;
use crate::GenerateError;
use crate::PrefetchType;
use crate::RegisterPool;
use crate::Rule;
use crate::State;
use crate::StateManager;
use crate::drive;
use crate::Firing;
use crate::spec_complete_run;
use crate::spec_empty_assembly;
use crate::spec_empty_store;
use crate::spec_insert_all;
use crate::spec_run;
use crate::spec_store_empty;
use crate::spec_run_output;
use crate::sparse_matrix::SparseMatrixFormat;

verus! {

pub const PRECOMPUTING: u32 = 0;
pub const FORWARDING: u32 = 1;
pub const BACKWARDING: u32 = 2;

pub struct Generator {
    matrix_format: SparseMatrixFormat,
    sptrsv_static_iter: Option<u8>,
    nrow_name: &'static str,
    immutable_nrow_name: &'static str,
    col_prefetch_info: Option<(PrefetchType, u16)>,
    col_preload_dist: u8,
    ucol_name: &'static str,
    lcol_name: &'static str,
    val_prefetch_info: Option<(PrefetchType, u16)>,
    val_preload_dist: Option<u8>,
    uval_name: &'static str,
    lval_name: &'static str,
    x_preload_dist: u8,
    x_name: &'static str,
    immutable_x_name: &'static str,
    tmp_name: &'static str,
    cnt_name: &'static str,
    precomputing_loop_name: &'static str,
    preforwarding_loop_name: &'static str,
    forwarding_loop_name: &'static str,
    postforwarding_loop_name: &'static str,
    prebackwarding_loop_name: &'static str,
    backwarding_loop_name: &'static str,
    postbackwarding_loop_name: &'static str,
    p_name: &'static str,
    immutable_p_name: &'static str,
    d_name: &'static str,
    r_name: &'static str,
    spmv_rowblock_size: u8,
    sptrsv_rowblock_size: u8,
    nops_before_precomputing: u8,
    nops_before_preforwarding: u8,
    nops_before_forwarding: u8,
    nops_before_postforwarding: u8,
    nops_before_prebackwarding: u8,
    nops_before_backwarding: u8,
    nops_before_postbackwarding: u8,
    store_to_tmp: bool,
    move_reg: bool,
    move_base: bool,
}

impl Generator {
    pub fn new(
        matrix_format: SparseMatrixFormat,
        sptrsv_static_iter: Option<u8>,
        nrow_name: &'static str,
        immutable_nrow_name: &'static str,
        col_prefetch_info: Option<(PrefetchType, u16)>,
        col_preload_dist: u8,
        ucol_name: &'static str,
        lcol_name: &'static str,
        val_prefetch_info: Option<(PrefetchType, u16)>,
        val_preload_dist: Option<u8>,
        uval_name: &'static str,
        lval_name: &'static str,
        x_preload_dist: u8,
        x_name: &'static str,
        immutable_x_name: &'static str,
        tmp_name: &'static str,
        cnt_name: &'static str,
        precomputing_loop_name: &'static str,
        preforwarding_loop_name: &'static str,
        forwarding_loop_name: &'static str,
        postforwarding_loop_name: &'static str,
        prebackwarding_loop_name: &'static str,
        backwarding_loop_name: &'static str,
        postbackwarding_loop_name: &'static str,
        p_name: &'static str,
        immutable_p_name: &'static str,
        d_name: &'static str,
        r_name: &'static str,
        spmv_rowblock_size: u8,
        sptrsv_rowblock_size: u8,
        nops_before_precomputing: u8,
        nops_before_preforwarding: u8,
        nops_before_forwarding: u8,
        nops_before_postforwarding: u8,
        nops_before_prebackwarding: u8,
        nops_before_backwarding: u8,
        nops_before_postbackwarding: u8,
        store_to_tmp: bool,
        move_reg: bool,
        move_base: bool,
    ) -> (r: Self)
        ensures
            r.wf(),
    {
        Generator {
            matrix_format,
            sptrsv_static_iter,
            nrow_name,
            immutable_nrow_name,
            col_prefetch_info,
            col_preload_dist,
            ucol_name,
            lcol_name,
            val_prefetch_info,
            val_preload_dist,
            uval_name,
            lval_name,
            x_preload_dist,
            x_name,
            immutable_x_name,
            tmp_name,
            cnt_name,
            precomputing_loop_name,
            preforwarding_loop_name,
            forwarding_loop_name,
            postforwarding_loop_name,
            prebackwarding_loop_name,
            backwarding_loop_name,
            postbackwarding_loop_name,
            p_name,
            immutable_p_name,
            d_name,
            r_name,
            spmv_rowblock_size,
            sptrsv_rowblock_size,
            nops_before_precomputing,
            nops_before_preforwarding,
            nops_before_forwarding,
            nops_before_postforwarding,
            nops_before_prebackwarding,
            nops_before_backwarding,
            nops_before_postbackwarding,
            store_to_tmp,
            move_reg,
            move_base,
        }
    }
}

impl Generator {
    /// The single seed token that starts the phase chain.
    pub closed spec fn spec_initial_states(&self) -> Seq<State> {
        seq![State { id: PRECOMPUTING, idx: 0, reg: 0 }]
    }
}

impl Generate for Generator {
    open spec fn nesting(&self) -> nat {
        3
    }

    open spec fn wf(&self) -> bool {
        true
    }

    open spec fn spec_rulebook(&self) -> Seq<Rule> {
        seq![
            Rule { condition: Condition::Single { id: PRECOMPUTING } },
            Rule { condition: Condition::Single { id: FORWARDING } },
            Rule { condition: Condition::Single { id: BACKWARDING } },
        ]
    }

    fn rulebook(&self) -> (r: Vec<Rule>) {
        let mut v: Vec<Rule> = Vec::new();
        v.push(Rule { condition: Condition::Single { id: PRECOMPUTING } });
        v.push(Rule { condition: Condition::Single { id: FORWARDING } });
        v.push(Rule { condition: Condition::Single { id: BACKWARDING } });
        proof {
            assert(v@ =~= self.spec_rulebook());
        }
        v
    }

    fn avail_registers(&self) -> (r: [bool; 32])
        ensures
            forall|i: int| 0 <= i < 32 ==> !r@[i],
    {
        [false;32]
    }

    fn initial_states(&self) -> (r: Vec<State>)
        ensures
            r@ == self.spec_initial_states(),
    {
        let mut states: Vec<State> = Vec::new();
        states.push(State { id: PRECOMPUTING, idx: 0, reg: 0 });
        proof {
            assert(states@ =~= self.spec_initial_states());
        }
        states
    }

    fn transform(&self, rule: usize, _pool: &mut RegisterPool, _matched: &Vec<State>) -> (r: Result<
        (Assembly, Vec<State>),
        GenerateError,
    >) {
        if rule == 0 {
            let precomputing_generator = precomputing::Generator::new(
                self.matrix_format,
                self.nrow_name,
                self.col_prefetch_info,
                self.col_preload_dist,
                self.ucol_name,
                self.val_prefetch_info,
                self.val_preload_dist,
                self.uval_name,
                self.x_preload_dist,
                self.x_name,
                self.tmp_name,
                self.cnt_name,
                self.precomputing_loop_name,
                self.p_name,
                self.immutable_p_name,
                self.spmv_rowblock_size,
                self.nops_before_precomputing,
                self.store_to_tmp,
                self.move_reg,
                self.move_base,
            );
            let body = match precomputing_generator.generate() {
                Ok(a) => a,
                Err(e) => {
                    return Err(e);
                },
            };
            let out = Assembly::new().comment("--- precomputing start --- //").append(
                body,
            ).comment("---  precomputing end  --- //").empty_line();
            let mut states: Vec<State> = Vec::new();
            states.push(State { id: FORWARDING, idx: 0, reg: 0 });
            Ok((out, states))
        } else if rule == 1 {
            let forwarding_generator = forwarding::Generator::new(
                self.matrix_format,
                self.sptrsv_static_iter,
                self.nrow_name,
                self.immutable_nrow_name,
                self.col_prefetch_info,
                self.col_preload_dist,
                self.lcol_name,
                self.val_prefetch_info,
                self.val_preload_dist,
                self.lval_name,
                self.x_preload_dist,
                self.x_name,
                self.immutable_x_name,
                self.tmp_name,
                self.cnt_name,
                self.preforwarding_loop_name,
                self.forwarding_loop_name,
                self.postforwarding_loop_name,
                self.p_name,
                self.d_name,
                self.r_name,
                self.sptrsv_rowblock_size,
                self.nops_before_preforwarding,
                self.nops_before_forwarding,
                self.nops_before_postforwarding,
                self.store_to_tmp,
                self.move_reg,
                self.move_base,
            );
            let body = match forwarding_generator.generate() {
                Ok(a) => a,
                Err(e) => {
                    return Err(e);
                },
            };
            let out = Assembly::new().comment("--- forwarding start --- //").append(body).comment(
                "---  forwarding end  --- //",
            ).empty_line();
            let mut states: Vec<State> = Vec::new();
            states.push(State { id: BACKWARDING, idx: 0, reg: 0 });
            Ok((out, states))
        } else {
            let backwarding_generator = backwarding::Generator::new(
                self.matrix_format,
                self.sptrsv_static_iter,
                self.nrow_name,
                self.immutable_nrow_name,
                self.col_prefetch_info,
                self.col_preload_dist,
                self.ucol_name,
                self.val_prefetch_info,
                self.val_preload_dist,
                self.uval_name,
                self.x_preload_dist,
                self.x_name,
                self.immutable_x_name,
                self.tmp_name,
                self.cnt_name,
                self.prebackwarding_loop_name,
                self.backwarding_loop_name,
                self.postbackwarding_loop_name,
                self.p_name,
                self.d_name,
                self.r_name,
                self.sptrsv_rowblock_size,
                self.nops_before_prebackwarding,
                self.nops_before_backwarding,
                self.nops_before_postbackwarding,
                self.store_to_tmp,
                self.move_reg,
                self.move_base,
            );
            let body = match backwarding_generator.generate() {
                Ok(a) => a,
                Err(e) => {
                    return Err(e);
                },
            };
            let out = Assembly::new().comment("--- backwarding start --- //").append(body).comment(
                "---  backwarding end  --- //",
            ).empty_line();
            Ok((out, Vec::new()))
        }
    }
}

impl Generator {
    /// Runs the fixpoint driver over this generator's rulebook.
    pub fn generate(&self) -> (r: Result<Assembly, GenerateError>)
        ensures
            r matches Ok(out) ==> out@.wf() && spec_complete_run(
                self.spec_rulebook(),
                spec_insert_all(spec_empty_store(), self.spec_initial_states()),
                out@,
            ),
            self.spec_initial_states().len() == 0 ==> (r matches Ok(out) && out@
                == spec_empty_assembly()),
        decreases self.nesting(), 2nat,
    {
        let mut pool = RegisterPool::new(self.avail_registers());
        let seeds = self.initial_states();
        let ghost seed_store = spec_insert_all(spec_empty_store(), seeds@);
        proof {
            if self.spec_initial_states().len() == 0 {
                assert(seeds@ =~= Seq::<State>::empty());
                assert(seed_store == spec_empty_store());
                assert(spec_store_empty(seed_store));
            }
        }
        let mut mgr = match StateManager::new(seeds) {
            Ok(m) => m,
            Err(e) => {
                return Err(e);
            },
        };
        match drive(self, &mut pool, &mut mgr) {
            Ok(out) => {
                proof {
                    let trace = choose|trace: Seq<Firing>|
                        spec_run(self.spec_rulebook(), seed_store, trace, mgr@) && out@
                            == spec_run_output(trace);
                    assert(spec_run(self.spec_rulebook(), seed_store, trace, mgr@));
                    assert(out@ == spec_run_output(trace));
                }
                Ok(out)
            },
            Err(e) => Err(e),
        }
    }
}

} // verus!
