//! The precomputing phase of the symmetric Gauss-Seidel sweep: a negated
//! upper-triangle product staged into the product vector, then the product
//! pointer restored.

use vstd::prelude::*;

use crate::Assembly;
use crate::Condition;
use crate::Generate;
use crate::GenerateError;
use crate::PrefetchType;
use crate::RegisterPool;
use crate::Rule;
use crate::State;
use crate::StateManager;
use crate::drive;
use crate::Firing;
use crate::spec_complete_run;
use crate::spec_empty_assembly;
use crate::spec_empty_store;
use crate::spec_insert_all;
use crate::spec_run;
use crate::spec_store_empty;
use crate::spec_run_output;
use crate::microkernel::Direction;
use crate::sparse_matrix::SparseMatrixFormat;
use crate::spmv;

verus! {

pub const GENERATING_SPMV: u32 = 0;
pub const RESTORING_P: u32 = 1;

pub struct Generator {
    matrix_format: SparseMatrixFormat,
    nrow_name: &'static str,
    col_prefetch_info: Option<(PrefetchType, u16)>,
    col_preload_dist: u8,
    ucol_name: &'static str,
    val_prefetch_info: Option<(PrefetchType, u16)>,
    val_preload_dist: Option<u8>,
    uval_name: &'static str,
    x_preload_dist: u8,
    x_name: &'static str,
    tmp_name: &'static str,
    cnt_name: &'static str,
    loop_name: &'static str,
    p_name: &'static str,
    immutable_p_name: &'static str,
    rowblock_size: u8,
    nops_before_precomputing: u8,
    store_to_tmp: bool,
    move_reg: bool,
    move_base: bool,
}

impl Generator {
    pub fn new(
        matrix_format: SparseMatrixFormat,
        nrow_name: &'static str,
        col_prefetch_info: Option<(PrefetchType, u16)>,
        col_preload_dist: u8,
        ucol_name: &'static str,
        val_prefetch_info: Option<(PrefetchType, u16)>,
        val_preload_dist: Option<u8>,
        uval_name: &'static str,
        x_preload_dist: u8,
        x_name: &'static str,
        tmp_name: &'static str,
        cnt_name: &'static str,
        loop_name: &'static str,
        p_name: &'static str,
        immutable_p_name: &'static str,
        rowblock_size: u8,
        nops_before_precomputing: u8,
        store_to_tmp: bool,
        move_reg: bool,
        move_base: bool,
    ) -> (r: Self)
        ensures
            r.wf(),
    {
        Generator {
            matrix_format,
            nrow_name,
            col_prefetch_info,
            col_preload_dist,
            ucol_name,
            val_prefetch_info,
            val_preload_dist,
            uval_name,
            x_preload_dist,
            x_name,
            tmp_name,
            cnt_name,
            loop_name,
            p_name,
            immutable_p_name,
            rowblock_size,
            nops_before_precomputing,
            store_to_tmp,
            move_reg,
            move_base,
        }
    }
}

impl Generator {
    /// The single seed token that starts the phase chain.
    pub closed spec fn spec_initial_states(&self) -> Seq<State> {
        seq![State { id: GENERATING_SPMV, idx: 0, reg: 0 }]
    }
}

impl Generate for Generator {
    open spec fn nesting(&self) -> nat {
        2
    }

    open spec fn wf(&self) -> bool {
        true
    }

    open spec fn spec_rulebook(&self) -> Seq<Rule> {
        seq![
            Rule { condition: Condition::Single { id: GENERATING_SPMV } },
            Rule { condition: Condition::Single { id: RESTORING_P } },
        ]
    }

    fn rulebook(&self) -> (r: Vec<Rule>) {
        let mut v: Vec<Rule> = Vec::new();
        v.push(Rule { condition: Condition::Single { id: GENERATING_SPMV } });
        v.push(Rule { condition: Condition::Single { id: RESTORING_P } });
        proof {
            assert(v@ =~= self.spec_rulebook());
        }
        v
    }

    fn avail_registers(&self) -> (r: [bool; 32])
        ensures
            forall|i: int| 0 <= i < 32 ==> !r@[i],
    {
        [false;32]
    }

    fn initial_states(&self) -> (r: Vec<State>)
        ensures
            r@ == self.spec_initial_states(),
    {
        let mut states: Vec<State> = Vec::new();
        states.push(State { id: GENERATING_SPMV, idx: 0, reg: 0 });
        proof {
            assert(states@ =~= self.spec_initial_states());
        }
        states
    }

    fn transform(&self, rule: usize, _pool: &mut RegisterPool, _matched: &Vec<State>) -> (r: Result<
        (Assembly, Vec<State>),
        GenerateError,
    >) {
        if rule == 0 {
            let spmv_generator = spmv::Generator::new(
                self.matrix_format,
                spmv::Action::AssignNegUx,
                Direction::Forward,
                self.nrow_name,
                self.col_prefetch_info,
                self.col_preload_dist,
                self.ucol_name,
                self.val_prefetch_info,
                self.val_preload_dist,
                self.uval_name,
                self.x_preload_dist,
                self.x_name,
                self.tmp_name,
                self.cnt_name,
                self.loop_name,
                self.p_name,
                self.rowblock_size,
                self.nops_before_precomputing,
                self.store_to_tmp,
                self.move_reg,
                self.move_base,
            );
            let out = match spmv_generator.generate() {
                Ok(a) => a,
                Err(e) => {
                    return Err(e);
                },
            };
            let mut states: Vec<State> = Vec::new();
            states.push(State { id: RESTORING_P, idx: 0, reg: 0 });
            Ok((out, states))
        } else {
            let out = Assembly::new().move_reg(self.p_name, self.immutable_p_name);
            Ok((out, Vec::new()))
        }
    }
}

impl Generator {
    /// Runs the fixpoint driver over this generator's rulebook.
    pub fn generate(&self) -> (r: Result<Assembly, GenerateError>)
        ensures
            r matches Ok(out) ==> out@.wf() && spec_complete_run(
                self.spec_rulebook(),
                spec_insert_all(spec_empty_store(), self.spec_initial_states()),
                out@,
            ),
            self.spec_initial_states().len() == 0 ==> (r matches Ok(out) && out@
                == spec_empty_assembly()),
        decreases self.nesting(), 2nat,
    {
        let mut pool = RegisterPool::new(self.avail_registers());
        let seeds = self.initial_states();
        let ghost seed_store = spec_insert_all(spec_empty_store(), seeds@);
        proof {
            if self.spec_initial_states().len() == 0 {
                assert(seeds@ =~= Seq::<State>::empty());
                assert(seed_store == spec_empty_store());
                assert(spec_store_empty(seed_store));
            }
        }
        let mut mgr = match StateManager::new(seeds) {
            Ok(m) => m,
            Err(e) => {
                return Err(e);
            },
        };
        match drive(self, &mut pool, &mut mgr) {
            Ok(out) => {
                proof {
                    let trace = choose|trace: Seq<Firing>|
                        spec_run(self.spec_rulebook(), seed_store, trace, mgr@) && out@
                            == spec_run_output(trace);
                    assert(spec_run(self.spec_rulebook(), seed_store, trace, mgr@));
                    assert(out@ == spec_run_output(trace));
                }
                Ok(out)
            },
            Err(e) => Err(e),
        }
    }
}

} // verus!
