//! The forwarding phase of the symmetric Gauss-Seidel sweep: an optional
//! fixed-count pre-solve for the wavefront edge, the row counter reset, the
//! main forward triangular solve, and an optional fixed-count post-solve.

use vstd::prelude::*;

use crate::Assembly;
use crate::Condition;
use crate::Generate;
use crate::GenerateError;
use crate::PrefetchType;
use crate::RegisterPool;
use crate::Rule;
use crate::State;
use crate::StateManager;
use crate::drive;
use crate::Firing;
use crate::spec_complete_run;
use crate::spec_empty_assembly;
use crate::spec_empty_store;
use crate::spec_insert_all;
use crate::spec_run;
use crate::spec_store_empty;
use crate::spec_run_output;
use crate::microkernel::Direction;
use crate::sparse_matrix::SparseMatrixFormat;
use crate::sptrsv;

verus! {

pub const GENERATING_PRE_SPTRSV: u32 = 0;
pub const INITIALIZING_NROW: u32 = 1;
pub const GENERATING_SPTRSV: u32 = 2;
pub const GENERATING_POST_SPTRSV: u32 = 3;

pub struct Generator {
    matrix_format: SparseMatrixFormat,
    static_iter: u8,
    nrow_name: &'static str,
    immutable_nrow_name: &'static str,
    col_prefetch_info: Option<(PrefetchType, u16)>,
    col_preload_dist: u8,
    lcol_name: &'static str,
    val_prefetch_info: Option<(PrefetchType, u16)>,
    val_preload_dist: Option<u8>,
    lval_name: &'static str,
    x_preload_dist: u8,
    x_name: &'static str,
    immutable_x_name: &'static str,
    tmp_name: &'static str,
    cnt_name: &'static str,
    preforwarding_loop_name: &'static str,
    forwarding_loop_name: &'static str,
    postforwarding_loop_name: &'static str,
    p_name: &'static str,
    d_name: &'static str,
    r_name: &'static str,
    rowblock_size: u8,
    nops_before_preforwarding: u8,
    nops_before_forwarding: u8,
    nops_before_postforwarding: u8,
    store_to_tmp: bool,
    move_reg: bool,
    move_base: bool,
}

impl Generator {
    pub fn new(
        matrix_format: SparseMatrixFormat,
        static_iter: Option<u8>,
        nrow_name: &'static str,
        immutable_nrow_name: &'static str,
        col_prefetch_info: Option<(PrefetchType, u16)>,
        col_preload_dist: u8,
        lcol_name: &'static str,
        val_prefetch_info: Option<(PrefetchType, u16)>,
        val_preload_dist: Option<u8>,
        lval_name: &'static str,
        x_preload_dist: u8,
        x_name: &'static str,
        immutable_x_name: &'static str,
        tmp_name: &'static str,
        cnt_name: &'static str,
        preforwarding_loop_name: &'static str,
        forwarding_loop_name: &'static str,
        postforwarding_loop_name: &'static str,
        p_name: &'static str,
        d_name: &'static str,
        r_name: &'static str,
        rowblock_size: u8,
        nops_before_preforwarding: u8,
        nops_before_forwarding: u8,
        nops_before_postforwarding: u8,
        store_to_tmp: bool,
        move_reg: bool,
        move_base: bool,
    ) -> (r: Self)
        ensures
            r.wf(),
    {
        let static_iter = match static_iter {
            Some(s) => s,
            None => 0,
        };
        Generator {
            matrix_format,
            static_iter,
            nrow_name,
            immutable_nrow_name,
            col_prefetch_info,
            col_preload_dist,
            lcol_name,
            val_prefetch_info,
            val_preload_dist,
            lval_name,
            x_preload_dist,
            x_name,
            immutable_x_name,
            tmp_name,
            cnt_name,
            preforwarding_loop_name,
            forwarding_loop_name,
            postforwarding_loop_name,
            p_name,
            d_name,
            r_name,
            rowblock_size,
            nops_before_preforwarding,
            nops_before_forwarding,
            nops_before_postforwarding,
            store_to_tmp,
            move_reg,
            move_base,
        }
    }
}

impl Generator {
    /// The seed tokens: the optional wavefront pre-solve, the row counter
    /// reset, the main solve, and the optional post-solve.
    pub closed spec fn spec_initial_states(&self) -> Seq<State> {
        (if self.static_iter > 0 {
            seq![State { id: GENERATING_PRE_SPTRSV, idx: 0, reg: 0 }]
        } else {
            Seq::<State>::empty()
        }) + seq![
            State { id: INITIALIZING_NROW, idx: 0, reg: 0 },
            State { id: GENERATING_SPTRSV, idx: 0, reg: 0 },
        ] + (if self.static_iter > 0 {
            seq![State { id: GENERATING_POST_SPTRSV, idx: 0, reg: 0 }]
        } else {
            Seq::<State>::empty()
        })
    }
}

impl Generate for Generator {
    open spec fn nesting(&self) -> nat {
        2
    }

    open spec fn wf(&self) -> bool {
        true
    }

    open spec fn spec_rulebook(&self) -> Seq<Rule> {
        seq![
            Rule { condition: Condition::Single { id: GENERATING_PRE_SPTRSV } },
            Rule { condition: Condition::Single { id: INITIALIZING_NROW } },
            Rule { condition: Condition::Single { id: GENERATING_SPTRSV } },
            Rule { condition: Condition::Single { id: GENERATING_POST_SPTRSV } },
        ]
    }

    fn rulebook(&self) -> (r: Vec<Rule>) {
        let mut v: Vec<Rule> = Vec::new();
        v.push(Rule { condition: Condition::Single { id: GENERATING_PRE_SPTRSV } });
        v.push(Rule { condition: Condition::Single { id: INITIALIZING_NROW } });
        v.push(Rule { condition: Condition::Single { id: GENERATING_SPTRSV } });
        v.push(Rule { condition: Condition::Single { id: GENERATING_POST_SPTRSV } });
        proof {
            assert(v@ =~= self.spec_rulebook());
        }
        v
    }

    fn avail_registers(&self) -> (r: [bool; 32])
        ensures
            forall|i: int| 0 <= i < 32 ==> !r@[i],
    {
        [false;32]
    }

    fn initial_states(&self) -> (r: Vec<State>)
        ensures
            r@ == self.spec_initial_states(),
    {
        let mut states: Vec<State> = Vec::new();
        if self.static_iter > 0 {
            states.push(State { id: GENERATING_PRE_SPTRSV, idx: 0, reg: 0 });
        }
        states.push(State { id: INITIALIZING_NROW, idx: 0, reg: 0 });
        states.push(State { id: GENERATING_SPTRSV, idx: 0, reg: 0 });
        if self.static_iter > 0 {
            states.push(State { id: GENERATING_POST_SPTRSV, idx: 0, reg: 0 });
        }
        proof {
            assert(states@ =~= self.spec_initial_states());
        }
        states
    }

    fn transform(&self, rule: usize, _pool: &mut RegisterPool, _matched: &Vec<State>) -> (r: Result<
        (Assembly, Vec<State>),
        GenerateError,
    >) {
        if rule == 0 {
            let sptrsv_generator = sptrsv::Generator::new(
                self.matrix_format,
                Direction::Forward,
                Some(self.static_iter),
                self.nrow_name,
                0,
                None,
                self.col_preload_dist,
                self.lcol_name,
                0,
                None,
                self.val_preload_dist,
                self.lval_name,
                self.x_preload_dist,
                self.x_name,
                self.immutable_x_name,
                self.tmp_name,
                self.cnt_name,
                self.preforwarding_loop_name,
                self.p_name,
                self.d_name,
                self.r_name,
                1,
                self.nops_before_preforwarding,
                false,
                self.move_reg,
                self.move_base,
                false,
            );
            let out = match sptrsv_generator.generate() {
                Ok(a) => a,
                Err(e) => {
                    return Err(e);
                },
            };
            Ok((out.empty_line(), Vec::new()))
        } else if rule == 1 {
            let out_move = Assembly::new().move_reg(self.nrow_name, self.immutable_nrow_name);
            let out = if self.static_iter == 0 {
                out_move
            } else {
                out_move.sub_immediate(self.nrow_name, self.static_iter as i16 * 2)
            };
            Ok((out.empty_line(), Vec::new()))
        } else if rule == 2 {
            let skip_preload = self.static_iter > 1;
            let sptrsv_generator = sptrsv::Generator::new(
                self.matrix_format,
                Direction::Forward,
                None,
                self.nrow_name,
                0,
                self.col_prefetch_info,
                self.col_preload_dist,
                self.lcol_name,
                0,
                self.val_prefetch_info,
                self.val_preload_dist,
                self.lval_name,
                self.x_preload_dist,
                self.x_name,
                self.immutable_x_name,
                self.tmp_name,
                self.cnt_name,
                self.forwarding_loop_name,
                self.p_name,
                self.d_name,
                self.r_name,
                self.rowblock_size,
                self.nops_before_forwarding,
                self.store_to_tmp,
                self.move_reg,
                self.move_base,
                skip_preload,
            );
            let out = match sptrsv_generator.generate() {
                Ok(a) => a,
                Err(e) => {
                    return Err(e);
                },
            };
            Ok((out.empty_line(), Vec::new()))
        } else {
            let sptrsv_generator = sptrsv::Generator::new(
                self.matrix_format,
                Direction::Forward,
                Some(self.static_iter),
                self.nrow_name,
                0,
                None,
                self.col_preload_dist,
                self.lcol_name,
                0,
                None,
                self.val_preload_dist,
                self.lval_name,
                self.x_preload_dist,
                self.x_name,
                self.immutable_x_name,
                self.tmp_name,
                self.cnt_name,
                self.postforwarding_loop_name,
                self.p_name,
                self.d_name,
                self.r_name,
                1,
                self.nops_before_postforwarding,
                false,
                self.move_reg,
                self.move_base,
                true,
            );
            let out = match sptrsv_generator.generate() {
                Ok(a) => a,
                Err(e) => {
                    return Err(e);
                },
            };
            Ok((out, Vec::new()))
        }
    }
}

impl Generator {
    /// Runs the fixpoint driver over this generator's rulebook.
    pub fn generate(&self) -> (r: Result<Assembly, GenerateError>)
        ensures
            r matches Ok(out) ==> out@.wf() && spec_complete_run(
                self.spec_rulebook(),
                spec_insert_all(spec_empty_store(), self.spec_initial_states()),
                out@,
            ),
            self.spec_initial_states().len() == 0 ==> (r matches Ok(out) && out@
                == spec_empty_assembly()),
        decreases self.nesting(), 2nat,
    {
        let mut pool = RegisterPool::new(self.avail_registers());
        let seeds = self.initial_states();
        let ghost seed_store = spec_insert_all(spec_empty_store(), seeds@);
        proof {
            if self.spec_initial_states().len() == 0 {
                assert(seeds@ =~= Seq::<State>::empty());
                assert(seed_store == spec_empty_store());
                assert(spec_store_empty(seed_store));
            }
        }
        let mut mgr = match StateManager::new(seeds) {
            Ok(m) => m,
            Err(e) => {
                return Err(e);
            },
        };
        match drive(self, &mut pool, &mut mgr) {
            Ok(out) => {
                proof {
                    let trace = choose|trace: Seq<Firing>|
                        spec_run(self.spec_rulebook(), seed_store, trace, mgr@) && out@
                            == spec_run_output(trace);
                    assert(spec_run(self.spec_rulebook(), seed_store, trace, mgr@));
                    assert(out@ == spec_run_output(trace));
                }
                Ok(out)
            },
            Err(e) => Err(e),
        }
    }
}

} // verus!
