//! The reduction-tree generator: reduces a row-block of partial-sum
//! registers to scalar results through the stride-4, stride-2 and stride-1
//! combine levels and the narrowing folds, then stores or solves with the
//! result, depending on the action.

use vstd::prelude::*;

use crate::Assembly;
use crate::Condition;
use crate::Generate;
use crate::GenerateError;
use crate::RegisterPool;
use crate::Rule;
use crate::State;
use crate::StateManager;
use crate::drive;
use crate::Firing;
use crate::spec_complete_run;
use crate::spec_empty_assembly;
use crate::spec_empty_store;
use crate::spec_insert_all;
use crate::spec_run;
use crate::spec_store_empty;
use crate::spec_run_output;
use crate::fit_i16;
use crate::mul_small;
use crate::sparse_matrix::DiagonalStatus;

verus! {

pub const INITIALIZING_MASK: u32 = 0;
pub const LOADING: u32 = 1;
pub const LV0_F64X8: u32 = 2;
pub const LV1_F64X8: u32 = 3;
pub const LV2_F64X8: u32 = 4;
pub const LV3_F64X8: u32 = 5;
pub const LV1_F64X4: u32 = 6;
pub const LV2_F64X4: u32 = 7;
pub const LV3_F64X4: u32 = 8;
pub const LV2_F64X2: u32 = 9;
pub const LV3_F64X2: u32 = 10;
pub const LV3_F64X1: u32 = 11;
pub const FINALIZING: u32 = 12;

/// What to do with each fully-reduced row-block result.
#[derive(Clone, Copy, PartialEq, Eq, Structural, Debug)]
pub enum Action {
    /// Store the result.
    Move,
    /// One forward triangular-solve step.
    TrsvForward,
    /// One backward triangular-solve step.
    TrsvBackward,
}

pub struct Generator {
    dst_name: &'static str,
    general_reg_name: &'static str,
    res_reg_se: (u8, u8),
    load_from_tmp: bool,
    tmp_offset: Option<i16>,
    tmp_name: &'static str,
    r_name: &'static str,
    p_name: &'static str,
    d_name: &'static str,
    action: Action,
    rowblock_size: u8,
    avail_registers_except_res: [bool; 32],
    diag_status: DiagonalStatus,
    reversed_res: bool,
    init_mask: bool,
}

impl Generator {
    /// Builds a reduction-tree generator.  Only row-block widths with a
    /// complete reduction path (1 and 8) are accepted; intermediate widths
    /// are rejected here, at configuration time.
    pub fn new(
        dst_name: &'static str,
        general_reg_name: &'static str,
        res_reg_se: (u8, u8),
        load_from_tmp: bool,
        tmp_offset: u16,
        tmp_name: &'static str,
        r_name: &'static str,
        p_name: &'static str,
        d_name: &'static str,
        action: Action,
        rowblock_size: u8,
        avail_registers: [bool; 32],
        diag_status: DiagonalStatus,
    ) -> (r: Result<Self, GenerateError>)
        ensures
            r is Err <==> !((rowblock_size == 1 || rowblock_size == 8) && (load_from_tmp
                ==> tmp_offset <= 32767)),
            r matches Err(e) ==> e == GenerateError::UnsupportedConfiguration,
            r matches Ok(g) ==> g.wf(),
    {
        let tmp_offset = if load_from_tmp {
            if tmp_offset > 32767 {
                return Err(GenerateError::UnsupportedConfiguration);
            }
            Some(tmp_offset as i16)
        } else {
            None
        };
        let reversed_res = match action {
            Action::Move | Action::TrsvForward => false,
            Action::TrsvBackward => true,
        };
        let init_mask = match rowblock_size {
            1 => false,
            8 => true,
            _ => {
                return Err(GenerateError::UnsupportedConfiguration);
            },
        };
        Ok(
            Generator {
                dst_name,
                general_reg_name,
                res_reg_se,
                load_from_tmp,
                tmp_offset,
                tmp_name,
                r_name,
                p_name,
                d_name,
                action,
                rowblock_size,
                avail_registers_except_res: avail_registers,
                diag_status,
                reversed_res,
                init_mask,
            },
        )
    }

    fn diag_reciprocal(&self) -> (r: Result<bool, GenerateError>) {
        match self.diag_status {
            DiagonalStatus::Default => Err(GenerateError::UnsupportedConfiguration),
            DiagonalStatus::Excluded => Ok(false),
            DiagonalStatus::ExcludedReciprocal => Ok(true),
        }
    }
}

impl Generator {
    /// The caller-supplied availability mask, with the accumulator range
    /// still reserved.
    pub closed spec fn spec_avail_registers(&self) -> Seq<bool> {
        self.avail_registers_except_res@
    }

    /// How many row-block seeds are laid out (the lane bound caps the
    /// count).
    pub closed spec fn spec_seed_count(&self) -> int {
        if self.rowblock_size < 32 {
            self.rowblock_size as int
        } else {
            32
        }
    }

    /// The `i`-th row-block seed: a partial sum already in an accumulator
    /// register, or a pending reload from the staging buffer; lanes run
    /// backward for the backward solve.
    pub closed spec fn spec_seed(&self, i: int) -> State {
        let n = self.spec_seed_count();
        State {
            id: if !self.load_from_tmp || i >= n - 1 {
                LV0_F64X8
            } else {
                LOADING
            },
            idx: if !self.reversed_res {
                i as u8
            } else {
                (n - i - 1) as u8
            },
            reg: if !self.load_from_tmp {
                ((self.res_reg_se.0 + i) % 256) as u8
            } else if i < n - 1 {
                0
            } else if self.res_reg_se.1 > 0 {
                (self.res_reg_se.1 - 1) as u8
            } else {
                0
            },
        }
    }

    /// The seed tokens: the optional mask setup, then one token per
    /// row-block lane.
    pub closed spec fn spec_initial_states(&self) -> Seq<State> {
        (if self.init_mask {
            seq![State { id: INITIALIZING_MASK, idx: 0, reg: 0 }]
        } else {
            Seq::<State>::empty()
        }) + Seq::new(self.spec_seed_count() as nat, |i: int| self.spec_seed(i))
    }
}

impl Generate for Generator {
    open spec fn nesting(&self) -> nat {
        0
    }

    open spec fn wf(&self) -> bool {
        true
    }

    open spec fn spec_rulebook(&self) -> Seq<Rule> {
        seq![
            Rule { condition: Condition::Single { id: INITIALIZING_MASK } },
            Rule { condition: Condition::Single { id: LOADING } },
            Rule { condition: Condition::SameId { id: LV0_F64X8, n_states: 2, idx_dist: 4 } },
            Rule { condition: Condition::SameId { id: LV0_F64X8, n_states: 2, idx_dist: 1 } },
            Rule { condition: Condition::SameId { id: LV0_F64X8, n_states: 2, idx_dist: 2 } },
            Rule { condition: Condition::Single { id: LV0_F64X8 } },
            Rule { condition: Condition::SameId { id: LV1_F64X8, n_states: 2, idx_dist: 2 } },
            Rule { condition: Condition::SameId { id: LV1_F64X8, n_states: 2, idx_dist: 1 } },
            Rule { condition: Condition::Single { id: LV1_F64X8 } },
            Rule { condition: Condition::Single { id: LV1_F64X4 } },
            Rule { condition: Condition::SameId { id: LV2_F64X8, n_states: 2, idx_dist: 1 } },
            Rule { condition: Condition::Single { id: LV2_F64X8 } },
            Rule { condition: Condition::Single { id: LV2_F64X4 } },
            Rule { condition: Condition::Single { id: LV2_F64X2 } },
            Rule { condition: Condition::Single { id: LV3_F64X8 } },
            Rule { condition: Condition::Single { id: LV3_F64X4 } },
            Rule { condition: Condition::Single { id: LV3_F64X2 } },
            Rule { condition: Condition::Single { id: LV3_F64X1 } },
            Rule { condition: Condition::Single { id: FINALIZING } },
        ]
    }

    fn rulebook(&self) -> (r: Vec<Rule>) {
        let mut v: Vec<Rule> = Vec::new();
        v.push(Rule { condition: Condition::Single { id: INITIALIZING_MASK } });
        v.push(Rule { condition: Condition::Single { id: LOADING } });
        v.push(Rule { condition: Condition::SameId { id: LV0_F64X8, n_states: 2, idx_dist: 4 } });
        v.push(Rule { condition: Condition::SameId { id: LV0_F64X8, n_states: 2, idx_dist: 1 } });
        v.push(Rule { condition: Condition::SameId { id: LV0_F64X8, n_states: 2, idx_dist: 2 } });
        v.push(Rule { condition: Condition::Single { id: LV0_F64X8 } });
        v.push(Rule { condition: Condition::SameId { id: LV1_F64X8, n_states: 2, idx_dist: 2 } });
        v.push(Rule { condition: Condition::SameId { id: LV1_F64X8, n_states: 2, idx_dist: 1 } });
        v.push(Rule { condition: Condition::Single { id: LV1_F64X8 } });
        v.push(Rule { condition: Condition::Single { id: LV1_F64X4 } });
        v.push(Rule { condition: Condition::SameId { id: LV2_F64X8, n_states: 2, idx_dist: 1 } });
        v.push(Rule { condition: Condition::Single { id: LV2_F64X8 } });
        v.push(Rule { condition: Condition::Single { id: LV2_F64X4 } });
        v.push(Rule { condition: Condition::Single { id: LV2_F64X2 } });
        v.push(Rule { condition: Condition::Single { id: LV3_F64X8 } });
        v.push(Rule { condition: Condition::Single { id: LV3_F64X4 } });
        v.push(Rule { condition: Condition::Single { id: LV3_F64X2 } });
        v.push(Rule { condition: Condition::Single { id: LV3_F64X1 } });
        v.push(Rule { condition: Condition::Single { id: FINALIZING } });
        proof {
            assert(v@ =~= self.spec_rulebook());
        }
        v
    }

    fn avail_registers(&self) -> (r: [bool; 32])
        ensures
            r@ == self.spec_avail_registers(),
    {
        self.avail_registers_except_res
    }

    fn initial_states(&self) -> (r: Vec<State>)
        ensures
            r@ == self.spec_initial_states(),
    {
        let mut states: Vec<State> = Vec::new();
        if self.init_mask {
            states.push(State { id: INITIALIZING_MASK, idx: 0, reg: 0 });
        }
        let ghost prefix = states@;
        let n = if self.rowblock_size < 32 {
            self.rowblock_size
        } else {
            32
        };
        let mut i: u8 = 0;
        while i < n
            invariant
                i <= n,
                n <= 32,
                n as int == self.spec_seed_count(),
                states@ =~= prefix + Seq::new(i as nat, |k: int| self.spec_seed(k)),
            decreases n - i,
        {
            let (id, reg): (u32, u8) = if !self.load_from_tmp {
                (LV0_F64X8, ((self.res_reg_se.0 as u32 + i as u32) % 256) as u8)
            } else if i < n - 1 {
                (LOADING, 0)
            } else {
                (LV0_F64X8, if self.res_reg_se.1 > 0 {
                    self.res_reg_se.1 - 1
                } else {
                    0
                })
            };
            let idx = if !self.reversed_res {
                i
            } else {
                n - i - 1
            };
            states.push(State { id, idx, reg });
            proof {
                assert(State { id, idx, reg } == self.spec_seed(i as int));
                assert(states@ =~= prefix + Seq::new((i + 1) as nat, |k: int| self.spec_seed(k)));
            }
            i += 1;
        }
        proof {
            assert(states@ =~= self.spec_initial_states());
        }
        states
    }

    fn transform(&self, rule: usize, pool: &mut RegisterPool, matched: &Vec<State>) -> (r: Result<
        (Assembly, Vec<State>),
        GenerateError,
    >) {
        if rule == 0 {
            let out = Assembly::new().init_mix2mask(self.general_reg_name, 1, 2);
            Ok((out, Vec::new()))
        } else if rule == 1 {
            // Reload one staged partial sum from memory.
            let idx = matched[0].idx;
            let reg = match pool.try_get() {
                Some(rg) => rg,
                None => {
                    return Err(GenerateError::RegisterOverflow);
                },
            };
            let tmp_offset = match self.tmp_offset {
                Some(t) => t,
                None => {
                    return Err(GenerateError::UnsupportedConfiguration);
                },
            };
            let slot: u32 = if !self.reversed_res {
                idx as u32
            } else {
                if idx as u32 >= self.rowblock_size as u32 {
                    return Err(GenerateError::UnsupportedConfiguration);
                }
                self.rowblock_size as u32 - idx as u32 - 1
            };
            if tmp_offset < 0 {
                return Err(GenerateError::UnsupportedConfiguration);
            }
            let base = match fit_i16(mul_small(slot, tmp_offset as u16)) {
                Ok(b) => b,
                Err(e) => {
                    return Err(e);
                },
            };
            let out = Assembly::new().load_f64x8(reg, self.tmp_name, base);
            let mut states: Vec<State> = Vec::new();
            states.push(State { id: LV0_F64X8, idx, reg });
            Ok((out, states))
        } else if rule == 2 || rule == 3 || rule == 4 {
            // Stride-4, stride-1 or stride-2 pairing of 512-bit partials.
            let idx = matched[0].idx;
            let reg0 = matched[0].reg;
            let reg1 = matched[1].reg;
            let reg2 = match pool.try_get() {
                Some(rg) => rg,
                None => {
                    return Err(GenerateError::RegisterOverflow);
                },
            };
            pool.free(reg0);
            pool.free(reg1);
            let out = Assembly::new().mix4add_f64x8(reg2, reg0, reg1);
            let mut states: Vec<State> = Vec::new();
            states.push(State { id: LV1_F64X8, idx, reg: reg2 });
            Ok((out, states))
        } else if rule == 5 {
            let zmm_src = matched[0].reg;
            let ymm_dst = match pool.try_get() {
                Some(rg) => rg,
                None => {
                    return Err(GenerateError::RegisterOverflow);
                },
            };
            pool.free(zmm_src);
            if ymm_dst == zmm_src {
                return Err(GenerateError::UnsupportedConfiguration);
            }
            let out = Assembly::new().fold4add_f64x8(ymm_dst, zmm_src);
            let mut states: Vec<State> = Vec::new();
            states.push(State { id: LV1_F64X4, idx: 0, reg: ymm_dst });
            Ok((out, states))
        } else if rule == 6 || rule == 7 {
            let idx = matched[0].idx;
            let reg0 = matched[0].reg;
            let reg1 = matched[1].reg;
            let reg2 = match pool.try_get() {
                Some(rg) => rg,
                None => {
                    return Err(GenerateError::RegisterOverflow);
                },
            };
            pool.free(reg0);
            pool.free(reg1);
            let out = Assembly::new().mix2add_f64x8(reg2, reg0, reg1, 1, 2);
            let mut states: Vec<State> = Vec::new();
            states.push(State { id: LV2_F64X8, idx, reg: reg2 });
            Ok((out, states))
        } else if rule == 8 {
            // A lone 512-bit level-1 partial has no implemented reduction.
            Err(GenerateError::UnsupportedConfiguration)
        } else if rule == 9 {
            let ymm_src = matched[0].reg;
            let xmm_dst = match pool.try_get() {
                Some(rg) => rg,
                None => {
                    return Err(GenerateError::RegisterOverflow);
                },
            };
            pool.free(ymm_src);
            if xmm_dst == ymm_src {
                return Err(GenerateError::UnsupportedConfiguration);
            }
            let out = Assembly::new().fold2add_f64x4(xmm_dst, ymm_src);
            let mut states: Vec<State> = Vec::new();
            states.push(State { id: LV2_F64X2, idx: 0, reg: xmm_dst });
            Ok((out, states))
        } else if rule == 10 {
            let idx = matched[0].idx;
            let reg0 = matched[0].reg;
            let reg1 = matched[1].reg;
            let reg2 = match pool.try_get() {
                Some(rg) => rg,
                None => {
                    return Err(GenerateError::RegisterOverflow);
                },
            };
            pool.free(reg0);
            pool.free(reg1);
            let out = Assembly::new().mix1add_f64x8(reg2, reg0, reg1);
            let mut states: Vec<State> = Vec::new();
            states.push(State { id: LV3_F64X8, idx, reg: reg2 });
            Ok((out, states))
        } else if rule == 11 || rule == 12 {
            // Reduction levels for row-block widths 2 and 4 are not
            // implemented; those widths are rejected at configuration time.
            Err(GenerateError::UnsupportedConfiguration)
        } else if rule == 13 {
            let xmm = matched[0].reg;
            let out = Assembly::new().fold1add_f64x2(xmm, xmm);
            let mut states: Vec<State> = Vec::new();
            states.push(State { id: LV3_F64X1, idx: 0, reg: xmm });
            Ok((out, states))
        } else if rule == 14 {
            // One 512-bit result: store it, or drive one solve step.
            let zmm_res = matched[0].reg;
            let out = match self.action {
                Action::Move => Assembly::new().store_f64x8(self.dst_name, 0x00, zmm_res),
                Action::TrsvForward => {
                    let zmm_tmp = match pool.try_get() {
                        Some(rg) => rg,
                        None => {
                            return Err(GenerateError::RegisterOverflow);
                        },
                    };
                    let zmm_d = match pool.try_get() {
                        Some(rg) => rg,
                        None => {
                            pool.free(zmm_tmp);
                            return Err(GenerateError::RegisterOverflow);
                        },
                    };
                    pool.free(zmm_tmp);
                    pool.free(zmm_d);
                    let recip = match self.diag_reciprocal() {
                        Ok(b) => b,
                        Err(e) => {
                            return Err(e);
                        },
                    };
                    let out_load_d = if recip {
                        Assembly::new().load_f64x8(zmm_d, self.d_name, 0x0)
                    } else {
                        Assembly::new()
                    };
                    let out_add = Assembly::new().loadadd_f64x8(
                        zmm_res,
                        zmm_res,
                        self.r_name,
                        0x0,
                    ).move_f64x8(zmm_tmp, zmm_res).loadadd_f64x8(zmm_res, zmm_res, self.p_name, 0x0);
                    let out_diag = if recip {
                        Assembly::new().loadmuladd_f64x8(zmm_res, zmm_d, self.dst_name, 0x0)
                    } else {
                        Assembly::new().loaddiv_f64x8(zmm_res, zmm_res, self.d_name, 0x0)
                            .loadadd_f64x8(zmm_res, zmm_res, self.dst_name, 0x0)
                    };
                    let out_store = Assembly::new().store_f64x8(self.dst_name, 0x0, zmm_res)
                        .store_f64x8(self.p_name, 0x0, zmm_tmp);
                    out_load_d.append(out_add).append(out_diag).append(out_store)
                },
                Action::TrsvBackward => {
                    let recip = match self.diag_reciprocal() {
                        Ok(b) => b,
                        Err(e) => {
                            return Err(e);
                        },
                    };
                    let out_add = Assembly::new().loadadd_f64x8(zmm_res, zmm_res, self.p_name, 0x0);
                    let out_diag = if recip {
                        Assembly::new().loadmul_f64x8(zmm_res, zmm_res, self.d_name, 0x0)
                    } else {
                        Assembly::new().loaddiv_f64x8(zmm_res, zmm_res, self.d_name, 0x0)
                    };
                    let out_store = Assembly::new().store_f64x8(self.dst_name, 0x0, zmm_res);
                    out_add.append(out_diag).append(out_store)
                },
            };
            pool.free(zmm_res);
            let mut states: Vec<State> = Vec::new();
            states.push(State { id: FINALIZING, idx: 0, reg: 0 });
            Ok((out, states))
        } else if rule == 15 || rule == 16 {
            Err(GenerateError::UnsupportedConfiguration)
        } else if rule == 17 {
            // One scalar result: store it, or drive one solve step.
            let xmm_res = matched[0].reg;
            let out = match self.action {
                Action::Move => Assembly::new().store_f64x1(self.dst_name, 0x0, xmm_res),
                Action::TrsvForward => {
                    let xmm_tmp = match pool.try_get() {
                        Some(rg) => rg,
                        None => {
                            return Err(GenerateError::RegisterOverflow);
                        },
                    };
                    let xmm_d = match pool.try_get() {
                        Some(rg) => rg,
                        None => {
                            pool.free(xmm_tmp);
                            return Err(GenerateError::RegisterOverflow);
                        },
                    };
                    pool.free(xmm_tmp);
                    pool.free(xmm_d);
                    let recip = match self.diag_reciprocal() {
                        Ok(b) => b,
                        Err(e) => {
                            return Err(e);
                        },
                    };
                    let out_load_d = if recip {
                        Assembly::new().load_f64x1(xmm_d, self.d_name, 0x0)
                    } else {
                        Assembly::new()
                    };
                    let out_add = Assembly::new().loadadd_f64x1(
                        xmm_res,
                        xmm_res,
                        self.r_name,
                        0x0,
                    ).move_f64x2(xmm_tmp, xmm_res).loadadd_f64x1(xmm_res, xmm_res, self.p_name, 0x0);
                    let out_diag = if recip {
                        Assembly::new().loadmuladd_f64x1(xmm_res, xmm_d, self.dst_name, 0x0)
                    } else {
                        Assembly::new().loaddiv_f64x1(xmm_res, xmm_res, self.d_name, 0x0)
                            .loadadd_f64x1(xmm_res, xmm_res, self.dst_name, 0x0)
                    };
                    let out_store = Assembly::new().store_f64x1(self.dst_name, 0x0, xmm_res)
                        .store_f64x1(self.p_name, 0x0, xmm_tmp);
                    out_load_d.append(out_add).append(out_diag).append(out_store)
                },
                Action::TrsvBackward => {
                    let recip = match self.diag_reciprocal() {
                        Ok(b) => b,
                        Err(e) => {
                            return Err(e);
                        },
                    };
                    let out_add = Assembly::new().loadadd_f64x1(xmm_res, xmm_res, self.p_name, 0x0);
                    let out_diag = if recip {
                        Assembly::new().loadmul_f64x1(xmm_res, xmm_res, self.d_name, 0x0)
                    } else {
                        Assembly::new().loaddiv_f64x1(xmm_res, xmm_res, self.d_name, 0x0)
                    };
                    let out_store = Assembly::new().store_f64x1(self.dst_name, 0x0, xmm_res);
                    out_add.append(out_diag).append(out_store)
                },
            };
            pool.free(xmm_res);
            let mut states: Vec<State> = Vec::new();
            states.push(State { id: FINALIZING, idx: 0, reg: 0 });
            Ok((out, states))
        } else {
            // Re-reserve the accumulator range so the pool returns to its
            // caller-supplied state.
            let mut i = self.res_reg_se.0;
            while i < self.res_reg_se.1
                invariant
                    true,
                decreases self.res_reg_se.1 - i,
            {
                if i >= 32 || !pool.avail_list()[i as usize] {
                    return Err(GenerateError::UnsupportedConfiguration);
                }
                pool.allocate(i);
                i += 1;
            }
            Ok((Assembly::new(), Vec::new()))
        }
    }
}

impl Generator {
    /// Runs the fixpoint driver over this generator's rulebook.
    pub fn generate(&self) -> (r: Result<Assembly, GenerateError>)
        ensures
            r matches Ok(out) ==> out@.wf() && spec_complete_run(
                self.spec_rulebook(),
                spec_insert_all(spec_empty_store(), self.spec_initial_states()),
                out@,
            ),
            self.spec_initial_states().len() == 0 ==> (r matches Ok(out) && out@
                == spec_empty_assembly()),
        decreases self.nesting(), 2nat,
    {
        let mut pool = RegisterPool::new(self.avail_registers());
        let seeds = self.initial_states();
        let ghost seed_store = spec_insert_all(spec_empty_store(), seeds@);
        proof {
            if self.spec_initial_states().len() == 0 {
                assert(seeds@ =~= Seq::<State>::empty());
                assert(seed_store == spec_empty_store());
                assert(spec_store_empty(seed_store));
            }
        }
        let mut mgr = match StateManager::new(seeds) {
            Ok(m) => m,
            Err(e) => {
                return Err(e);
            },
        };
        match drive(self, &mut pool, &mut mgr) {
            Ok(out) => {
                proof {
                    let trace = choose|trace: Seq<Firing>|
                        spec_run(self.spec_rulebook(), seed_store, trace, mgr@) && out@
                            == spec_run_output(trace);
                    assert(spec_run(self.spec_rulebook(), seed_store, trace, mgr@));
                    assert(out@ == spec_run_output(trace));
                }
                Ok(out)
            },
            Err(e) => Err(e),
        }
    }
}

} // verus!
