//! The kernel body: one unrolled iteration of column load, gathered
//! operand load, value load and multiply-accumulate, with optional
//! prefetching, staging to memory and register rotation.

use vstd::prelude::*;

use crate::Assembly;
use crate::Condition;
use crate::Generate;
use crate::GenerateError;
use crate::PrefetchType;
use crate::RegisterPool;
use crate::Rule;
use crate::State;
use crate::StateManager;
use crate::drive;
use crate::Firing;
use crate::spec_complete_run;
use crate::spec_empty_assembly;
use crate::spec_empty_store;
use crate::spec_insert_all;
use crate::spec_run;
use crate::spec_store_empty;
use crate::spec_run_output;
use crate::fit_i16;
use crate::mul_small;
use crate::mul_u8;
use crate::microkernel::Direction;

verus! {

pub const PREMOVING_BASE_CV: u32 = 0;
pub const MOVING_RES: u32 = 1;
pub const LOADING_VAL: u32 = 2;
pub const VAL_LOADED: u32 = 3;
pub const LOADING_COL: u32 = 4;
pub const LOADING_X: u32 = 5;
pub const X_LOADED: u32 = 6;
pub const MULTIPLYING: u32 = 7;
pub const INITIALIZING_MASK: u32 = 8;
pub const MASK_SET: u32 = 9;
pub const MULTIPLIED: u32 = 10;
pub const STORING_RES: u32 = 11;
pub const POSTMOVING_BASE_CV: u32 = 12;
pub const MOVING_BASE_TMP: u32 = 13;
pub const MOVING_CVX: u32 = 14;
pub const PREFETCHING_COL: u32 = 15;
pub const PREFETCHING_VAL: u32 = 16;

enum MultiplicationType {
    Mul,
    MulAdd,
    NMulSub,
}

pub struct Generator {
    negate: bool,
    col_stride: u16,
    col_offset: u16,
    col_prefetch_info: Option<(PrefetchType, u16)>,
    col_reg_ls: (u8, u8),
    col_name: &'static str,
    val_stride: u16,
    val_offset: u16,
    val_prefetch_info: Option<(PrefetchType, u16)>,
    val_reg_ls: Option<(u8, u8)>,
    val_name: &'static str,
    x_reg_ls: (u8, u8),
    x_name: &'static str,
    res_reg_se: (u8, u8),
    tmp_offset: u16,
    tmp_name: &'static str,
    kernel_idx: u8,
    n_kernels_unrolled: u8,
    direction: Direction,
    blocks_per_row: u8,
    store_to_tmp: bool,
    move_reg: bool,
    move_base: bool,
}

impl Generator {
    pub fn new(
        negate: bool,
        col_stride: u16,
        col_offset: u16,
        col_prefetch_info: Option<(PrefetchType, u16)>,
        col_reg_ls: (u8, u8),
        col_name: &'static str,
        val_stride: u16,
        val_offset: u16,
        val_prefetch_info: Option<(PrefetchType, u16)>,
        val_reg_ls: Option<(u8, u8)>,
        val_name: &'static str,
        x_reg_ls: (u8, u8),
        x_name: &'static str,
        res_reg_se: (u8, u8),
        tmp_offset: u16,
        tmp_name: &'static str,
        kernel_idx: u8,
        n_kernels_unrolled: u8,
        direction: Direction,
        blocks_per_row: u8,
        store_to_tmp: bool,
        move_reg: bool,
        move_base: bool,
    ) -> (r: Self)
        ensures
            r.wf(),
    {
        Generator {
            negate,
            col_stride,
            col_offset,
            col_prefetch_info,
            col_reg_ls,
            col_name,
            val_stride,
            val_offset,
            val_prefetch_info,
            val_reg_ls,
            val_name,
            x_reg_ls,
            x_name,
            res_reg_se,
            tmp_offset,
            tmp_name,
            kernel_idx,
            n_kernels_unrolled,
            direction,
            blocks_per_row,
            store_to_tmp,
            move_reg,
            move_base,
        }
    }

    /// The block position within the whole unrolled row block, before
    /// direction adjustment.
    pub closed spec fn spec_global_idx(&self, idx: int) -> int {
        if self.move_base {
            idx
        } else {
            self.kernel_idx as int * self.blocks_per_row as int + idx
        }
    }

    /// The total number of blocks across the unrolled kernels.
    pub closed spec fn spec_total_blocks(&self) -> int {
        self.n_kernels_unrolled as int * self.blocks_per_row as int
    }

    /// The direction-adjusted block position.
    pub closed spec fn spec_real_idx(&self, idx: int) -> int {
        match self.direction {
            Direction::Forward => self.spec_global_idx(idx),
            Direction::Backward => self.spec_total_blocks() - self.spec_global_idx(idx) - 1,
        }
    }

    /// The row and block position of block `idx` of this unrolled kernel,
    /// adjusted for traversal direction.
    fn rb_idx(&self, idx: u8) -> (r: Result<(u32, u32), GenerateError>)
        ensures
            r is Err <==> (self.blocks_per_row == 0 || (self.direction == Direction::Backward
                && self.spec_global_idx(idx as int) >= self.spec_total_blocks())),
            r matches Ok(p) ==> 0 <= self.spec_real_idx(idx as int) && p.0
                == self.spec_real_idx(idx as int) / self.blocks_per_row as int && p.1
                == self.spec_real_idx(idx as int) % self.blocks_per_row as int,
    {
        if self.blocks_per_row == 0 {
            return Err(GenerateError::UnsupportedConfiguration);
        }
        let global_idx: u32 = if self.move_base {
            idx as u32
        } else {
            mul_u8(self.kernel_idx, self.blocks_per_row) + idx as u32
        };
        let real_idx: u32 = match self.direction {
            Direction::Forward => global_idx,
            Direction::Backward => {
                let total = mul_u8(self.n_kernels_unrolled, self.blocks_per_row);
                if global_idx >= total {
                    return Err(GenerateError::UnsupportedConfiguration);
                }
                total - global_idx - 1
            },
        };
        Ok((real_idx / self.blocks_per_row as u32, real_idx % self.blocks_per_row as u32))
    }

    fn col_prefetch(&self, idx: u8) -> (r: Result<Option<(PrefetchType, i16)>, GenerateError>)
        ensures
            r matches Ok(o) ==> match o {
                None => self.col_prefetch_info is None,
                Some(p) => self.col_prefetch_info matches Some(info) && p.0 == info.0 && p.1 as int
                    == (match self.direction {
                    Direction::Forward => info.1 as int + idx as int * self.col_offset as int,
                    Direction::Backward => -(info.1 as int + idx as int
                        * self.col_offset as int),
                }),
            },
    {
        match self.col_prefetch_info {
            None => Ok(None),
            Some((pt, dist)) => {
                let d: i32 = dist as i32 + mul_small(idx as u32, self.col_offset);
                let signed: i32 = match self.direction {
                    Direction::Forward => d,
                    Direction::Backward => -d,
                };
                match fit_i16(signed) {
                    Ok(v) => Ok(Some((pt, v))),
                    Err(e) => Err(e),
                }
            },
        }
    }

    fn val_prefetch(&self, idx: u8) -> (r: Result<Option<(PrefetchType, i16)>, GenerateError>)
        ensures
            r matches Ok(o) ==> match o {
                None => self.val_prefetch_info is None,
                Some(p) => self.val_prefetch_info matches Some(info) && p.0 == info.0 && p.1 as int
                    == (match self.direction {
                    Direction::Forward => info.1 as int + idx as int * self.val_offset as int,
                    Direction::Backward => -(info.1 as int + idx as int
                        * self.val_offset as int),
                }),
            },
    {
        match self.val_prefetch_info {
            None => Ok(None),
            Some((pt, dist)) => {
                let d: i32 = dist as i32 + mul_small(idx as u32, self.val_offset);
                let signed: i32 = match self.direction {
                    Direction::Forward => d,
                    Direction::Backward => -d,
                };
                match fit_i16(signed) {
                    Ok(v) => Ok(Some((pt, v))),
                    Err(e) => Err(e),
                }
            },
        }
    }

    /// How far the column base pointer advances per kernel body, when it
    /// moves inside the body at all.
    fn col_move_base(&self) -> (r: Result<i16, GenerateError>) {
        if !self.move_base {
            Ok(0)
        } else {
            let moved: i32 = self.col_stride as i32;
            match self.direction {
                Direction::Forward => fit_i16(moved),
                Direction::Backward => fit_i16(-moved),
            }
        }
    }

    /// As `col_move_base`, for the value stream.
    fn val_move_base(&self) -> (r: Result<i16, GenerateError>) {
        if !self.move_base {
            Ok(0)
        } else {
            let moved: i32 = self.val_stride as i32;
            match self.direction {
                Direction::Forward => fit_i16(moved),
                Direction::Backward => fit_i16(-moved),
            }
        }
    }

    fn res_reg(&self) -> (r: u8) {
        if self.store_to_tmp {
            self.res_reg_se.0
        } else if self.move_reg {
            if self.res_reg_se.1 > 0 {
                self.res_reg_se.1 - 1
            } else {
                0
            }
        } else {
            ((self.res_reg_se.0 as u32 + self.kernel_idx as u32) % 256) as u8
        }
    }

    fn col_base(&self, idx: u8) -> (r: Result<i16, GenerateError>)
        ensures
            r matches Ok(v) ==> self.blocks_per_row > 0 && 0 <= self.spec_real_idx(idx as int)
                && v as int == (self.spec_real_idx(idx as int) / self.blocks_per_row as int)
                * self.col_stride as int + (self.spec_real_idx(idx as int)
                % self.blocks_per_row as int) * self.col_offset as int,
    {
        let (row_idx, block_idx) = match self.rb_idx(idx) {
            Ok(p) => p,
            Err(e) => {
                return Err(e);
            },
        };
        if row_idx > 255 || block_idx > 255 {
            return Err(GenerateError::UnsupportedConfiguration);
        }
        fit_i16(mul_small(row_idx, self.col_stride) + mul_small(block_idx, self.col_offset))
    }

    fn val_base(&self, idx: u8) -> (r: Result<i16, GenerateError>)
        ensures
            r matches Ok(v) ==> self.blocks_per_row > 0 && 0 <= self.spec_real_idx(idx as int)
                && v as int == (self.spec_real_idx(idx as int) / self.blocks_per_row as int)
                * self.val_stride as int + (self.spec_real_idx(idx as int)
                % self.blocks_per_row as int) * self.val_offset as int,
    {
        let (row_idx, block_idx) = match self.rb_idx(idx) {
            Ok(p) => p,
            Err(e) => {
                return Err(e);
            },
        };
        if row_idx > 255 || block_idx > 255 {
            return Err(GenerateError::UnsupportedConfiguration);
        }
        fit_i16(mul_small(row_idx, self.val_stride) + mul_small(block_idx, self.val_offset))
    }

    fn multiplication_type(&self, idx: u8) -> (r: MultiplicationType) {
        if idx == 0 {
            MultiplicationType::Mul
        } else if (self.blocks_per_row > 0 && idx < self.blocks_per_row - 1) || !self.negate {
            MultiplicationType::MulAdd
        } else {
            MultiplicationType::NMulSub
        }
    }

    /// Emits register-rotation moves `to <- to + step` over a register
    /// range; used by the preload-rotation rules.
    fn emit_moves(out: Assembly, reg_s: u8, reg_e: u8, step: u8) -> (r: Result<
        Assembly,
        GenerateError,
    >)
        requires
            out@.wf(),
        ensures
            r matches Ok(a) ==> a@.wf(),
    {
        let mut acc = out;
        let mut reg: u8 = reg_s;
        while reg < reg_e
            invariant
                acc@.wf(),
            decreases reg_e - reg,
        {
            if reg >= 32 {
                return Err(GenerateError::RegisterOverflow);
            }
            let from: u32 = reg as u32 + step as u32;
            acc = acc.move_f64x8(reg, (from % 256) as u8);
            reg += 1;
        }
        Ok(acc)
    }
}

impl Generator {
    /// The per-body block count, capped at the lane bound.
    pub closed spec fn spec_bpr(&self) -> int {
        if self.blocks_per_row < 32 {
            self.blocks_per_row as int
        } else {
            32
        }
    }

    /// The seed tokens of one kernel body: base rewind and accumulator
    /// rotation, then per block the value load, mask setup and column
    /// load, the optional prefetches (column prefetches only on even
    /// blocks), the optional staging store, and the base advances and
    /// register rotation.
    pub closed spec fn spec_initial_states(&self) -> Seq<State> {
        seq![
            State { id: PREMOVING_BASE_CV, idx: 0, reg: 0 },
            State { id: MOVING_RES, idx: 0, reg: 0 },
        ] + (if self.val_reg_ls is Some {
            Seq::new(self.spec_bpr() as nat, |i: int| State { id: LOADING_VAL, idx: i as u8, reg: 0 })
        } else {
            Seq::<State>::empty()
        }) + Seq::new(
            self.spec_bpr() as nat,
            |i: int| State { id: INITIALIZING_MASK, idx: i as u8, reg: 0 },
        ) + Seq::new(self.spec_bpr() as nat, |i: int| State { id: LOADING_COL, idx: i as u8, reg: 0 })
            + (if self.col_prefetch_info is Some {
            Seq::new(
                ((self.spec_bpr() + 1) / 2) as nat,
                |k: int| State { id: PREFETCHING_COL, idx: (2 * k) as u8, reg: 0 },
            )
        } else {
            Seq::<State>::empty()
        }) + (if self.val_prefetch_info is Some {
            Seq::new(
                self.spec_bpr() as nat,
                |i: int| State { id: PREFETCHING_VAL, idx: i as u8, reg: 0 },
            )
        } else {
            Seq::<State>::empty()
        }) + (if self.store_to_tmp {
            seq![State { id: STORING_RES, idx: 0, reg: 0 }]
        } else {
            Seq::<State>::empty()
        }) + seq![
            State { id: POSTMOVING_BASE_CV, idx: 0, reg: 0 },
            State { id: MOVING_BASE_TMP, idx: 0, reg: 0 },
            State { id: MOVING_CVX, idx: 0, reg: 0 },
        ]
    }
}

impl Generate for Generator {
    open spec fn nesting(&self) -> nat {
        0
    }

    open spec fn wf(&self) -> bool {
        true
    }

    open spec fn spec_rulebook(&self) -> Seq<Rule> {
        seq![
            Rule { condition: Condition::Single { id: PREMOVING_BASE_CV } },
            Rule { condition: Condition::Single { id: MOVING_RES } },
            Rule { condition: Condition::Single { id: LOADING_VAL } },
            Rule { condition: Condition::Single { id: INITIALIZING_MASK } },
            Rule { condition: Condition::Single { id: PREFETCHING_COL } },
            Rule { condition: Condition::Single { id: LOADING_COL } },
            Rule { condition: Condition::SameIdx { id0: MASK_SET, id1: LOADING_X } },
            Rule { condition: Condition::SameIdx { id0: VAL_LOADED, id1: X_LOADED } },
            Rule { condition: Condition::Single { id: X_LOADED } },
            Rule { condition: Condition::Single { id: MULTIPLYING } },
            Rule { condition: Condition::Single { id: PREFETCHING_VAL } },
            Rule { condition: Condition::SameId { id: MULTIPLIED, n_states: 2, idx_dist: 1 } },
            Rule { condition: Condition::Single { id: MULTIPLIED } },
            Rule { condition: Condition::Single { id: STORING_RES } },
            Rule { condition: Condition::Single { id: POSTMOVING_BASE_CV } },
            Rule { condition: Condition::Single { id: MOVING_BASE_TMP } },
            Rule { condition: Condition::Single { id: MOVING_CVX } },
        ]
    }

    fn rulebook(&self) -> (r: Vec<Rule>) {
        let mut v: Vec<Rule> = Vec::new();
        v.push(Rule { condition: Condition::Single { id: PREMOVING_BASE_CV } });
        v.push(Rule { condition: Condition::Single { id: MOVING_RES } });
        v.push(Rule { condition: Condition::Single { id: LOADING_VAL } });
        v.push(Rule { condition: Condition::Single { id: INITIALIZING_MASK } });
        v.push(Rule { condition: Condition::Single { id: PREFETCHING_COL } });
        v.push(Rule { condition: Condition::Single { id: LOADING_COL } });
        v.push(Rule { condition: Condition::SameIdx { id0: MASK_SET, id1: LOADING_X } });
        v.push(Rule { condition: Condition::SameIdx { id0: VAL_LOADED, id1: X_LOADED } });
        v.push(Rule { condition: Condition::Single { id: X_LOADED } });
        v.push(Rule { condition: Condition::Single { id: MULTIPLYING } });
        v.push(Rule { condition: Condition::Single { id: PREFETCHING_VAL } });
        v.push(Rule { condition: Condition::SameId { id: MULTIPLIED, n_states: 2, idx_dist: 1 } });
        v.push(Rule { condition: Condition::Single { id: MULTIPLIED } });
        v.push(Rule { condition: Condition::Single { id: STORING_RES } });
        v.push(Rule { condition: Condition::Single { id: POSTMOVING_BASE_CV } });
        v.push(Rule { condition: Condition::Single { id: MOVING_BASE_TMP } });
        v.push(Rule { condition: Condition::Single { id: MOVING_CVX } });
        proof {
            assert(v@ =~= self.spec_rulebook());
        }
        v
    }

    fn avail_registers(&self) -> (r: [bool; 32])
        ensures
            forall|i: int| 0 <= i < 32 ==> !r@[i],
    {
        [false;32]
    }

    #[verifier::rlimit(100)]
    #[verifier::spinoff_prover]
    fn initial_states(&self) -> (r: Vec<State>)
        ensures
            r@ == self.spec_initial_states(),
    {
        let mut states: Vec<State> = Vec::new();
        states.push(State { id: PREMOVING_BASE_CV, idx: 0, reg: 0 });
        states.push(State { id: MOVING_RES, idx: 0, reg: 0 });
        let bpr = if self.blocks_per_row < 32 {
            self.blocks_per_row
        } else {
            32
        };
        if self.val_reg_ls.is_some() {
            let ghost prefix = states@;
            let mut i: u8 = 0;
            while i < bpr
                invariant
                    i <= bpr,
                    states@ =~= prefix + Seq::new(
                        i as nat,
                        |k: int| State { id: LOADING_VAL, idx: k as u8, reg: 0 },
                    ),
                decreases bpr - i,
            {
                states.push(State { id: LOADING_VAL, idx: i, reg: 0 });
                proof {
                    assert(states@ =~= prefix + Seq::new(
                        (i + 1) as nat,
                        |k: int| State { id: LOADING_VAL, idx: k as u8, reg: 0 },
                    ));
                }
                i += 1;
            }
        }
        let ghost prefix = states@;
        let mut i: u8 = 0;
        while i < bpr
            invariant
                i <= bpr,
                states@ =~= prefix + Seq::new(
                    i as nat,
                    |k: int| State { id: INITIALIZING_MASK, idx: k as u8, reg: 0 },
                ),
            decreases bpr - i,
        {
            states.push(State { id: INITIALIZING_MASK, idx: i, reg: 0 });
            proof {
                assert(states@ =~= prefix + Seq::new(
                    (i + 1) as nat,
                    |k: int| State { id: INITIALIZING_MASK, idx: k as u8, reg: 0 },
                ));
            }
            i += 1;
        }
        let ghost prefix = states@;
        let mut i: u8 = 0;
        while i < bpr
            invariant
                i <= bpr,
                states@ =~= prefix + Seq::new(
                    i as nat,
                    |k: int| State { id: LOADING_COL, idx: k as u8, reg: 0 },
                ),
            decreases bpr - i,
        {
            states.push(State { id: LOADING_COL, idx: i, reg: 0 });
            proof {
                assert(states@ =~= prefix + Seq::new(
                    (i + 1) as nat,
                    |k: int| State { id: LOADING_COL, idx: k as u8, reg: 0 },
                ));
            }
            i += 1;
        }
        if self.col_prefetch_info.is_some() {
            let ghost prefix = states@;
            let mut i: u8 = 0;
            while i < bpr
                invariant
                    i <= bpr,
                    states@ =~= prefix + Seq::new(
                        ((i + 1) / 2) as nat,
                        |k: int| State { id: PREFETCHING_COL, idx: (2 * k) as u8, reg: 0 },
                    ),
                decreases bpr - i,
            {
                if i % 2 == 0 {
                    states.push(State { id: PREFETCHING_COL, idx: i, reg: 0 });
                    proof {
                        assert(2 * ((i as int) / 2) == i as int);
                        assert((i as int + 1) / 2 == (i as int) / 2);
                        assert((i as int + 2) / 2 == (i as int) / 2 + 1);
                        assert(states@ =~= prefix + Seq::new(
                            ((i + 2) / 2) as nat,
                            |k: int| State { id: PREFETCHING_COL, idx: (2 * k) as u8, reg: 0 },
                        ));
                    }
                }
                i += 1;
            }
            proof {
                assert(states@ =~= prefix + Seq::new(
                    ((bpr as int + 1) / 2) as nat,
                    |k: int| State { id: PREFETCHING_COL, idx: (2 * k) as u8, reg: 0 },
                ));
            }
        }
        if self.val_prefetch_info.is_some() {
            let ghost prefix = states@;
            let mut i: u8 = 0;
            while i < bpr
                invariant
                    i <= bpr,
                    states@ =~= prefix + Seq::new(
                        i as nat,
                        |k: int| State { id: PREFETCHING_VAL, idx: k as u8, reg: 0 },
                    ),
                decreases bpr - i,
            {
                states.push(State { id: PREFETCHING_VAL, idx: i, reg: 0 });
                proof {
                    assert(states@ =~= prefix + Seq::new(
                        (i + 1) as nat,
                        |k: int| State { id: PREFETCHING_VAL, idx: k as u8, reg: 0 },
                    ));
                }
                i += 1;
            }
        }
        if self.store_to_tmp {
            states.push(State { id: STORING_RES, idx: 0, reg: 0 });
        }
        states.push(State { id: POSTMOVING_BASE_CV, idx: 0, reg: 0 });
        states.push(State { id: MOVING_BASE_TMP, idx: 0, reg: 0 });
        states.push(State { id: MOVING_CVX, idx: 0, reg: 0 });
        proof {
            assert(states@ =~= self.spec_initial_states());
        }
        states
    }

    fn transform(&self, rule: usize, _pool: &mut RegisterPool, matched: &Vec<State>) -> (r: Result<
        (Assembly, Vec<State>),
        GenerateError,
    >) {
        if rule == 0 {
            // Backward traversal moves the base pointers before the loads.
            let col_mb = match self.col_move_base() {
                Ok(v) => v,
                Err(e) => {
                    return Err(e);
                },
            };
            let val_mb = match self.val_move_base() {
                Ok(v) => v,
                Err(e) => {
                    return Err(e);
                },
            };
            let out_col = if col_mb < 0 && col_mb > i16::MIN {
                Assembly::new().sub_immediate(self.col_name, -col_mb)
            } else {
                Assembly::new()
            };
            let out_val = if val_mb < 0 && val_mb > i16::MIN {
                Assembly::new().sub_immediate(self.val_name, -val_mb)
            } else {
                Assembly::new()
            };
            Ok((out_col.append(out_val), Vec::new()))
        } else if rule == 1 {
            // Rotate the accumulator registers one place down.
            let out = if !self.store_to_tmp && self.move_reg && self.res_reg_se.1 > 0 {
                match Self::emit_moves(Assembly::new(), self.res_reg_se.0, self.res_reg_se.1 - 1, 1)
                {
                    Ok(a) => a,
                    Err(e) => {
                        return Err(e);
                    },
                }
            } else {
                Assembly::new()
            };
            Ok((out, Vec::new()))
        } else if rule == 2 {
            let idx = matched[0].idx;
            let out = match self.val_reg_ls {
                None => Assembly::new(),
                Some(ls) => {
                    let reg: u32 = ls.1 as u32 + idx as u32;
                    if reg >= 32 {
                        return Err(GenerateError::RegisterOverflow);
                    }
                    let base = match self.val_base(idx) {
                        Ok(b) => b,
                        Err(e) => {
                            return Err(e);
                        },
                    };
                    Assembly::new().load_f64x8(reg as u8, self.val_name, base)
                },
            };
            let mut states: Vec<State> = Vec::new();
            states.push(State { id: VAL_LOADED, idx, reg: 0 });
            Ok((out, states))
        } else if rule == 3 {
            let idx = matched[0].idx;
            if idx >= 4 {
                return Err(GenerateError::UnsupportedConfiguration);
            }
            let out = Assembly::new().mask_on(idx + 1);
            let mut states: Vec<State> = Vec::new();
            states.push(State { id: MASK_SET, idx, reg: 0 });
            Ok((out, states))
        } else if rule == 4 {
            let idx = matched[0].idx;
            let out = match self.col_prefetch(idx) {
                Ok(None) => Assembly::new(),
                Ok(Some((pt, dist))) => Assembly::new().prefetch(pt, self.col_name, dist),
                Err(e) => {
                    return Err(e);
                },
            };
            Ok((out, Vec::new()))
        } else if rule == 5 {
            let idx = matched[0].idx;
            let reg: u32 = self.col_reg_ls.1 as u32 + idx as u32;
            if reg >= 16 {
                return Err(GenerateError::RegisterOverflow);
            }
            let base = match self.col_base(idx) {
                Ok(b) => b,
                Err(e) => {
                    return Err(e);
                },
            };
            let out = Assembly::new().load_i32x8(reg as u8, self.col_name, base);
            let mut states: Vec<State> = Vec::new();
            states.push(State { id: LOADING_X, idx, reg: 0 });
            Ok((out, states))
        } else if rule == 6 {
            // A mask and a column load at the same lane: gather the x
            // operands.
            let idx = matched[0].idx;
            let col_reg: u32 = self.col_reg_ls.0 as u32 + idx as u32;
            let x_reg: u32 = self.x_reg_ls.1 as u32 + idx as u32;
            if x_reg >= 32 || col_reg > 255 || x_reg as u8 == col_reg as u8 {
                return Err(GenerateError::RegisterOverflow);
            }
            if idx >= 4 {
                return Err(GenerateError::UnsupportedConfiguration);
            }
            let k = idx + 1;
            let out = Assembly::new().gather_f64x8(x_reg as u8, self.x_name, col_reg as u8, k);
            let mut states: Vec<State> = Vec::new();
            states.push(State { id: X_LOADED, idx, reg: 0 });
            Ok((out, states))
        } else if rule == 7 {
            let idx = matched[0].idx;
            let mut states: Vec<State> = Vec::new();
            states.push(State { id: MULTIPLYING, idx, reg: 0 });
            Ok((Assembly::new(), states))
        } else if rule == 8 {
            let idx = matched[0].idx;
            let mut states: Vec<State> = Vec::new();
            states.push(State { id: MULTIPLYING, idx, reg: 0 });
            Ok((Assembly::new(), states))
        } else if rule == 9 {
            let idx = matched[0].idx;
            let x_reg: u32 = self.x_reg_ls.0 as u32 + idx as u32;
            let res_reg = self.res_reg();
            if x_reg > 255 || res_reg >= 32 {
                return Err(GenerateError::RegisterOverflow);
            }
            let out = match self.val_reg_ls {
                Some(ls) => {
                    let val_reg: u32 = ls.0 as u32 + idx as u32;
                    if val_reg > 255 {
                        return Err(GenerateError::RegisterOverflow);
                    }
                    match self.multiplication_type(idx) {
                        MultiplicationType::Mul => Assembly::new().mul_f64x8(
                            res_reg,
                            x_reg as u8,
                            val_reg as u8,
                        ),
                        MultiplicationType::MulAdd => Assembly::new().muladd_f64x8(
                            res_reg,
                            x_reg as u8,
                            val_reg as u8,
                        ),
                        MultiplicationType::NMulSub => Assembly::new().nmulsub_f64x8(
                            res_reg,
                            x_reg as u8,
                            val_reg as u8,
                        ),
                    }
                },
                None => {
                    let base = match self.val_base(idx) {
                        Ok(b) => b,
                        Err(e) => {
                            return Err(e);
                        },
                    };
                    match self.multiplication_type(idx) {
                        MultiplicationType::Mul => Assembly::new().loadmul_f64x8(
                            res_reg,
                            x_reg as u8,
                            self.val_name,
                            base,
                        ),
                        MultiplicationType::MulAdd => Assembly::new().loadmuladd_f64x8(
                            res_reg,
                            x_reg as u8,
                            self.val_name,
                            base,
                        ),
                        MultiplicationType::NMulSub => Assembly::new().loadnmulsub_f64x8(
                            res_reg,
                            x_reg as u8,
                            self.val_name,
                            base,
                        ),
                    }
                },
            };
            let mut states: Vec<State> = Vec::new();
            states.push(State { id: MULTIPLIED, idx, reg: 0 });
            Ok((out, states))
        } else if rule == 10 {
            let idx = matched[0].idx;
            let out = match self.val_prefetch(idx) {
                Ok(None) => Assembly::new(),
                Ok(Some((pt, dist))) => Assembly::new().prefetch(pt, self.val_name, dist),
                Err(e) => {
                    return Err(e);
                },
            };
            Ok((out, Vec::new()))
        } else if rule == 11 {
            // Two adjacent multiplied lanes merge into the higher one.
            let idx = matched[1].idx;
            let mut states: Vec<State> = Vec::new();
            states.push(State { id: MULTIPLIED, idx, reg: 0 });
            Ok((Assembly::new(), states))
        } else if rule == 12 {
            Ok((Assembly::new(), Vec::new()))
        } else if rule == 13 {
            let out = if self.store_to_tmp {
                let base: i16 = if self.move_base {
                    0
                } else {
                    match fit_i16(mul_small(self.kernel_idx as u32, self.tmp_offset)) {
                        Ok(b) => b,
                        Err(e) => {
                            return Err(e);
                        },
                    }
                };
                Assembly::new().store_f64x8(self.tmp_name, base, self.res_reg())
            } else {
                Assembly::new()
            };
            Ok((out, Vec::new()))
        } else if rule == 14 {
            let col_mb = match self.col_move_base() {
                Ok(v) => v,
                Err(e) => {
                    return Err(e);
                },
            };
            let val_mb = match self.val_move_base() {
                Ok(v) => v,
                Err(e) => {
                    return Err(e);
                },
            };
            let out_col = if col_mb > 0 {
                Assembly::new().add_immediate(self.col_name, col_mb)
            } else {
                Assembly::new()
            };
            let out_val = if val_mb > 0 {
                Assembly::new().add_immediate(self.val_name, val_mb)
            } else {
                Assembly::new()
            };
            Ok((out_col.append(out_val), Vec::new()))
        } else if rule == 15 {
            let out = if self.store_to_tmp && self.move_base {
                if self.tmp_offset <= 32767 {
                    Assembly::new().add_immediate(self.tmp_name, self.tmp_offset as i16)
                } else {
                    return Err(GenerateError::UnsupportedConfiguration);
                }
            } else {
                Assembly::new()
            };
            Ok((out, Vec::new()))
        } else {
            // Rotate the column, value and x registers for preloading.
            let mut out = Assembly::new();
            if self.move_reg {
                out =
                match Self::emit_moves(
                    out,
                    self.col_reg_ls.0,
                    self.col_reg_ls.1,
                    self.blocks_per_row,
                ) {
                    Ok(a) => a,
                    Err(e) => {
                        return Err(e);
                    },
                };
                if let Some(ls) = self.val_reg_ls {
                    out =
                    match Self::emit_moves(out, ls.0, ls.1, self.blocks_per_row) {
                        Ok(a) => a,
                        Err(e) => {
                            return Err(e);
                        },
                    };
                }
                out =
                match Self::emit_moves(out, self.x_reg_ls.0, self.x_reg_ls.1, self.blocks_per_row) {
                    Ok(a) => a,
                    Err(e) => {
                        return Err(e);
                    },
                };
            }
            Ok((out, Vec::new()))
        }
    }
}

impl Generator {
    /// Runs the fixpoint driver over this generator's rulebook.
    pub fn generate(&self) -> (r: Result<Assembly, GenerateError>)
        ensures
            r matches Ok(out) ==> out@.wf() && spec_complete_run(
                self.spec_rulebook(),
                spec_insert_all(spec_empty_store(), self.spec_initial_states()),
                out@,
            ),
            self.spec_initial_states().len() == 0 ==> (r matches Ok(out) && out@
                == spec_empty_assembly()),
        decreases self.nesting(), 2nat,
    {
        let mut pool = RegisterPool::new(self.avail_registers());
        let seeds = self.initial_states();
        let ghost seed_store = spec_insert_all(spec_empty_store(), seeds@);
        proof {
            if self.spec_initial_states().len() == 0 {
                assert(seeds@ =~= Seq::<State>::empty());
                assert(seed_store == spec_empty_store());
                assert(spec_store_empty(seed_store));
            }
        }
        let mut mgr = match StateManager::new(seeds) {
            Ok(m) => m,
            Err(e) => {
                return Err(e);
            },
        };
        match drive(self, &mut pool, &mut mgr) {
            Ok(out) => {
                proof {
                    let trace = choose|trace: Seq<Firing>|
                        spec_run(self.spec_rulebook(), seed_store, trace, mgr@) && out@
                            == spec_run_output(trace);
                    assert(spec_run(self.spec_rulebook(), seed_store, trace, mgr@));
                    assert(out@ == spec_run_output(trace));
                }
                Ok(out)
            },
            Err(e) => Err(e),
        }
    }
}

} // verus!
