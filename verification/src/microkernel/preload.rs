//! The preload phase: fill the column, value and gathered-operand
//! registers for the first unrolled iterations before the loop starts.

use vstd::prelude::*;

use crate::Assembly;
use crate::Condition;
use crate::Generate;
use crate::GenerateError;
use crate::RegisterPool;
use crate::Rule;
use crate::State;
use crate::StateManager;
use crate::drive;
use crate::Firing;
use crate::spec_complete_run;
use crate::spec_empty_assembly;
use crate::spec_empty_store;
use crate::spec_insert_all;
use crate::spec_run;
use crate::spec_store_empty;
use crate::spec_run_output;
use crate::fit_i16;
use crate::mul_small;
use crate::mul_u8;
use crate::microkernel::Direction;

verus! {

pub const PREMOVING_BASE: u32 = 0;
pub const PREMASKING: u32 = 1;
pub const LOADING_COL_FOR_X: u32 = 2;
pub const PRELOADING_COL: u32 = 3;
pub const PRELOADING_X: u32 = 4;
pub const PRELOADING_VAL: u32 = 5;
pub const POSTMOVING_BASE: u32 = 6;

pub struct Generator {
    col_premove: i16,
    col_stride: u16,
    col_offset: u16,
    col_preload_dist: u8,
    col_reg_s: u8,
    col_name: &'static str,
    val_premove: i16,
    val_stride: u16,
    val_offset: u16,
    val_preload_dist: u8,
    val_reg_s: Option<u8>,
    val_name: &'static str,
    x_preload_dist: u8,
    x_reg_s: u8,
    x_name: &'static str,
    direction: Direction,
    blocks_per_row: u8,
}

impl Generator {
    pub fn new(
        col_premove: i16,
        col_stride: u16,
        col_offset: u16,
        col_preload_dist: u8,
        col_reg_s: u8,
        col_name: &'static str,
        val_premove: i16,
        val_stride: u16,
        val_offset: u16,
        val_preload_dist: u8,
        val_reg_s: Option<u8>,
        val_name: &'static str,
        x_preload_dist: u8,
        x_reg_s: u8,
        x_name: &'static str,
        direction: Direction,
        blocks_per_row: u8,
    ) -> (r: Self)
        ensures
            r.wf(),
    {
        Generator {
            col_premove,
            col_stride,
            col_offset,
            col_preload_dist,
            col_reg_s,
            col_name,
            val_premove,
            val_stride,
            val_offset,
            val_preload_dist,
            val_reg_s,
            val_name,
            x_preload_dist,
            x_reg_s,
            x_name,
            direction,
            blocks_per_row,
        }
    }

    fn col_blocks_to_preload(&self) -> (r: u32)
        ensures
            r == self.blocks_per_row as int * self.col_preload_dist as int,
            r <= 65025,
    {
        mul_u8(self.blocks_per_row, self.col_preload_dist)
    }

    fn val_blocks_to_preload(&self) -> (r: u32)
        ensures
            r == self.blocks_per_row as int * self.val_preload_dist as int,
            r <= 65025,
    {
        mul_u8(self.blocks_per_row, self.val_preload_dist)
    }

    fn x_blocks_to_preload(&self) -> (r: u32)
        ensures
            r == self.blocks_per_row as int * self.x_preload_dist as int,
            r <= 65025,
    {
        mul_u8(self.blocks_per_row, self.x_preload_dist)
    }

    fn do_premasking(&self) -> (r: bool)
        ensures
            r == (self.blocks_per_row as int * self.x_preload_dist as int <= 4),
    {
        self.x_blocks_to_preload() <= 4
    }

    /// The direction-adjusted displacement of the `idx`-th preloaded
    /// column block relative to the column base pointer.
    fn col_base(&self, idx: u32, blocks: u32) -> (r: Result<i16, GenerateError>)
        ensures
            r matches Ok(v) ==> self.blocks_per_row > 0 && 0 <= self.spec_adj(
                idx as int,
                blocks as int,
            ) && v as int == (self.spec_adj(idx as int, blocks as int)
                / self.blocks_per_row as int) * self.col_stride as int + (self.spec_adj(
                idx as int,
                blocks as int,
            ) % self.blocks_per_row as int) * self.col_offset as int,
    {
        if self.blocks_per_row == 0 {
            return Err(GenerateError::UnsupportedConfiguration);
        }
        let adj: u32 = match self.direction {
            Direction::Forward => idx,
            Direction::Backward => {
                if idx >= blocks {
                    return Err(GenerateError::UnsupportedConfiguration);
                }
                blocks - idx - 1
            },
        };
        let row_idx = adj / self.blocks_per_row as u32;
        let block_idx = adj % self.blocks_per_row as u32;
        if row_idx > 255 || block_idx > 255 {
            return Err(GenerateError::UnsupportedConfiguration);
        }
        fit_i16(mul_small(row_idx, self.col_stride) + mul_small(block_idx, self.col_offset))
    }

    /// As `col_base`, for the value stream.
    fn val_base(&self, idx: u32, blocks: u32) -> (r: Result<i16, GenerateError>)
        ensures
            r matches Ok(v) ==> self.blocks_per_row > 0 && 0 <= self.spec_adj(
                idx as int,
                blocks as int,
            ) && v as int == (self.spec_adj(idx as int, blocks as int)
                / self.blocks_per_row as int) * self.val_stride as int + (self.spec_adj(
                idx as int,
                blocks as int,
            ) % self.blocks_per_row as int) * self.val_offset as int,
    {
        if self.blocks_per_row == 0 {
            return Err(GenerateError::UnsupportedConfiguration);
        }
        let adj: u32 = match self.direction {
            Direction::Forward => idx,
            Direction::Backward => {
                if idx >= blocks {
                    return Err(GenerateError::UnsupportedConfiguration);
                }
                blocks - idx - 1
            },
        };
        let row_idx = adj / self.blocks_per_row as u32;
        let block_idx = adj % self.blocks_per_row as u32;
        if row_idx > 255 || block_idx > 255 {
            return Err(GenerateError::UnsupportedConfiguration);
        }
        fit_i16(mul_small(row_idx, self.val_stride) + mul_small(block_idx, self.val_offset))
    }

    /// How far the column base pointer moves over the preloaded rows.
    fn col_move_base(&self) -> (r: Result<i16, GenerateError>)
        ensures
            r matches Ok(v) ==> v as int == (match self.direction {
                Direction::Forward => (self.col_preload_dist + self.x_preload_dist)
                    * self.col_stride,
                Direction::Backward => -((self.col_preload_dist + self.x_preload_dist)
                    * self.col_stride),
            }) + self.col_premove as int,
    {
        let rows: u32 = self.col_preload_dist as u32 + self.x_preload_dist as u32;
        let moved: i32 = mul_small(rows, self.col_stride);
        let signed: i32 = match self.direction {
            Direction::Forward => moved,
            Direction::Backward => -moved,
        };
        fit_i16(signed + self.col_premove as i32)
    }

    /// How far the value base pointer moves over the preloaded rows.
    fn val_move_base(&self) -> (r: Result<i16, GenerateError>)
        ensures
            r matches Ok(v) ==> v as int == (match self.direction {
                Direction::Forward => self.val_preload_dist * self.val_stride,
                Direction::Backward => -(self.val_preload_dist as int * self.val_stride as int),
            }) + self.val_premove as int,
    {
        let moved: i32 = mul_small(self.val_preload_dist as u32, self.val_stride);
        let signed: i32 = match self.direction {
            Direction::Forward => moved,
            Direction::Backward => -moved,
        };
        fit_i16(signed + self.val_premove as i32)
    }
}

impl Generator {
    /// The number of blocks each stream preloads, as a mathematical
    /// count.
    pub closed spec fn spec_col_blocks(&self) -> int {
        self.blocks_per_row as int * self.col_preload_dist as int
    }

    pub closed spec fn spec_val_blocks(&self) -> int {
        self.blocks_per_row as int * self.val_preload_dist as int
    }

    pub closed spec fn spec_x_blocks(&self) -> int {
        self.blocks_per_row as int * self.x_preload_dist as int
    }

    /// The first register of the gathered-operand window.
    pub closed spec fn spec_x_reg_s(&self) -> int {
        self.x_reg_s as int
    }

    /// The direction-adjusted position of preloaded block `idx` among
    /// `blocks`.
    pub closed spec fn spec_adj(&self, idx: int, blocks: int) -> int {
        match self.direction {
            Direction::Forward => idx,
            Direction::Backward => blocks - idx - 1,
        }
    }

    /// The seed tokens: the base rewind, optional one-off mask setup, one
    /// column load per gathered block, the column and value preloads, and
    /// the base advance.
    pub closed spec fn spec_initial_states(&self) -> Seq<State> {
        seq![State { id: PREMOVING_BASE, idx: 0, reg: 0 }] + (if self.spec_x_blocks() <= 4 {
            Seq::new(
                self.spec_x_blocks() as nat,
                |i: int| State { id: PREMASKING, idx: i as u8, reg: 0 },
            )
        } else {
            Seq::<State>::empty()
        }) + Seq::new(
            self.spec_x_blocks() as nat,
            |i: int| State { id: LOADING_COL_FOR_X, idx: (i % 256) as u8, reg: 0 },
        ) + Seq::new(
            self.spec_col_blocks() as nat,
            |i: int| State { id: PRELOADING_COL, idx: (i % 256) as u8, reg: 0 },
        ) + Seq::new(
            self.spec_val_blocks() as nat,
            |i: int| State { id: PRELOADING_VAL, idx: (i % 256) as u8, reg: 0 },
        ) + seq![State { id: POSTMOVING_BASE, idx: 0, reg: 0 }]
    }
}

impl Generate for Generator {
    open spec fn nesting(&self) -> nat {
        0
    }

    open spec fn wf(&self) -> bool {
        true
    }

    open spec fn spec_rulebook(&self) -> Seq<Rule> {
        seq![
            Rule { condition: Condition::Single { id: PREMOVING_BASE } },
            Rule { condition: Condition::Single { id: PREMASKING } },
            Rule { condition: Condition::Single { id: LOADING_COL_FOR_X } },
            Rule { condition: Condition::Single { id: PRELOADING_X } },
            Rule { condition: Condition::Single { id: PRELOADING_COL } },
            Rule { condition: Condition::Single { id: PRELOADING_VAL } },
            Rule { condition: Condition::Single { id: POSTMOVING_BASE } },
        ]
    }

    fn rulebook(&self) -> (r: Vec<Rule>) {
        let mut v: Vec<Rule> = Vec::new();
        v.push(Rule { condition: Condition::Single { id: PREMOVING_BASE } });
        v.push(Rule { condition: Condition::Single { id: PREMASKING } });
        v.push(Rule { condition: Condition::Single { id: LOADING_COL_FOR_X } });
        v.push(Rule { condition: Condition::Single { id: PRELOADING_X } });
        v.push(Rule { condition: Condition::Single { id: PRELOADING_COL } });
        v.push(Rule { condition: Condition::Single { id: PRELOADING_VAL } });
        v.push(Rule { condition: Condition::Single { id: POSTMOVING_BASE } });
        proof {
            assert(v@ =~= self.spec_rulebook());
        }
        v
    }

    fn avail_registers(&self) -> (r: [bool; 32])
        ensures
            forall|j: int| 0 <= j < 32 ==> r@[j] == !(self.spec_x_reg_s() <= j
                < self.spec_x_reg_s() + self.spec_x_blocks()),
    {
        let mut avail = [true;32];
        let blocks = self.x_blocks_to_preload();
        let mut i: u32 = 0;
        while i < blocks
            invariant
                i <= blocks,
                blocks <= 65025,
                blocks as int == self.spec_x_blocks(),
                avail@.len() == 32,
                forall|j: int| 0 <= j < 32 ==> avail@[j] == !(self.spec_x_reg_s() <= j
                    < self.spec_x_reg_s() + i),
            decreases blocks - i,
        {
            let slot = self.x_reg_s as u32 + i;
            if slot < 32 {
                avail.set(slot as usize, false);
            }
            i += 1;
        }
        avail
    }

    fn initial_states(&self) -> (r: Vec<State>)
        ensures
            r@ == self.spec_initial_states(),
    {
        let mut states: Vec<State> = Vec::new();
        states.push(State { id: PREMOVING_BASE, idx: 0, reg: 0 });
        if self.do_premasking() {
            let ghost prefix = states@;
            let mask_to_set = self.x_blocks_to_preload();
            let mut i: u32 = 0;
            while i < mask_to_set
                invariant
                    i <= mask_to_set,
                    mask_to_set <= 4,
                    states@ =~= prefix + Seq::new(
                        i as nat,
                        |k: int| State { id: PREMASKING, idx: k as u8, reg: 0 },
                    ),
                decreases mask_to_set - i,
            {
                states.push(State { id: PREMASKING, idx: i as u8, reg: 0 });
                proof {
                    assert(states@ =~= prefix + Seq::new(
                        (i + 1) as nat,
                        |k: int| State { id: PREMASKING, idx: k as u8, reg: 0 },
                    ));
                }
                i += 1;
            }
        }
        let ghost prefix = states@;
        let col_blocks_for_x = self.x_blocks_to_preload();
        let mut i: u32 = 0;
        while i < col_blocks_for_x
            invariant
                i <= col_blocks_for_x,
                states@ =~= prefix + Seq::new(
                    i as nat,
                    |k: int| State { id: LOADING_COL_FOR_X, idx: (k % 256) as u8, reg: 0 },
                ),
            decreases col_blocks_for_x - i,
        {
            states.push(State { id: LOADING_COL_FOR_X, idx: (i % 256) as u8, reg: 0 });
            proof {
                assert(states@ =~= prefix + Seq::new(
                    (i + 1) as nat,
                    |k: int| State { id: LOADING_COL_FOR_X, idx: (k % 256) as u8, reg: 0 },
                ));
            }
            i += 1;
        }
        let ghost prefix = states@;
        let mut i: u32 = 0;
        let col_blocks = self.col_blocks_to_preload();
        while i < col_blocks
            invariant
                i <= col_blocks,
                states@ =~= prefix + Seq::new(
                    i as nat,
                    |k: int| State { id: PRELOADING_COL, idx: (k % 256) as u8, reg: 0 },
                ),
            decreases col_blocks - i,
        {
            states.push(State { id: PRELOADING_COL, idx: (i % 256) as u8, reg: 0 });
            proof {
                assert(states@ =~= prefix + Seq::new(
                    (i + 1) as nat,
                    |k: int| State { id: PRELOADING_COL, idx: (k % 256) as u8, reg: 0 },
                ));
            }
            i += 1;
        }
        let ghost prefix = states@;
        let mut i: u32 = 0;
        let val_blocks = self.val_blocks_to_preload();
        while i < val_blocks
            invariant
                i <= val_blocks,
                states@ =~= prefix + Seq::new(
                    i as nat,
                    |k: int| State { id: PRELOADING_VAL, idx: (k % 256) as u8, reg: 0 },
                ),
            decreases val_blocks - i,
        {
            states.push(State { id: PRELOADING_VAL, idx: (i % 256) as u8, reg: 0 });
            proof {
                assert(states@ =~= prefix + Seq::new(
                    (i + 1) as nat,
                    |k: int| State { id: PRELOADING_VAL, idx: (k % 256) as u8, reg: 0 },
                ));
            }
            i += 1;
        }
        states.push(State { id: POSTMOVING_BASE, idx: 0, reg: 0 });
        proof {
            assert(states@ =~= self.spec_initial_states());
        }
        states
    }

    fn transform(&self, rule: usize, pool: &mut RegisterPool, matched: &Vec<State>) -> (r: Result<
        (Assembly, Vec<State>),
        GenerateError,
    >) {
        if rule == 0 {
            let col_mb = match self.col_move_base() {
                Ok(x) => x,
                Err(e) => {
                    return Err(e);
                },
            };
            let val_mb = match self.val_move_base() {
                Ok(x) => x,
                Err(e) => {
                    return Err(e);
                },
            };
            let out_col = if col_mb < 0 && col_mb > i16::MIN {
                Assembly::new().sub_immediate(self.col_name, -col_mb)
            } else {
                Assembly::new()
            };
            let out_val = if val_mb < 0 && val_mb > i16::MIN {
                Assembly::new().sub_immediate(self.val_name, -val_mb)
            } else {
                Assembly::new()
            };
            Ok((out_col.append(out_val), Vec::new()))
        } else if rule == 1 {
            let idx = matched[0].idx;
            if idx >= 4 {
                return Err(GenerateError::UnsupportedConfiguration);
            }
            let out = Assembly::new().mask_on(idx + 1);
            Ok((out, Vec::new()))
        } else if rule == 2 {
            let idx = matched[0].idx;
            let reg = match pool.try_get() {
                Some(rg) => rg,
                None => {
                    return Err(GenerateError::RegisterOverflow);
                },
            };
            if reg >= 16 {
                return Err(GenerateError::RegisterOverflow);
            }
            let base = match self.col_base(idx as u32, self.x_blocks_to_preload()) {
                Ok(b) => b,
                Err(e) => {
                    return Err(e);
                },
            };
            let out = Assembly::new().load_i32x8(reg, self.col_name, base);
            let mut states: Vec<State> = Vec::new();
            states.push(State { id: PRELOADING_X, idx, reg });
            Ok((out, states))
        } else if rule == 3 {
            let idx = matched[0].idx;
            let reg_col = matched[0].reg;
            let reg_xv = self.x_reg_s as u32 + idx as u32;
            if reg_xv >= 32 || reg_xv as u8 == reg_col {
                return Err(GenerateError::UnsupportedConfiguration);
            }
            let k = idx % 4 + 1;
            pool.free(reg_col);
            let out = if self.do_premasking() {
                Assembly::new()
            } else {
                Assembly::new().mask_on(k)
            };
            let out = out.gather_f64x8(reg_xv as u8, self.x_name, reg_col, k);
            Ok((out, Vec::new()))
        } else if rule == 4 {
            let idx = matched[0].idx;
            let reg = self.col_reg_s as u32 + idx as u32;
            if reg >= 16 {
                return Err(GenerateError::RegisterOverflow);
            }
            let blocks = self.col_blocks_to_preload();
            let x_blocks = self.x_blocks_to_preload();
            let base = match self.col_base(idx as u32 + x_blocks, blocks + x_blocks) {
                Ok(b) => b,
                Err(e) => {
                    return Err(e);
                },
            };
            let out = Assembly::new().load_i32x8(reg as u8, self.col_name, base);
            Ok((out, Vec::new()))
        } else if rule == 5 {
            let idx = matched[0].idx;
            let val_reg_s = match self.val_reg_s {
                Some(v) => v,
                None => {
                    return Err(GenerateError::UnsupportedConfiguration);
                },
            };
            let reg = val_reg_s as u32 + idx as u32;
            if reg >= 32 {
                return Err(GenerateError::RegisterOverflow);
            }
            let base = match self.val_base(idx as u32, self.val_blocks_to_preload()) {
                Ok(b) => b,
                Err(e) => {
                    return Err(e);
                },
            };
            let out = Assembly::new().load_f64x8(reg as u8, self.val_name, base);
            Ok((out, Vec::new()))
        } else {
            let col_mb = match self.col_move_base() {
                Ok(x) => x,
                Err(e) => {
                    return Err(e);
                },
            };
            let val_mb = match self.val_move_base() {
                Ok(x) => x,
                Err(e) => {
                    return Err(e);
                },
            };
            let out_col = if col_mb > 0 {
                Assembly::new().add_immediate(self.col_name, col_mb)
            } else {
                Assembly::new()
            };
            let out_val = if val_mb > 0 {
                Assembly::new().add_immediate(self.val_name, val_mb)
            } else {
                Assembly::new()
            };
            Ok((out_col.append(out_val), Vec::new()))
        }
    }
}

impl Generator {
    /// Runs the fixpoint driver over this generator's rulebook.
    pub fn generate(&self) -> (r: Result<Assembly, GenerateError>)
        ensures
            r matches Ok(out) ==> out@.wf() && spec_complete_run(
                self.spec_rulebook(),
                spec_insert_all(spec_empty_store(), self.spec_initial_states()),
                out@,
            ),
            self.spec_initial_states().len() == 0 ==> (r matches Ok(out) && out@
                == spec_empty_assembly()),
        decreases self.nesting(), 2nat,
    {
        let mut pool = RegisterPool::new(self.avail_registers());
        let seeds = self.initial_states();
        let ghost seed_store = spec_insert_all(spec_empty_store(), seeds@);
        proof {
            if self.spec_initial_states().len() == 0 {
                assert(seeds@ =~= Seq::<State>::empty());
                assert(seed_store == spec_empty_store());
                assert(spec_store_empty(seed_store));
            }
        }
        let mut mgr = match StateManager::new(seeds) {
            Ok(m) => m,
            Err(e) => {
                return Err(e);
            },
        };
        match drive(self, &mut pool, &mut mgr) {
            Ok(out) => {
                proof {
                    let trace = choose|trace: Seq<Firing>|
                        spec_run(self.spec_rulebook(), seed_store, trace, mgr@) && out@
                            == spec_run_output(trace);
                    assert(spec_run(self.spec_rulebook(), seed_store, trace, mgr@));
                    assert(out@ == spec_run_output(trace));
                }
                Ok(out)
            },
            Err(e) => Err(e),
        }
    }
}

} // verus!
