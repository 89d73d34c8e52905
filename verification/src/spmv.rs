//! The sparse matrix-vector product kernel generator: preload, unrolled
//! kernel bodies, loop epilogue, reduction and loop tail, composed through
//! the fixpoint driver.

use vstd::prelude::*;

pub mod end;

use crate::Assembly;
use crate::Condition;
use crate::Generate;
use crate::GenerateError;
use crate::PrefetchType;
use crate::RegisterPool;
use crate::Rule;
use crate::State;
use crate::StateManager;
use crate::accumulate;
use crate::drive;
use crate::Firing;
use crate::spec_complete_run;
use crate::spec_empty_assembly;
use crate::spec_empty_store;
use crate::spec_insert_all;
use crate::spec_run;
use crate::spec_store_empty;
use crate::spec_run_output;
use crate::fit_i16;
use crate::microkernel;
use crate::microkernel::Direction;
use crate::microkernel::IterationType;
use crate::mul_u8;
use crate::sparse_matrix::DiagonalStatus;
use crate::sparse_matrix::LUStatus;
use crate::sparse_matrix::SparseMatrixFormat;
use crate::tools;

verus! {

pub const PRELOADING: u32 = 0;
pub const INSERTING_GAP: u32 = 1;
pub const PREKERNELING: u32 = 2;
pub const KERNELING: u32 = 3;
pub const KERNELED: u32 = 4;
pub const POSTKERNELING: u32 = 5;
pub const ACCUMULATING: u32 = 6;
pub const ENDING: u32 = 7;

/// What the product assigns: the full matrix or the upper triangle, with
/// either sign.
#[derive(Clone, Copy, PartialEq, Eq, Structural, Debug)]
pub enum Action {
    AssignPosAx,
    AssignNegAx,
    AssignPosUx,
    AssignNegUx,
}

pub struct Generator {
    matrix_format: SparseMatrixFormat,
    action: Action,
    direction: Direction,
    nrow_name: &'static str,
    col_prefetch_info: Option<(PrefetchType, u16)>,
    col_preload_dist: u8,
    col_name: &'static str,
    val_prefetch_info: Option<(PrefetchType, u16)>,
    val_preload_dist: Option<u8>,
    val_name: &'static str,
    x_preload_dist: u8,
    x_name: &'static str,
    tmp_name: &'static str,
    cnt_name: &'static str,
    loop_name: &'static str,
    y_name: &'static str,
    rowblock_size: u8,
    nops: u8,
    store_to_tmp: bool,
    move_reg: bool,
    move_base: bool,
}

impl Generator {
    pub fn new(
        matrix_format: SparseMatrixFormat,
        action: Action,
        direction: Direction,
        nrow_name: &'static str,
        col_prefetch_info: Option<(PrefetchType, u16)>,
        col_preload_dist: u8,
        col_name: &'static str,
        val_prefetch_info: Option<(PrefetchType, u16)>,
        val_preload_dist: Option<u8>,
        val_name: &'static str,
        x_preload_dist: u8,
        x_name: &'static str,
        tmp_name: &'static str,
        cnt_name: &'static str,
        loop_name: &'static str,
        y_name: &'static str,
        rowblock_size: u8,
        nops: u8,
        store_to_tmp: bool,
        move_reg: bool,
        move_base: bool,
    ) -> (r: Self) {
        Generator {
            matrix_format,
            action,
            direction,
            nrow_name,
            col_prefetch_info,
            col_preload_dist,
            col_name,
            val_prefetch_info,
            val_preload_dist,
            val_name,
            x_preload_dist,
            x_name,
            tmp_name,
            cnt_name,
            loop_name,
            y_name,
            rowblock_size,
            nops,
            store_to_tmp,
            move_reg,
            move_base,
        }
    }

    fn negate(&self) -> (r: bool) {
        match self.action {
            Action::AssignPosAx | Action::AssignPosUx => false,
            Action::AssignNegAx | Action::AssignNegUx => true,
        }
    }

    fn calc_ax(&self) -> (r: bool)
        ensures
            r == self.spec_calc_ax(),
    {
        match self.action {
            Action::AssignPosAx | Action::AssignNegAx => true,
            Action::AssignPosUx | Action::AssignNegUx => false,
        }
    }

    fn diag_status(&self) -> (r: DiagonalStatus) {
        match self.matrix_format {
            SparseMatrixFormat::ELL(ell_info) => ell_info.diag,
        }
    }

    fn lu_default(&self) -> (r: bool) {
        match self.matrix_format {
            SparseMatrixFormat::ELL(ell_info) => match ell_info.lu {
                LUStatus::Default => true,
                LUStatus::Excluded => false,
            },
        }
    }

    fn blocks_per_row(&self) -> (r: u8)
        ensures
            r == 4 || r == 2,
            r as int == self.spec_bpr(),
    {
        if self.calc_ax() {
            4
        } else {
            2
        }
    }

    fn col_stride(&self) -> (r: u16)
        ensures
            r == 128 || r == 64,
    {
        let stride: u16 = if self.calc_ax() || self.lu_default() {
            32
        } else {
            16
        };
        stride * 4
    }

    fn val_stride(&self) -> (r: u16)
        ensures
            r == 256 || r == 128,
    {
        let stride: u16 = if self.calc_ax() || self.lu_default() {
            32
        } else {
            16
        };
        stride * 8
    }

    fn col_offset(&self) -> (r: u16)
        ensures
            r == 32,
    {
        32
    }

    fn val_offset(&self) -> (r: u16)
        ensures
            r == 64,
    {
        64
    }

    fn tmp_offset(&self) -> (r: u16)
        ensures
            r == 64,
    {
        64
    }

    fn col_need(&self) -> (r: u32)
        ensures
            r <= 1024,
            r as int == self.spec_col_need(),
    {
        mul_u8(self.blocks_per_row(), self.col_preload_dist) + self.blocks_per_row() as u32
    }

    fn val_need(&self) -> (r: u32)
        ensures
            r <= 1024,
            r as int == self.spec_val_need(),
    {
        match self.val_preload_dist {
            None => 0,
            Some(d) => mul_u8(self.blocks_per_row(), d) + self.blocks_per_row() as u32,
        }
    }

    fn x_need(&self) -> (r: u32)
        ensures
            r <= 1024,
            r as int == self.spec_x_need(),
    {
        mul_u8(self.blocks_per_row(), self.x_preload_dist) + self.blocks_per_row() as u32
    }

    fn res_need(&self) -> (r: u32)
        ensures
            r <= 255,
            r as int == self.spec_res_need(),
    {
        if self.store_to_tmp {
            1
        } else {
            self.rowblock_size as u32
        }
    }

    fn col_se(&self) -> (r: (u32, u32))
        ensures
            r.1 <= 1024,
            r.0 == 0 && r.1 as int == self.spec_col_need(),
    {
        (0, self.col_need())
    }

    fn res_se(&self) -> (r: (u32, u32))
        ensures
            r.1 <= 1024 + 255,
            r.0 as int == self.spec_col_need(),
            r.1 as int == self.spec_col_need() + self.spec_res_need(),
    {
        let c = self.col_se();
        (c.1, c.1 + self.res_need())
    }

    fn x_se(&self) -> (r: (u32, u32))
        ensures
            r.1 <= 1024 + 255 + 1024,
            r.0 as int == self.spec_col_need() + self.spec_res_need(),
            r.1 as int == self.spec_col_need() + self.spec_res_need() + self.spec_x_need(),
    {
        let s = self.res_se();
        (s.1, s.1 + self.x_need())
    }

    fn val_se(&self) -> (r: Option<(u32, u32)>)
        ensures
            r matches Some(p) ==> p.1 <= 1024 + 255 + 1024 + 1024,
            r is Some <==> self.spec_val_need() > 0,
            r matches Some(p) ==> p.0 as int == self.spec_col_need() + self.spec_res_need()
                + self.spec_x_need() && p.1 as int == p.0 as int + self.spec_val_need(),
    {
        let need = self.val_need();
        if need == 0 {
            None
        } else {
            let x = self.x_se();
            Some((x.1, x.1 + need))
        }
    }

    /// The register window the kernel at `idx` loads from and stores into,
    /// for one preloaded stream.
    fn stream_ls(&self, reg_s: u32, reg_e: u32, idx: u8) -> (r: Result<(u32, u32), GenerateError>)
        requires
            reg_e <= 4096,
    {
        let bpr = self.blocks_per_row() as u32;
        if reg_e < reg_s {
            return Err(GenerateError::UnsupportedConfiguration);
        }
        let n = (reg_e - reg_s) / bpr;
        if n == 0 {
            return Err(GenerateError::UnsupportedConfiguration);
        }
        let (si, ei): (u32, u32) = if self.move_reg {
            (0, n - 1)
        } else {
            (idx as u32 % n, (n - 1 + idx as u32) % n)
        };
        proof {
            assert(si * bpr <= 4096 * 4 && ei * bpr <= 4096 * 4) by (nonlinear_arith)
                requires
                    si < n || (si == 0 && n >= 1),
                    ei < n || (ei <= n - 1),
                    n <= 4096,
                    bpr <= 4,
                    si >= 0,
                    ei >= 0,
                    si <= 4096,
                    ei <= 4096,
            ;
        }
        Ok((reg_s + si * bpr, reg_s + ei * bpr))
    }

    /// Whether preloaded values rotate through registers rather than
    /// unrolling.
    pub closed spec fn spec_move_reg(&self) -> bool {
        self.move_reg
    }

    /// Whether a preload distance is too large to name its register
    /// group count.
    pub closed spec fn spec_dist_overflow(&self) -> bool {
        self.col_preload_dist == 255 || self.x_preload_dist == 255 || self.val_preload_dist
            == Some(255u8)
    }

    /// The register-group counts whose least common multiple is the
    /// unrolled-kernel count.
    pub closed spec fn spec_groups(&self) -> Seq<u8> {
        seq![
            (self.col_preload_dist + 1) as u8,
            match self.val_preload_dist {
                None => 0u8,
                Some(d) => (d + 1) as u8,
            },
            (self.x_preload_dist + 1) as u8,
            if self.store_to_tmp {
                1u8
            } else {
                self.rowblock_size
            },
        ]
    }

    /// The unrolled-kernel count the configuration implies, when it is
    /// computable.
    pub closed spec fn spec_n_kernels(&self) -> Option<int> {
        if self.move_reg {
            Some(1int)
        } else {
            crate::tools::spec_lcm_partial(self.spec_groups())
        }
    }

    fn n_kernels_unrolled(&self) -> (r: Result<u8, GenerateError>)
        ensures
            self.move_reg ==> r == Ok::<u8, GenerateError>(1),
            !self.move_reg && self.spec_dist_overflow() ==> r == Err::<u8, GenerateError>(
                GenerateError::UnsupportedConfiguration,
            ),
            !self.move_reg && !self.spec_dist_overflow() ==> match self.spec_n_kernels() {
                Some(v) => r matches Ok(n) && n as int == v,
                None => r == Err::<u8, GenerateError>(GenerateError::IllegalUnrollFactor),
            },
    {
        if self.move_reg {
            return Ok(1);
        }
        if self.col_preload_dist == 255 || self.x_preload_dist == 255 {
            return Err(GenerateError::UnsupportedConfiguration);
        }
        let col_groups: u8 = self.col_preload_dist + 1;
        let val_groups: u8 = match self.val_preload_dist {
            None => 0,
            Some(d) => {
                if d == 255 {
                    return Err(GenerateError::UnsupportedConfiguration);
                }
                d + 1
            },
        };
        let x_groups: u8 = self.x_preload_dist + 1;
        let res_groups: u8 = if self.store_to_tmp {
            1
        } else {
            self.rowblock_size
        };
        let mut groups: Vec<u8> = Vec::new();
        groups.push(col_groups);
        groups.push(val_groups);
        groups.push(x_groups);
        groups.push(res_groups);
        proof {
            assert(groups@ =~= self.spec_groups());
        }
        match tools::lcm_checked(groups.as_slice()) {
            Some(n) => Ok(n),
            None => Err(GenerateError::IllegalUnrollFactor),
        }
    }

    /// Whether the row-block size is evenly divisible by the computed
    /// unrolled-kernel count.
    pub closed spec fn spec_unroll_divides(&self) -> bool {
        match self.spec_n_kernels() {
            Some(n) => n > 0 && (self.rowblock_size as int) % n == 0,
            None => false,
        }
    }

    fn kernels_iter(&self) -> (r: Result<u8, GenerateError>)
        ensures
            !self.move_reg && self.spec_dist_overflow() ==> r == Err::<u8, GenerateError>(
                GenerateError::UnsupportedConfiguration,
            ),
            (self.move_reg || !self.spec_dist_overflow()) && !self.spec_unroll_divides() ==> r
                == Err::<u8, GenerateError>(GenerateError::IllegalUnrollFactor),
            self.spec_unroll_divides() && (self.move_reg || !self.spec_dist_overflow())
                ==> match self.spec_n_kernels() {
                Some(n) => r matches Ok(k) && k as int == self.rowblock_size as int / n,
                None => false,
            },
    {
        let n = match self.n_kernels_unrolled() {
            Ok(n) => n,
            Err(e) => {
                return Err(e);
            },
        };
        if n == 0 || self.rowblock_size % n != 0 {
            return Err(GenerateError::IllegalUnrollFactor);
        }
        Ok(self.rowblock_size / n)
    }
}

impl Generator {
    /// The single seed token that starts the phase chain.
    pub closed spec fn spec_initial_states(&self) -> Seq<State> {
        seq![State { id: PRELOADING, idx: 0, reg: 0 }]
    }
}

impl Generator {
    pub closed spec fn spec_calc_ax(&self) -> bool {
        self.action == Action::AssignPosAx || self.action == Action::AssignNegAx
    }

    pub closed spec fn spec_bpr(&self) -> int {
        if self.spec_calc_ax() {
            4
        } else {
            2
        }
    }

    pub closed spec fn spec_col_need(&self) -> int {
        self.spec_bpr() * (self.col_preload_dist as int + 1)
    }

    pub closed spec fn spec_val_need(&self) -> int {
        match self.val_preload_dist {
            None => 0,
            Some(d) => self.spec_bpr() * (d as int + 1),
        }
    }

    pub closed spec fn spec_x_need(&self) -> int {
        self.spec_bpr() * (self.x_preload_dist as int + 1)
    }

    pub closed spec fn spec_res_need(&self) -> int {
        if self.store_to_tmp {
            1
        } else {
            self.rowblock_size as int
        }
    }

    /// Whether slot `i` belongs to one of the reserved preload or
    /// accumulator windows.
    pub closed spec fn spec_occupied(&self, i: int) -> bool {
        let col_e = self.spec_col_need();
        let res_e = col_e + self.spec_res_need();
        let x_e = res_e + self.spec_x_need();
        ||| 0 <= i < col_e
        ||| col_e <= i < res_e
        ||| res_e <= i < x_e
        ||| (self.spec_val_need() > 0 && x_e <= i < x_e + self.spec_val_need())
    }
}

impl Generate for Generator {
    open spec fn nesting(&self) -> nat {
        1
    }

    open spec fn wf(&self) -> bool {
        self.spec_width_supported()
    }

    open spec fn spec_rulebook(&self) -> Seq<Rule> {
        seq![
            Rule { condition: Condition::Single { id: PRELOADING } },
            Rule { condition: Condition::Single { id: INSERTING_GAP } },
            Rule { condition: Condition::Single { id: PREKERNELING } },
            Rule { condition: Condition::Single { id: KERNELING } },
            Rule { condition: Condition::SameId { id: KERNELED, n_states: 2, idx_dist: 1 } },
            Rule { condition: Condition::Single { id: KERNELED } },
            Rule { condition: Condition::Single { id: POSTKERNELING } },
            Rule { condition: Condition::Single { id: ACCUMULATING } },
            Rule { condition: Condition::Single { id: ENDING } },
        ]
    }

    fn rulebook(&self) -> (r: Vec<Rule>) {
        let mut v: Vec<Rule> = Vec::new();
        v.push(Rule { condition: Condition::Single { id: PRELOADING } });
        v.push(Rule { condition: Condition::Single { id: INSERTING_GAP } });
        v.push(Rule { condition: Condition::Single { id: PREKERNELING } });
        v.push(Rule { condition: Condition::Single { id: KERNELING } });
        v.push(Rule { condition: Condition::SameId { id: KERNELED, n_states: 2, idx_dist: 1 } });
        v.push(Rule { condition: Condition::Single { id: KERNELED } });
        v.push(Rule { condition: Condition::Single { id: POSTKERNELING } });
        v.push(Rule { condition: Condition::Single { id: ACCUMULATING } });
        v.push(Rule { condition: Condition::Single { id: ENDING } });
        proof {
            assert(v@ =~= self.spec_rulebook());
        }
        v
    }

    fn avail_registers(&self) -> (r: [bool; 32])
        ensures
            forall|i: int| 0 <= i < 32 ==> r@[i] == !self.spec_occupied(i),
    {
        let mut arr = [true;32];
        let col = self.col_se();
        let x = self.x_se();
        let res = self.res_se();
        let mut i: u32 = 0;
        while i < 32
            invariant
                i <= 32,
                arr@.len() == 32,
                col.0 == 0 && col.1 as int == self.spec_col_need(),
                res.0 as int == self.spec_col_need() && res.1 as int == self.spec_col_need()
                    + self.spec_res_need(),
                x.0 as int == res.1 as int && x.1 as int == res.1 as int + self.spec_x_need(),
                forall|j: int| 0 <= j < i ==> arr@[j] == !self.spec_occupied(j),
                forall|j: int| i <= j < 32 ==> arr@[j],
            decreases 32 - i,
        {
            let occupied = (col.0 <= i && i < col.1) || (x.0 <= i && i < x.1) || (res.0 <= i && i
                < res.1);
            let val_occupied = match self.val_se() {
                None => false,
                Some(se) => se.0 <= i && i < se.1,
            };
            if occupied || val_occupied {
                arr.set(i as usize, false);
            }
            i += 1;
        }
        arr
    }

    fn initial_states(&self) -> (r: Vec<State>)
        ensures
            r@ == self.spec_initial_states(),
    {
        let mut states: Vec<State> = Vec::new();
        states.push(State { id: PRELOADING, idx: 0, reg: 0 });
        proof {
            assert(states@ =~= self.spec_initial_states());
        }
        states
    }

    fn transform(&self, rule: usize, pool: &mut RegisterPool, matched: &Vec<State>) -> (r: Result<
        (Assembly, Vec<State>),
        GenerateError,
    >) {
        if rule == 0 {
            // Preload the first rows of every stream.
            let col_reg_s = self.col_se().0;
            let x_reg_s = self.x_se().0;
            let val_reg_s = match self.val_se() {
                None => None,
                Some(se) => {
                    if se.0 > 255 {
                        return Err(GenerateError::RegisterOverflow);
                    }
                    Some(se.0 as u8)
                },
            };
            if col_reg_s > 255 || x_reg_s > 255 {
                return Err(GenerateError::RegisterOverflow);
            }
            let preload_generator = microkernel::PreloadGenerator::new(
                0,
                self.col_stride(),
                self.col_offset(),
                self.col_preload_dist,
                col_reg_s as u8,
                self.col_name,
                0,
                self.val_stride(),
                self.val_offset(),
                match self.val_preload_dist {
                    Some(d) => d,
                    None => 0,
                },
                val_reg_s,
                self.val_name,
                self.x_preload_dist,
                x_reg_s as u8,
                self.x_name,
                self.direction,
                self.blocks_per_row(),
            );
            let out = match preload_generator.generate() {
                Ok(a) => a,
                Err(e) => {
                    return Err(e);
                },
            };
            let mut states: Vec<State> = Vec::new();
            states.push(State { id: INSERTING_GAP, idx: 0, reg: 0 });
            Ok((out.empty_line(), states))
        } else if rule == 1 {
            let out = if self.nops == 0 {
                Assembly::new()
            } else {
                Assembly::new().nop(self.nops)
            };
            let mut states: Vec<State> = Vec::new();
            states.push(State { id: PREKERNELING, idx: 0, reg: 0 });
            Ok((out, states))
        } else if rule == 2 {
            let inner_iter = match self.kernels_iter() {
                Ok(k) => k,
                Err(e) => {
                    return Err(e);
                },
            };
            let iteration_type = IterationType::DynamicIter {
                rowblock_size: self.rowblock_size,
                inner_iter,
            };
            let prekernel_generator = microkernel::PrekernelGenerator::new(
                iteration_type,
                self.nrow_name,
                self.cnt_name,
                self.loop_name,
            );
            let out = match prekernel_generator.generate() {
                Ok(a) => a,
                Err(e) => {
                    return Err(e);
                },
            };
            let n = match self.n_kernels_unrolled() {
                Ok(n) => n,
                Err(e) => {
                    return Err(e);
                },
            };
            if n > 32 {
                // More unrolled kernels than lanes cannot be seeded.
                return Err(GenerateError::UnsupportedConfiguration);
            }
            let mut states: Vec<State> = Vec::new();
            let mut i: u8 = 0;
            while i < n
                invariant
                    i <= n,
                decreases n - i,
            {
                states.push(State { id: KERNELING, idx: i, reg: 0 });
                i += 1;
            }
            Ok((out.empty_line(), states))
        } else if rule == 3 {
            // One unrolled kernel body.
            let kernel_idx = matched[0].idx;
            let col = self.col_se();
            let col_ls = match self.stream_ls(col.0, col.1, kernel_idx) {
                Ok(p) => p,
                Err(e) => {
                    return Err(e);
                },
            };
            let x = self.x_se();
            let x_ls = match self.stream_ls(x.0, x.1, kernel_idx) {
                Ok(p) => p,
                Err(e) => {
                    return Err(e);
                },
            };
            let val_ls = match self.val_se() {
                None => None,
                Some(se) => {
                    match self.stream_ls(se.0, se.1, kernel_idx) {
                        Ok(p) => {
                            if p.0 > 255 || p.1 > 255 {
                                return Err(GenerateError::RegisterOverflow);
                            }
                            Some((p.0 as u8, p.1 as u8))
                        },
                        Err(e) => {
                            return Err(e);
                        },
                    }
                },
            };
            let res = self.res_se();
            if col_ls.0 > 255 || col_ls.1 > 255 || x_ls.0 > 255 || x_ls.1 > 255 || res.0 > 255
                || res.1 > 255 {
                return Err(GenerateError::RegisterOverflow);
            }
            let n = match self.n_kernels_unrolled() {
                Ok(n) => n,
                Err(e) => {
                    return Err(e);
                },
            };
            let kernel_generator = microkernel::KernelGenerator::new(
                self.negate(),
                self.col_stride(),
                self.col_offset(),
                self.col_prefetch_info,
                (col_ls.0 as u8, col_ls.1 as u8),
                self.col_name,
                self.val_stride(),
                self.val_offset(),
                self.val_prefetch_info,
                val_ls,
                self.val_name,
                (x_ls.0 as u8, x_ls.1 as u8),
                self.x_name,
                (res.0 as u8, res.1 as u8),
                self.tmp_offset(),
                self.tmp_name,
                kernel_idx,
                n,
                self.direction,
                self.blocks_per_row(),
                self.store_to_tmp,
                self.move_reg,
                self.move_base,
            );
            let out = match kernel_generator.generate() {
                Ok(a) => a,
                Err(e) => {
                    return Err(e);
                },
            };
            let mut states: Vec<State> = Vec::new();
            states.push(State { id: KERNELED, idx: kernel_idx, reg: 0 });
            Ok((out.empty_line(), states))
        } else if rule == 4 {
            let idx = matched[1].idx;
            let mut states: Vec<State> = Vec::new();
            states.push(State { id: KERNELED, idx, reg: 0 });
            Ok((Assembly::new(), states))
        } else if rule == 5 {
            let mut states: Vec<State> = Vec::new();
            states.push(State { id: POSTKERNELING, idx: 0, reg: 0 });
            Ok((Assembly::new(), states))
        } else if rule == 6 {
            let n = match self.n_kernels_unrolled() {
                Ok(n) => n,
                Err(e) => {
                    return Err(e);
                },
            };
            let inner_iter = match self.kernels_iter() {
                Ok(k) => k,
                Err(e) => {
                    return Err(e);
                },
            };
            let move_base = if self.move_base {
                None
            } else {
                Some(n)
            };
            let move_base_tmp = if !self.move_base && self.store_to_tmp {
                Some(n)
            } else {
                None
            };
            let restore_tmp = if self.store_to_tmp {
                Some(self.rowblock_size)
            } else {
                None
            };
            let decrease_cnt = inner_iter > 1;
            let postkernel_generator = match microkernel::PostkernelGenerator::new(
                self.direction,
                move_base,
                self.col_stride(),
                self.col_name,
                self.val_stride(),
                self.val_name,
                move_base_tmp,
                self.tmp_name,
                restore_tmp,
                decrease_cnt,
                self.cnt_name,
                self.loop_name,
            ) {
                Ok(g) => g,
                Err(e) => {
                    return Err(e);
                },
            };
            let out = match postkernel_generator.generate() {
                Ok(a) => a,
                Err(e) => {
                    return Err(e);
                },
            };
            let mut states: Vec<State> = Vec::new();
            states.push(State { id: ACCUMULATING, idx: 0, reg: 0 });
            Ok((out.empty_line(), states))
        } else if rule == 7 {
            // Reduce the accumulators; the final preload window of every
            // stream is free for scratch use.
            let bpr = self.blocks_per_row() as u32;
            let mut avail: [bool; 32] = *pool.avail_list();
            let col_e = self.col_se().1;
            let x_e = self.x_se().1;
            let mut i: u32 = 0;
            while i < bpr
                invariant
                    i <= bpr,
                decreases bpr - i,
            {
                if col_e >= bpr && col_e - bpr + i < 32 {
                    avail.set((col_e - bpr + i) as usize, true);
                }
                if x_e >= bpr && x_e - bpr + i < 32 {
                    avail.set((x_e - bpr + i) as usize, true);
                }
                match self.val_se() {
                    None => {},
                    Some(se) => {
                        if se.1 >= bpr && se.1 - bpr + i < 32 {
                            avail.set((se.1 - bpr + i) as usize, true);
                        }
                    },
                }
                i += 1;
            }
            let res = self.res_se();
            if res.0 > 255 || res.1 > 255 {
                return Err(GenerateError::RegisterOverflow);
            }
            let accumulate_generator = match accumulate::Generator::new(
                self.y_name,
                self.cnt_name,
                (res.0 as u8, res.1 as u8),
                self.store_to_tmp,
                self.tmp_offset(),
                self.tmp_name,
                "",
                "",
                "",
                accumulate::Action::Move,
                self.rowblock_size,
                avail,
                self.diag_status(),
            ) {
                Ok(g) => g,
                Err(e) => {
                    return Err(e);
                },
            };
            let out = match accumulate_generator.generate() {
                Ok(a) => a,
                Err(e) => {
                    return Err(e);
                },
            };
            let mut states: Vec<State> = Vec::new();
            states.push(State { id: ENDING, idx: 0, reg: 0 });
            Ok((out.empty_line(), states))
        } else {
            let inner_iter = match self.kernels_iter() {
                Ok(k) => k,
                Err(e) => {
                    return Err(e);
                },
            };
            let initial_cnt = if inner_iter == 0 || inner_iter == 1 {
                None
            } else {
                Some(inner_iter)
            };
            let moved: i32 = 8 * self.rowblock_size as i32;
            let y_offset = match fit_i16(
                match self.direction {
                    Direction::Forward => moved,
                    Direction::Backward => -moved,
                },
            ) {
                Ok(v) => v,
                Err(e) => {
                    return Err(e);
                },
            };
            let end_generator = end::Generator::new(
                initial_cnt,
                self.cnt_name,
                y_offset,
                self.y_name,
                self.nrow_name,
                self.loop_name,
            );
            let out = match end_generator.generate() {
                Ok(a) => a,
                Err(e) => {
                    return Err(e);
                },
            };
            Ok((out, Vec::new()))
        }
    }
}

impl Generator {
    /// Whether the row-block width has a complete reduction path.
    pub closed spec fn spec_width_supported(&self) -> bool {
        self.rowblock_size == 1 || self.rowblock_size == 8
    }

    /// Validates the configuration and runs the fixpoint driver: row-block
    /// widths without a complete reduction path are rejected here, as is a
    /// row-block size the unrolled-kernel count does not divide.
    pub fn generate(&self) -> (r: Result<Assembly, GenerateError>)
        ensures
            !self.spec_width_supported() ==> r == Err::<Assembly, GenerateError>(
                GenerateError::UnsupportedConfiguration,
            ),
            self.spec_width_supported() && !self.spec_move_reg() && self.spec_dist_overflow()
                ==> r == Err::<Assembly, GenerateError>(GenerateError::UnsupportedConfiguration),
            self.spec_width_supported() && (self.spec_move_reg() || !self.spec_dist_overflow())
                && !self.spec_unroll_divides() ==> r == Err::<Assembly, GenerateError>(
                GenerateError::IllegalUnrollFactor,
            ),
            r matches Ok(out) ==> out@.wf() && spec_complete_run(
                self.spec_rulebook(),
                spec_insert_all(spec_empty_store(), self.spec_initial_states()),
                out@,
            ),
            self.spec_initial_states().len() == 0 ==> (r matches Ok(out) && out@
                == spec_empty_assembly()),
        decreases self.nesting(), 2nat,
    {
        if !(self.rowblock_size == 1 || self.rowblock_size == 8) {
            return Err(GenerateError::UnsupportedConfiguration);
        }
        match self.kernels_iter() {
            Ok(_) => {},
            Err(e) => {
                return Err(e);
            },
        }
        let mut pool = RegisterPool::new(self.avail_registers());
        let seeds = self.initial_states();
        let ghost seed_store = spec_insert_all(spec_empty_store(), seeds@);
        proof {
            if self.spec_initial_states().len() == 0 {
                assert(seeds@ =~= Seq::<State>::empty());
                assert(seed_store == spec_empty_store());
                assert(spec_store_empty(seed_store));
            }
        }
        let mut mgr = match StateManager::new(seeds) {
            Ok(m) => m,
            Err(e) => {
                return Err(e);
            },
        };
        match drive(self, &mut pool, &mut mgr) {
            Ok(out) => {
                proof {
                    let trace = choose|trace: Seq<Firing>|
                        spec_run(self.spec_rulebook(), seed_store, trace, mgr@) && out@
                            == spec_run_output(trace);
                    assert(spec_run(self.spec_rulebook(), seed_store, trace, mgr@));
                    assert(out@ == spec_run_output(trace));
                }
                Ok(out)
            },
            Err(e) => Err(e),
        }
    }
}

} // verus!
