//! The loop epilogue: advance the column/value base pointers, rewind the
//! staging buffer, decrement the iteration counter and jump back.

use vstd::prelude::*;

use crate::Assembly;
use crate::Condition;
use crate::Generate;
use crate::GenerateError;
use crate::RegisterPool;
use crate::Rule;
use crate::State;
use crate::StateManager;
use crate::drive;
use crate::Firing;
use crate::spec_complete_run;
use crate::spec_empty_assembly;
use crate::spec_empty_store;
use crate::spec_insert_all;
use crate::spec_run;
use crate::spec_store_empty;
use crate::spec_run_output;
use crate::fit_i16;
use crate::mul_small;
use crate::microkernel::Direction;

verus! {

pub const MOVING_BASE_CV: u32 = 0;
pub const MOVING_BASE_TMP: u32 = 1;
pub const DECREASING_CNT: u32 = 2;
pub const JUMPING: u32 = 3;
pub const RESTORING_TMP: u32 = 4;

pub struct Generator {
    move_base_cv: Option<(i16, i16)>,
    col_name: &'static str,
    val_name: &'static str,
    move_base_tmp: Option<i16>,
    tmp_name: &'static str,
    decrease_cnt: bool,
    cnt_name: &'static str,
    loop_name: &'static str,
    restore_tmp: Option<i16>,
}

impl Generator {
    /// Builds the epilogue.  The advanced row count times each stride must
    /// fit the signed 16-bit displacement range.
    pub fn new(
        direction: Direction,
        move_base: Option<u8>,
        col_stride: u16,
        col_name: &'static str,
        val_stride: u16,
        val_name: &'static str,
        move_base_tmp: Option<u8>,
        tmp_name: &'static str,
        restore_tmp: Option<u8>,
        decrease_cnt: bool,
        cnt_name: &'static str,
        loop_name: &'static str,
    ) -> (r: Result<Self, GenerateError>)
        ensures
            r is Err <==> ((move_base matches Some(row) && (row * col_stride > 32767 || row
                * val_stride > 32767)) || (move_base_tmp matches Some(row) && row * 64 > 32767) || (
            restore_tmp matches Some(row) && row * 64 > 32767)),
            r matches Err(e) ==> e == GenerateError::UnsupportedConfiguration,
            r matches Ok(g) ==> g.wf(),
    {
        let move_base_cv = match move_base {
            None => None,
            Some(row) => {
                let col_moved = mul_small(row as u32, col_stride);
                let val_moved = mul_small(row as u32, val_stride);
                if col_moved > 32767 || val_moved > 32767 {
                    return Err(GenerateError::UnsupportedConfiguration);
                }
                let (col_offset, val_offset): (i16, i16) = match direction {
                    Direction::Forward => (col_moved as i16, val_moved as i16),
                    Direction::Backward => (-(col_moved as i16), -(val_moved as i16)),
                };
                Some((col_offset, val_offset))
            },
        };
        let move_base_tmp = match move_base_tmp {
            None => None,
            Some(row) => {
                match fit_i16(row as i32 * 64) {
                    Ok(x) => Some(x),
                    Err(e) => {
                        return Err(e);
                    },
                }
            },
        };
        let restore_tmp = match restore_tmp {
            None => None,
            Some(row) => {
                match fit_i16(row as i32 * -64) {
                    Ok(x) => Some(x),
                    Err(e) => {
                        return Err(e);
                    },
                }
            },
        };
        Ok(
            Generator {
                move_base_cv,
                col_name,
                val_name,
                move_base_tmp,
                tmp_name,
                decrease_cnt,
                cnt_name,
                loop_name,
                restore_tmp,
            },
        )
    }
}

impl Generator {
    /// The seed tokens: one per configured epilogue step, in emission
    /// order.
    pub closed spec fn spec_initial_states(&self) -> Seq<State> {
        (if self.move_base_cv is Some {
            seq![State { id: MOVING_BASE_CV, idx: 0, reg: 0 }]
        } else {
            Seq::<State>::empty()
        }) + (if self.move_base_tmp is Some {
            seq![State { id: MOVING_BASE_TMP, idx: 0, reg: 0 }]
        } else {
            Seq::<State>::empty()
        }) + (if self.decrease_cnt {
            seq![State { id: DECREASING_CNT, idx: 0, reg: 0 }]
        } else {
            Seq::<State>::empty()
        }) + (if self.restore_tmp is Some {
            seq![State { id: RESTORING_TMP, idx: 0, reg: 0 }]
        } else {
            Seq::<State>::empty()
        })
    }
}

impl Generate for Generator {
    open spec fn nesting(&self) -> nat {
        0
    }

    open spec fn wf(&self) -> bool {
        true
    }

    open spec fn spec_rulebook(&self) -> Seq<Rule> {
        seq![
            Rule { condition: Condition::Single { id: MOVING_BASE_CV } },
            Rule { condition: Condition::Single { id: MOVING_BASE_TMP } },
            Rule { condition: Condition::Single { id: DECREASING_CNT } },
            Rule { condition: Condition::Single { id: JUMPING } },
            Rule { condition: Condition::Single { id: RESTORING_TMP } },
        ]
    }

    fn rulebook(&self) -> (r: Vec<Rule>) {
        let mut v: Vec<Rule> = Vec::new();
        v.push(Rule { condition: Condition::Single { id: MOVING_BASE_CV } });
        v.push(Rule { condition: Condition::Single { id: MOVING_BASE_TMP } });
        v.push(Rule { condition: Condition::Single { id: DECREASING_CNT } });
        v.push(Rule { condition: Condition::Single { id: JUMPING } });
        v.push(Rule { condition: Condition::Single { id: RESTORING_TMP } });
        proof {
            assert(v@ =~= self.spec_rulebook());
        }
        v
    }

    fn avail_registers(&self) -> (r: [bool; 32])
        ensures
            forall|i: int| 0 <= i < 32 ==> !r@[i],
    {
        [false;32]
    }

    fn initial_states(&self) -> (r: Vec<State>)
        ensures
            r@ == self.spec_initial_states(),
    {
        let mut states: Vec<State> = Vec::new();
        if self.move_base_cv.is_some() {
            states.push(State { id: MOVING_BASE_CV, idx: 0, reg: 0 });
        }
        if self.move_base_tmp.is_some() {
            states.push(State { id: MOVING_BASE_TMP, idx: 0, reg: 0 });
        }
        if self.decrease_cnt {
            states.push(State { id: DECREASING_CNT, idx: 0, reg: 0 });
        }
        if self.restore_tmp.is_some() {
            states.push(State { id: RESTORING_TMP, idx: 0, reg: 0 });
        }
        proof {
            assert(states@ =~= self.spec_initial_states());
        }
        states
    }

    fn transform(&self, rule: usize, _pool: &mut RegisterPool, _matched: &Vec<State>) -> (r: Result<
        (Assembly, Vec<State>),
        GenerateError,
    >) {
        if rule == 0 {
            let (col_offset, val_offset) = match self.move_base_cv {
                Some(p) => p,
                None => {
                    return Err(GenerateError::UnsupportedConfiguration);
                },
            };
            let out = Assembly::new().add_immediate(self.col_name, col_offset).add_immediate(
                self.val_name,
                val_offset,
            );
            Ok((out, Vec::new()))
        } else if rule == 1 {
            let tmp_offset = match self.move_base_tmp {
                Some(x) => x,
                None => {
                    return Err(GenerateError::UnsupportedConfiguration);
                },
            };
            let out = Assembly::new().add_immediate(self.tmp_name, tmp_offset);
            Ok((out, Vec::new()))
        } else if rule == 2 {
            let out = Assembly::new().sub_immediate(self.cnt_name, 0x1);
            let mut states: Vec<State> = Vec::new();
            states.push(State { id: JUMPING, idx: 0, reg: 0 });
            Ok((out, states))
        } else if rule == 3 {
            let out = Assembly::new().jump_nz(self.loop_name);
            Ok((out, Vec::new()))
        } else {
            let tmp_offset = match self.restore_tmp {
                Some(x) => x,
                None => {
                    return Err(GenerateError::UnsupportedConfiguration);
                },
            };
            if tmp_offset == i16::MIN {
                return Err(GenerateError::UnsupportedConfiguration);
            }
            let out = Assembly::new().sub_immediate(self.tmp_name, -tmp_offset);
            Ok((out, Vec::new()))
        }
    }
}

impl Generator {
    /// Runs the fixpoint driver over this generator's rulebook.
    pub fn generate(&self) -> (r: Result<Assembly, GenerateError>)
        ensures
            r matches Ok(out) ==> out@.wf() && spec_complete_run(
                self.spec_rulebook(),
                spec_insert_all(spec_empty_store(), self.spec_initial_states()),
                out@,
            ),
            self.spec_initial_states().len() == 0 ==> (r matches Ok(out) && out@
                == spec_empty_assembly()),
        decreases self.nesting(), 2nat,
    {
        let mut pool = RegisterPool::new(self.avail_registers());
        let seeds = self.initial_states();
        let ghost seed_store = spec_insert_all(spec_empty_store(), seeds@);
        proof {
            if self.spec_initial_states().len() == 0 {
                assert(seeds@ =~= Seq::<State>::empty());
                assert(seed_store == spec_empty_store());
                assert(spec_store_empty(seed_store));
            }
        }
        let mut mgr = match StateManager::new(seeds) {
            Ok(m) => m,
            Err(e) => {
                return Err(e);
            },
        };
        match drive(self, &mut pool, &mut mgr) {
            Ok(out) => {
                proof {
                    let trace = choose|trace: Seq<Firing>|
                        spec_run(self.spec_rulebook(), seed_store, trace, mgr@) && out@
                            == spec_run_output(trace);
                    assert(spec_run(self.spec_rulebook(), seed_store, trace, mgr@));
                    assert(out@ == spec_run_output(trace));
                }
                Ok(out)
            },
            Err(e) => Err(e),
        }
    }
}

} // verus!
