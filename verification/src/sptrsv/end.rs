//! The tail of the triangular-solve loop: advance the solution, product
//! and diagonal pointers, advance the residual pointer, reset the inner
//! counter, decrement the row counter and jump back.

use vstd::prelude::*;

use crate::Assembly;
use crate::Condition;
use crate::Generate;
use crate::GenerateError;
use crate::RegisterPool;
use crate::Rule;
use crate::State;
use crate::StateManager;
use crate::drive;
use crate::Firing;
use crate::spec_complete_run;
use crate::spec_empty_assembly;
use crate::spec_empty_store;
use crate::spec_insert_all;
use crate::spec_run;
use crate::spec_store_empty;
use crate::spec_run_output;
use crate::microkernel::Direction;

verus! {

pub const MOVING_XPD: u32 = 0;
pub const MOVING_R: u32 = 1;
pub const INITIALIZING_CNT: u32 = 2;
pub const DECREASING_NROW: u32 = 3;
pub const DECREASING_CNT: u32 = 4;
pub const JUMPING: u32 = 5;

pub struct Generator {
    xpd_offset: Option<i16>,
    r_offset: Option<i16>,
    x_name: &'static str,
    p_name: &'static str,
    d_name: &'static str,
    r_name: &'static str,
    init_cnt: Option<u8>,
    decrease_nrow: bool,
    nrow_name: &'static str,
    cnt_name: &'static str,
    loop_name: &'static str,
}

impl Generator {
    pub fn new(
        direction: Direction,
        rowblock_size: u8,
        dynamic_inner_iter: Option<u8>,
        x_name: &'static str,
        p_name: &'static str,
        d_name: &'static str,
        r_name: &'static str,
        nrow_name: &'static str,
        cnt_name: &'static str,
        loop_name: &'static str,
    ) -> (r: Self)
        ensures
            r.wf(),
    {
        let step: i16 = 8 * rowblock_size as i16;
        let xpd_offset = match direction {
            Direction::Forward => Some(step),
            Direction::Backward => None,
        };
        let r_offset = match direction {
            Direction::Forward => Some(step),
            Direction::Backward => None,
        };
        let (init_cnt, decrease_nrow) = match dynamic_inner_iter {
            Some(iter) => if iter > 1 {
                (Some(iter), true)
            } else {
                (None, true)
            },
            None => (None, false),
        };
        Generator {
            xpd_offset,
            r_offset,
            x_name,
            p_name,
            d_name,
            r_name,
            init_cnt,
            decrease_nrow,
            nrow_name,
            cnt_name,
            loop_name,
        }
    }
}

impl Generator {
    /// The seed tokens: the optional pointer moves and counter setup, the
    /// configured decrement, and the jump.
    pub closed spec fn spec_initial_states(&self) -> Seq<State> {
        (if self.xpd_offset is Some {
            seq![State { id: MOVING_XPD, idx: 0, reg: 0 }]
        } else {
            Seq::<State>::empty()
        }) + (if self.r_offset is Some {
            seq![State { id: MOVING_R, idx: 0, reg: 0 }]
        } else {
            Seq::<State>::empty()
        }) + (if self.init_cnt is Some {
            seq![State { id: INITIALIZING_CNT, idx: 0, reg: 0 }]
        } else {
            Seq::<State>::empty()
        }) + (if self.decrease_nrow {
            seq![State { id: DECREASING_NROW, idx: 0, reg: 0 }]
        } else {
            seq![State { id: DECREASING_CNT, idx: 0, reg: 0 }]
        }) + seq![State { id: JUMPING, idx: 0, reg: 0 }]
    }
}

impl Generate for Generator {
    open spec fn nesting(&self) -> nat {
        0
    }

    open spec fn wf(&self) -> bool {
        true
    }

    open spec fn spec_rulebook(&self) -> Seq<Rule> {
        seq![
            Rule { condition: Condition::Single { id: MOVING_XPD } },
            Rule { condition: Condition::Single { id: MOVING_R } },
            Rule { condition: Condition::Single { id: INITIALIZING_CNT } },
            Rule { condition: Condition::Single { id: DECREASING_NROW } },
            Rule { condition: Condition::Single { id: DECREASING_CNT } },
            Rule { condition: Condition::Single { id: JUMPING } },
        ]
    }

    fn rulebook(&self) -> (r: Vec<Rule>) {
        let mut v: Vec<Rule> = Vec::new();
        v.push(Rule { condition: Condition::Single { id: MOVING_XPD } });
        v.push(Rule { condition: Condition::Single { id: MOVING_R } });
        v.push(Rule { condition: Condition::Single { id: INITIALIZING_CNT } });
        v.push(Rule { condition: Condition::Single { id: DECREASING_NROW } });
        v.push(Rule { condition: Condition::Single { id: DECREASING_CNT } });
        v.push(Rule { condition: Condition::Single { id: JUMPING } });
        proof {
            assert(v@ =~= self.spec_rulebook());
        }
        v
    }

    fn avail_registers(&self) -> (r: [bool; 32])
        ensures
            forall|i: int| 0 <= i < 32 ==> !r@[i],
    {
        [false;32]
    }

    fn initial_states(&self) -> (r: Vec<State>)
        ensures
            r@ == self.spec_initial_states(),
    {
        let mut states: Vec<State> = Vec::new();
        if self.xpd_offset.is_some() {
            states.push(State { id: MOVING_XPD, idx: 0, reg: 0 });
        }
        if self.r_offset.is_some() {
            states.push(State { id: MOVING_R, idx: 0, reg: 0 });
        }
        if self.init_cnt.is_some() {
            states.push(State { id: INITIALIZING_CNT, idx: 0, reg: 0 });
        }
        if self.decrease_nrow {
            states.push(State { id: DECREASING_NROW, idx: 0, reg: 0 });
        } else {
            states.push(State { id: DECREASING_CNT, idx: 0, reg: 0 });
        }
        states.push(State { id: JUMPING, idx: 0, reg: 0 });
        proof {
            assert(states@ =~= self.spec_initial_states());
        }
        states
    }

    fn transform(&self, rule: usize, _pool: &mut RegisterPool, _matched: &Vec<State>) -> (r: Result<
        (Assembly, Vec<State>),
        GenerateError,
    >) {
        if rule == 0 {
            let offset = match self.xpd_offset {
                Some(o) => o,
                None => {
                    return Err(GenerateError::UnsupportedConfiguration);
                },
            };
            let out = Assembly::new().add_immediate(self.x_name, offset).add_immediate(
                self.p_name,
                offset,
            ).add_immediate(self.d_name, offset);
            Ok((out, Vec::new()))
        } else if rule == 1 {
            let offset = match self.r_offset {
                Some(o) => o,
                None => {
                    return Err(GenerateError::UnsupportedConfiguration);
                },
            };
            let out = Assembly::new().add_immediate(self.r_name, offset);
            Ok((out, Vec::new()))
        } else if rule == 2 {
            let cnt = match self.init_cnt {
                Some(c) => c,
                None => {
                    return Err(GenerateError::UnsupportedConfiguration);
                },
            };
            let out = Assembly::new().set_immediate(self.cnt_name, cnt as i16);
            Ok((out, Vec::new()))
        } else if rule == 3 {
            let out = Assembly::new().sub_immediate(self.nrow_name, 0x1);
            Ok((out, Vec::new()))
        } else if rule == 4 {
            let out = Assembly::new().sub_immediate(self.cnt_name, 0x1);
            Ok((out, Vec::new()))
        } else {
            let out = Assembly::new().jump_nz(self.loop_name);
            Ok((out, Vec::new()))
        }
    }
}

impl Generator {
    /// Runs the fixpoint driver over this generator's rulebook.
    pub fn generate(&self) -> (r: Result<Assembly, GenerateError>)
        ensures
            r matches Ok(out) ==> out@.wf() && spec_complete_run(
                self.spec_rulebook(),
                spec_insert_all(spec_empty_store(), self.spec_initial_states()),
                out@,
            ),
            self.spec_initial_states().len() == 0 ==> (r matches Ok(out) && out@
                == spec_empty_assembly()),
        decreases self.nesting(), 2nat,
    {
        let mut pool = RegisterPool::new(self.avail_registers());
        let seeds = self.initial_states();
        let ghost seed_store = spec_insert_all(spec_empty_store(), seeds@);
        proof {
            if self.spec_initial_states().len() == 0 {
                assert(seeds@ =~= Seq::<State>::empty());
                assert(seed_store == spec_empty_store());
                assert(spec_store_empty(seed_store));
            }
        }
        let mut mgr = match StateManager::new(seeds) {
            Ok(m) => m,
            Err(e) => {
                return Err(e);
            },
        };
        match drive(self, &mut pool, &mut mgr) {
            Ok(out) => {
                proof {
                    let trace = choose|trace: Seq<Firing>|
                        spec_run(self.spec_rulebook(), seed_store, trace, mgr@) && out@
                            == spec_run_output(trace);
                    assert(spec_run(self.spec_rulebook(), seed_store, trace, mgr@));
                    assert(out@ == spec_run_output(trace));
                }
                Ok(out)
            },
            Err(e) => Err(e),
        }
    }
}

} // verus!
