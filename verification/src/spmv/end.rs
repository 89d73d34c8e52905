//! The tail of the matrix-vector product loop: advance the result pointer,
//! reset the inner counter, decrement the row counter and jump back.

use vstd::prelude::*;

use crate::Assembly;
use crate::Condition;
use crate::Generate;
use crate::GenerateError;
use crate::RegisterPool;
use crate::Rule;
use crate::State;
use crate::StateManager;
use crate::drive;
use crate::Firing;
use crate::spec_complete_run;
use crate::spec_empty_assembly;
use crate::spec_empty_store;
use crate::spec_insert_all;
use crate::spec_run;
use crate::spec_store_empty;
use crate::spec_run_output;

verus! {

pub const MOVING_Y: u32 = 0;
pub const INITIALIZING_CNT: u32 = 1;
pub const DECREASING_NROW: u32 = 2;
pub const JUMPING: u32 = 3;

pub struct Generator {
    initial_cnt: Option<u8>,
    cnt_name: &'static str,
    y_offset: i16,
    y_name: &'static str,
    nrow_name: &'static str,
    loop_name: &'static str,
}

impl Generator {
    pub fn new(
        initial_cnt: Option<u8>,
        cnt_name: &'static str,
        y_offset: i16,
        y_name: &'static str,
        nrow_name: &'static str,
        loop_name: &'static str,
    ) -> (r: Self)
        ensures
            r.wf(),
    {
        Generator { initial_cnt, cnt_name, y_offset, y_name, nrow_name, loop_name }
    }
}

impl Generator {
    /// The seed tokens: the result-pointer move, the optional counter
    /// setup, the row decrement and the jump.
    pub closed spec fn spec_initial_states(&self) -> Seq<State> {
        seq![State { id: MOVING_Y, idx: 0, reg: 0 }] + (if self.initial_cnt is Some {
            seq![State { id: INITIALIZING_CNT, idx: 0, reg: 0 }]
        } else {
            Seq::<State>::empty()
        }) + seq![
            State { id: DECREASING_NROW, idx: 0, reg: 0 },
            State { id: JUMPING, idx: 0, reg: 0 },
        ]
    }
}

impl Generate for Generator {
    open spec fn nesting(&self) -> nat {
        0
    }

    open spec fn wf(&self) -> bool {
        true
    }

    open spec fn spec_rulebook(&self) -> Seq<Rule> {
        seq![
            Rule { condition: Condition::Single { id: MOVING_Y } },
            Rule { condition: Condition::Single { id: INITIALIZING_CNT } },
            Rule { condition: Condition::Single { id: DECREASING_NROW } },
            Rule { condition: Condition::Single { id: JUMPING } },
        ]
    }

    fn rulebook(&self) -> (r: Vec<Rule>) {
        let mut v: Vec<Rule> = Vec::new();
        v.push(Rule { condition: Condition::Single { id: MOVING_Y } });
        v.push(Rule { condition: Condition::Single { id: INITIALIZING_CNT } });
        v.push(Rule { condition: Condition::Single { id: DECREASING_NROW } });
        v.push(Rule { condition: Condition::Single { id: JUMPING } });
        proof {
            assert(v@ =~= self.spec_rulebook());
        }
        v
    }

    fn avail_registers(&self) -> (r: [bool; 32])
        ensures
            forall|i: int| 0 <= i < 32 ==> !r@[i],
    {
        [false;32]
    }

    fn initial_states(&self) -> (r: Vec<State>)
        ensures
            r@ == self.spec_initial_states(),
    {
        let mut states: Vec<State> = Vec::new();
        states.push(State { id: MOVING_Y, idx: 0, reg: 0 });
        if self.initial_cnt.is_some() {
            states.push(State { id: INITIALIZING_CNT, idx: 0, reg: 0 });
        }
        states.push(State { id: DECREASING_NROW, idx: 0, reg: 0 });
        states.push(State { id: JUMPING, idx: 0, reg: 0 });
        proof {
            assert(states@ =~= self.spec_initial_states());
        }
        states
    }

    fn transform(&self, rule: usize, _pool: &mut RegisterPool, _matched: &Vec<State>) -> (r: Result<
        (Assembly, Vec<State>),
        GenerateError,
    >) {
        if rule == 0 {
            let out = Assembly::new().add_immediate(self.y_name, self.y_offset);
            Ok((out, Vec::new()))
        } else if rule == 1 {
            let cnt = match self.initial_cnt {
                Some(c) => c,
                None => {
                    return Err(GenerateError::UnsupportedConfiguration);
                },
            };
            let out = Assembly::new().set_immediate(self.cnt_name, cnt as i16);
            Ok((out, Vec::new()))
        } else if rule == 2 {
            let out = Assembly::new().sub_immediate(self.nrow_name, 0x1);
            Ok((out, Vec::new()))
        } else {
            let out = Assembly::new().jump_nz(self.loop_name);
            Ok((out, Vec::new()))
        }
    }
}

impl Generator {
    /// Runs the fixpoint driver over this generator's rulebook.
    pub fn generate(&self) -> (r: Result<Assembly, GenerateError>)
        ensures
            r matches Ok(out) ==> out@.wf() && spec_complete_run(
                self.spec_rulebook(),
                spec_insert_all(spec_empty_store(), self.spec_initial_states()),
                out@,
            ),
            self.spec_initial_states().len() == 0 ==> (r matches Ok(out) && out@
                == spec_empty_assembly()),
        decreases self.nesting(), 2nat,
    {
        let mut pool = RegisterPool::new(self.avail_registers());
        let seeds = self.initial_states();
        let ghost seed_store = spec_insert_all(spec_empty_store(), seeds@);
        proof {
            if self.spec_initial_states().len() == 0 {
                assert(seeds@ =~= Seq::<State>::empty());
                assert(seed_store == spec_empty_store());
                assert(spec_store_empty(seed_store));
            }
        }
        let mut mgr = match StateManager::new(seeds) {
            Ok(m) => m,
            Err(e) => {
                return Err(e);
            },
        };
        match drive(self, &mut pool, &mut mgr) {
            Ok(out) => {
                proof {
                    let trace = choose|trace: Seq<Firing>|
                        spec_run(self.spec_rulebook(), seed_store, trace, mgr@) && out@
                            == spec_run_output(trace);
                    assert(spec_run(self.spec_rulebook(), seed_store, trace, mgr@));
                    assert(out@ == spec_run_output(trace));
                }
                Ok(out)
            },
            Err(e) => Err(e),
        }
    }
}

} // verus!
