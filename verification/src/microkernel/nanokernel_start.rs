//! The loop prologue: divide the row counter by the row-block size, set up
//! the inner iteration counter, and place the loop label.

use vstd::prelude::*;

use crate::Assembly;
use crate::Condition;
use crate::Generate;
use crate::GenerateError;
use crate::RegisterPool;
use crate::Rule;
use crate::State;
use crate::StateManager;
use crate::drive;
use crate::Firing;
use crate::spec_complete_run;
use crate::spec_empty_assembly;
use crate::spec_empty_store;
use crate::spec_insert_all;
use crate::spec_run;
use crate::spec_store_empty;
use crate::spec_run_output;
use crate::microkernel::IterationType;

verus! {

pub const DIVIDING_NROW: u32 = 0;
pub const INITIALIZING_CNT: u32 = 1;
pub const LABELING: u32 = 2;

pub struct Generator {
    nrow_divisor: Option<u8>,
    initial_cnt: Option<u8>,
    nrow_name: &'static str,
    cnt_name: &'static str,
    loop_name: &'static str,
}

impl Generator {
    pub fn new(
        iteration_type: IterationType,
        nrow_name: &'static str,
        cnt_name: &'static str,
        loop_name: &'static str,
    ) -> (r: Self)
        ensures
            r.wf(),
    {
        let (nrow_divisor, initial_cnt) = match iteration_type {
            IterationType::StaticIter { iter } => {
                let initial_cnt = match iter {
                    1 => None,
                    it => Some(it),
                };
                (None, initial_cnt)
            },
            IterationType::DynamicIter { rowblock_size, inner_iter } => {
                let nrow_divisor = match rowblock_size {
                    1 => None,
                    size => Some(size),
                };
                let initial_cnt = match inner_iter {
                    1 => None,
                    it => Some(it),
                };
                (nrow_divisor, initial_cnt)
            },
        };
        Generator { nrow_divisor, initial_cnt, nrow_name, cnt_name, loop_name }
    }
}

impl Generator {
    /// The seed tokens: the optional divide and counter setup, then the
    /// label.
    pub closed spec fn spec_initial_states(&self) -> Seq<State> {
        (if self.nrow_divisor is Some {
            seq![State { id: DIVIDING_NROW, idx: 0, reg: 0 }]
        } else {
            Seq::<State>::empty()
        }) + (if self.initial_cnt is Some {
            seq![State { id: INITIALIZING_CNT, idx: 0, reg: 0 }]
        } else {
            Seq::<State>::empty()
        }) + seq![State { id: LABELING, idx: 0, reg: 0 }]
    }
}

impl Generate for Generator {
    open spec fn nesting(&self) -> nat {
        0
    }

    open spec fn wf(&self) -> bool {
        true
    }

    open spec fn spec_rulebook(&self) -> Seq<Rule> {
        seq![
            Rule { condition: Condition::Single { id: DIVIDING_NROW } },
            Rule { condition: Condition::Single { id: INITIALIZING_CNT } },
            Rule { condition: Condition::Single { id: LABELING } },
        ]
    }

    fn rulebook(&self) -> (r: Vec<Rule>) {
        let mut v: Vec<Rule> = Vec::new();
        v.push(Rule { condition: Condition::Single { id: DIVIDING_NROW } });
        v.push(Rule { condition: Condition::Single { id: INITIALIZING_CNT } });
        v.push(Rule { condition: Condition::Single { id: LABELING } });
        proof {
            assert(v@ =~= self.spec_rulebook());
        }
        v
    }

    fn avail_registers(&self) -> (r: [bool; 32])
        ensures
            forall|i: int| 0 <= i < 32 ==> !r@[i],
    {
        [false;32]
    }

    fn initial_states(&self) -> (r: Vec<State>)
        ensures
            r@ == self.spec_initial_states(),
    {
        let mut states: Vec<State> = Vec::new();
        if self.nrow_divisor.is_some() {
            states.push(State { id: DIVIDING_NROW, idx: 0, reg: 0 });
        }
        if self.initial_cnt.is_some() {
            states.push(State { id: INITIALIZING_CNT, idx: 0, reg: 0 });
        }
        states.push(State { id: LABELING, idx: 0, reg: 0 });
        proof {
            assert(states@ =~= self.spec_initial_states());
        }
        states
    }

    fn transform(&self, rule: usize, _pool: &mut RegisterPool, _matched: &Vec<State>) -> (r: Result<
        (Assembly, Vec<State>),
        GenerateError,
    >) {
        if rule == 0 {
            // Divide the row counter by the row-block size, as a shift.
            let x = match self.nrow_divisor {
                Some(x) => x,
                None => {
                    return Err(GenerateError::UnsupportedConfiguration);
                },
            };
            let mut p: u16 = 1;
            let mut dist: u8 = 0;
            while dist < 8 && p < x as u16
                invariant
                    dist <= 8,
                    p <= 512,
                decreases 8 - dist,
            {
                p = p * 2;
                dist = dist + 1;
            }
            if p != x as u16 {
                return Err(GenerateError::UnsupportedConfiguration);
            }
            let out = Assembly::new().shift_right(self.nrow_name, dist);
            Ok((out, Vec::new()))
        } else if rule == 1 {
            let iter = match self.initial_cnt {
                Some(x) => x,
                None => {
                    return Err(GenerateError::UnsupportedConfiguration);
                },
            };
            let out = Assembly::new().set_immediate(self.cnt_name, iter as i16);
            Ok((out, Vec::new()))
        } else {
            let out = Assembly::new().label(self.loop_name);
            Ok((out, Vec::new()))
        }
    }
}

impl Generator {
    /// Runs the fixpoint driver over this generator's rulebook.
    pub fn generate(&self) -> (r: Result<Assembly, GenerateError>)
        ensures
            r matches Ok(out) ==> out@.wf() && spec_complete_run(
                self.spec_rulebook(),
                spec_insert_all(spec_empty_store(), self.spec_initial_states()),
                out@,
            ),
            self.spec_initial_states().len() == 0 ==> (r matches Ok(out) && out@
                == spec_empty_assembly()),
        decreases self.nesting(), 2nat,
    {
        let mut pool = RegisterPool::new(self.avail_registers());
        let seeds = self.initial_states();
        let ghost seed_store = spec_insert_all(spec_empty_store(), seeds@);
        proof {
            if self.spec_initial_states().len() == 0 {
                assert(seeds@ =~= Seq::<State>::empty());
                assert(seed_store == spec_empty_store());
                assert(spec_store_empty(seed_store));
            }
        }
        let mut mgr = match StateManager::new(seeds) {
            Ok(m) => m,
            Err(e) => {
                return Err(e);
            },
        };
        match drive(self, &mut pool, &mut mgr) {
            Ok(out) => {
                proof {
                    let trace = choose|trace: Seq<Firing>|
                        spec_run(self.spec_rulebook(), seed_store, trace, mgr@) && out@
                            == spec_run_output(trace);
                    assert(spec_run(self.spec_rulebook(), seed_store, trace, mgr@));
                    assert(out@ == spec_run_output(trace));
                }
                Ok(out)
            },
            Err(e) => Err(e),
        }
    }
}

} // verus!
