//! The tick scheduler: paces instruction cycles against the 60 Hz frame.

use rand::rngs::StdRng;
use vstd::prelude::*;
use crate::emulator::machine::Machine;
use crate::emulator::{Emulator, KEY_SIZE};
use crate::error::RunError;

verus! {

/// Frames per second: the rate of the timers and of the display.
pub const TARGET_FPS: u32 = 60;

/// Cycles to run in each frame for a target of `cycles_per_second`: a
/// sixtieth of it, rounded down, but never less than one.
pub open spec fn cycles_for(cycles_per_second: usize) -> usize {
    if cycles_per_second / 60 < 1 {
        1
    } else {
        cycles_per_second / 60
    }
}

impl Machine {
    /// State and result after up to `n` cycles, the first failure ending
    /// the run; cycle `k` draws `randoms[k]` if it needs a random byte.
    pub open spec fn run(self, n: nat, randoms: Seq<u8>, keys: Seq<bool>) -> (
        Machine,
        Result<(), RunError>,
    )
        decreases n,
    {
        if n == 0 {
            (self, Ok(()))
        } else {
            let (state, result) = self.run((n - 1) as nat, randoms, keys);
            if result is Err {
                (state, result)
            } else {
                (state.after_cycle(randoms[n - 1], keys), state.cycle_outcome())
            }
        }
    }

    /// State and result after one frame of `cycles` cycles: the timers tick
    /// once, before any instruction runs, then the cycles follow.
    pub open spec fn frame(self, cycles: nat, randoms: Seq<u8>, keys: Seq<bool>) -> (
        Machine,
        Result<(), RunError>,
    ) {
        self.ticked().run(cycles, randoms, keys)
    }

    /// A run reads only the random bytes of its own cycles.
    proof fn lemma_run_reads_prefix(self, n: nat, a: Seq<u8>, b: Seq<u8>, keys: Seq<bool>)
        requires
            forall|k: int| 0 <= k < n ==> a[k] == b[k],
        ensures
            self.run(n, a, keys) == self.run(n, b, keys),
        decreases n,
    {
        if n > 0 {
            self.lemma_run_reads_prefix((n - 1) as nat, a, b, keys);
        }
    }

    /// Once a run has failed, more cycles change nothing.
    proof fn lemma_run_stops(self, n: nat, m: nat, randoms: Seq<u8>, keys: Seq<bool>)
        requires
            n <= m,
            self.run(n, randoms, keys).1 is Err,
        ensures
            self.run(m, randoms, keys) == self.run(n, randoms, keys),
        decreases m,
    {
        if n < m {
            self.lemma_run_stops(n, (m - 1) as nat, randoms, keys);
        }
    }
}

/// Runs a machine frame by frame at a fixed number of cycles per frame.
#[derive(Clone, Copy, Debug)]
pub struct Scheduler {
    cycles_per_frame: usize,
}

impl Scheduler {
    /// The number of cycles in each frame.
    pub closed spec fn cycles(&self) -> usize {
        self.cycles_per_frame
    }

    /// Creates a scheduler for a target of `cycles_per_second`.
    pub fn new(cycles_per_second: usize) -> (scheduler: Self)
        ensures
            scheduler.cycles() == cycles_for(cycles_per_second),
    {
        let mut aux: usize = cycles_per_second / (TARGET_FPS as usize);
        if aux < 1 {
            aux = 1;
        }
        Scheduler { cycles_per_frame: aux }
    }

    /// The number of cycles in each frame.
    pub fn cycles_per_frame(&self) -> (cycles: usize)
        ensures
            cycles == self.cycles(),
    {
        self.cycles_per_frame
    }

    /// Runs one frame: one timer tick, then `cycles_per_frame` cycles with
    /// the keypad as `keys` shows it. The first cycle that fails ends the
    /// frame with its failure.
    ///
    /// Whatever bytes `rng` yields, machine and result are those the model
    /// gives for a frame of exactly that many cycles and those bytes.
    pub fn run_frame(&self, emu: &mut Emulator, rng: &mut StdRng, keys: &[bool]) -> (result:
        Result<(), RunError>)
        requires
            old(emu).wf(),
            keys@.len() == KEY_SIZE,
        ensures
            final(emu).wf(),
            exists|randoms: Seq<u8>|
                randoms.len() == self.cycles() && (final(emu)@, result) == #[trigger] old(
                    emu,
                )@.frame(self.cycles() as nat, randoms, keys@),
    {
        let ghost start = emu@.ticked();
        let ghost mut randoms: Seq<u8> = Seq::empty();
        emu.decrease_timers();
        let mut done: usize = 0;
        while done < self.cycles_per_frame
            invariant
                done <= self.cycles_per_frame,
                keys@.len() == KEY_SIZE,
                emu.wf(),
                start == old(emu)@.ticked(),
                randoms.len() == done,
                start.run(done as nat, randoms, keys@) == (emu@, Ok::<(), RunError>(())),
            decreases self.cycles_per_frame - done,
        {
            let ghost state = emu@;
            let result = emu.cycle(rng, keys);
            proof {
                let random = choose|random: u8| emu@ == #[trigger] state.after_cycle(random, keys@);
                let drawn = randoms.push(random);
                start.lemma_run_reads_prefix(done as nat, randoms, drawn, keys@);
                assert(start.run((done + 1) as nat, drawn, keys@) == (emu@, result));
                randoms = drawn;
            }
            done += 1;
            if result.is_err() {
                proof {
                    let cycles = self.cycles_per_frame as nat;
                    let padded = Seq::new(
                        cycles,
                        |k: int|
                            if k < done {
                                randoms[k]
                            } else {
                                0u8
                            },
                    );
                    start.lemma_run_reads_prefix(done as nat, randoms, padded, keys@);
                    start.lemma_run_stops(done as nat, cycles, padded, keys@);
                    assert(padded.len() == self.cycles());
                    assert((emu@, result) == old(emu)@.frame(
                        self.cycles() as nat,
                        padded,
                        keys@,
                    ));
                }
                return result;
            }
        }
        proof {
            assert(randoms.len() == self.cycles());
            assert((emu@, Ok::<(), RunError>(())) == old(emu)@.frame(
                self.cycles() as nat,
                randoms,
                keys@,
            ));
        }
        Ok(())
    }
}

} // verus!
