use crate::executor::{Executor, Step, TaskStatus, READY_CAPACITY};
use vstd::prelude::*;

verus! {

/// The three states of the greeting task.
#[derive(PartialEq, Eq, Structural, Debug, Clone, Copy)]
pub enum HelloState {
    Hello,
    World,
    Fin,
}

/// A task that emits "Hello", yields, emits "World", yields, and then emits
/// "FIN" and finishes.
pub struct Hello {
    pub state: HelloState,
}

/// The lines emitted before the task resumes in state `s`.
pub open spec fn emitted_before(s: HelloState) -> Seq<&'static str> {
    match s {
        HelloState::Hello => seq![],
        HelloState::World => seq!["Hello"],
        HelloState::Fin => seq!["Hello", "World"],
    }
}

/// Resumptions left before the task finishes.
pub open spec fn resumptions_left(s: HelloState) -> nat {
    match s {
        HelloState::Hello => 3,
        HelloState::World => 2,
        HelloState::Fin => 1,
    }
}

impl Hello {
    pub fn new() -> (r: Self)
        ensures
            r.state == HelloState::Hello,
    {
        Hello { state: HelloState::Hello }
    }

    /// Runs the task up to its next suspension point, appending what it emits
    /// to `out`.
    pub fn resume(&mut self, out: &mut Vec<&'static str>) -> (r: Step)
        ensures
            match old(self).state {
                HelloState::Hello => r == Step::Yield && final(self).state == HelloState::World
                    && final(out)@ == old(out)@.push("Hello"),
                HelloState::World => r == Step::Yield && final(self).state == HelloState::Fin
                    && final(out)@ == old(out)@.push("World"),
                HelloState::Fin => r == Step::Done && final(self).state == HelloState::Fin
                    && final(out)@ == old(out)@.push("FIN"),
            },
    {
        match self.state {
            HelloState::Hello => {
                out.push("Hello");
                self.state = HelloState::World;
                Step::Yield
            },
            HelloState::World => {
                out.push("World");
                self.state = HelloState::Fin;
                Step::Yield
            },
            HelloState::Fin => {
                out.push("FIN");
                Step::Done
            },
        }
    }
}

/// Spawns one greeting task on a fresh executor and runs the executor until
/// its ready queue is empty; returns the lines the task emitted.
pub fn run_hello_demo() -> (r: Vec<&'static str>)
    ensures
        r@ == seq!["Hello", "World", "FIN"],
{
    let mut exec = Executor::new(READY_CAPACITY);
    let mut task = Hello::new();
    let mut out: Vec<&'static str> = Vec::new();
    let _ = exec.spawn();
    let mut finished = false;
    while !finished
        invariant
            exec.wf(),
            exec@.status.len() == 1,
            !finished ==> exec@.ready == seq![0usize] && exec@.status[0] == TaskStatus::Queued
                && out@ == emitted_before(task.state),
            finished ==> exec@.ready.len() == 0 && out@ == seq!["Hello", "World", "FIN"],
        decreases
            if finished {
                0
            } else {
                resumptions_left(task.state)
            },
    {
        match exec.next() {
            Some(id) => {
                let step = task.resume(&mut out);
                exec.complete(id, step);
                if step == Step::Done {
                    finished = true;
                }
            },
            None => {
                finished = true;
            },
        }
    }
    out
}

} // verus!
