//! The cycle of one node: fetch a batch, run it, keep its results; upload
//! them all once the queue is empty.
use vstd::prelude::*;

use crate::models::{Test, TestResult};

verus! {

/// What the node must do next.
pub enum RunAction {
    /// Run this batch and hand its results to `on_results`.
    Execute(Vec<Test>),
    /// The queue is exhausted: upload the accumulated results.
    Upload,
}

pub struct RunLoop {
    /// Results of every batch run so far, in the order they were run.
    pub results: Vec<TestResult>,
    pub finished: bool,
}

impl RunLoop {
    pub fn new() -> (r: Self)
        ensures
            r.results@.len() == 0,
            !r.finished,
    {
        RunLoop { results: Vec::new(), finished: false }
    }

    /// A batch from the queue: an empty one ends the run, any other is run.
    pub fn on_batch(&mut self, batch: Vec<Test>) -> (r: RunAction)
        requires
            !old(self).finished,
        ensures
            final(self).results == old(self).results,
            batch@.len() == 0 ==> final(self).finished && r is Upload,
            batch@.len() > 0 ==> !final(self).finished && r == RunAction::Execute(batch),
    {
        if batch.len() == 0 {
            self.finished = true;
            RunAction::Upload
        } else {
            RunAction::Execute(batch)
        }
    }

    /// The results of the batch just run join those already kept.
    pub fn on_results(&mut self, results: Vec<TestResult>)
        requires
            !old(self).finished,
        ensures
            !final(self).finished,
            final(self).results@ == old(self).results@ + results@,
    {
        let mut results = results;
        self.results.append(&mut results);
    }

    pub fn is_finished(&self) -> (r: bool)
        ensures
            r == self.finished,
    {
        self.finished
    }
}

} // verus!
