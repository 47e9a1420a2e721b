//! The journal of execution results, in the order in which they came.

use vstd::prelude::*;
use crate::modules::executor::ExecutionResult;
use crate::fixed::{saturating_add, saturating_sum};

verus! {

/// What the persistence stage is handed.
#[derive(Debug)]
pub enum PersistenceMessage {
    ExecutionResult(ExecutionResult),
    HealthCheck,
}

/// The persistence stage: it keeps the results that wait to be written, in
/// the order in which they came, and counts the health checks.
#[derive(Debug)]
pub struct PersistenceManager {
    pub database_url: String,
    pub is_running: bool,
    pub journal: Vec<ExecutionResult>,
    pub health_checks: u64,
}

impl PersistenceManager {
    /// A persistence stage for the database at `database_url`, not running,
    /// with an empty journal.
    pub fn new(database_url: String) -> (r: Self)
        ensures
            r.database_url == database_url,
            !r.is_running,
            r.journal@.len() == 0,
            r.health_checks == 0,
    {
        PersistenceManager { database_url, is_running: false, journal: Vec::new(), health_checks: 0 }
    }

    /// Marks the stage as running.
    pub fn start(&mut self)
        ensures
            *final(self) == (PersistenceManager { is_running: true, ..*old(self) }),
    {
        self.is_running = true;
    }

    /// Marks the stage as stopped.
    pub fn stop(&mut self)
        ensures
            *final(self) == (PersistenceManager { is_running: false, ..*old(self) }),
    {
        self.is_running = false;
    }

    /// Puts `result` at the end of the journal.
    pub fn store_execution_result(&mut self, result: ExecutionResult)
        ensures
            final(self).journal@ == old(self).journal@.push(result),
            final(self).database_url == old(self).database_url,
            final(self).is_running == old(self).is_running,
            final(self).health_checks == old(self).health_checks,
    {
        self.journal.push(result);
    }

    /// Handles a message: a result goes to the end of the journal, a health
    /// check is counted.
    pub fn handle_message(&mut self, message: PersistenceMessage)
        ensures
            final(self).database_url == old(self).database_url,
            final(self).is_running == old(self).is_running,
            match message {
                PersistenceMessage::ExecutionResult(result) => final(self).journal@ == old(self).journal@.push(result) && final(self).health_checks == old(self).health_checks,
                PersistenceMessage::HealthCheck => final(self).journal == old(self).journal
                    && final(self).health_checks == saturating_sum(old(self).health_checks, 1),
            },
    {
        match message {
            PersistenceMessage::ExecutionResult(result) => {
                self.store_execution_result(result);
            },
            PersistenceMessage::HealthCheck => {
                self.health_checks = saturating_add(self.health_checks, 1);
            },
        }
    }

    /// Takes the results out of the journal, oldest first, to be written.
    pub fn drain(&mut self) -> (r: Vec<ExecutionResult>)
        ensures
            r@ == old(self).journal@,
            final(self).journal@.len() == 0,
            final(self).database_url == old(self).database_url,
            final(self).is_running == old(self).is_running,
            final(self).health_checks == old(self).health_checks,
    {
        let mut taken: Vec<ExecutionResult> = Vec::new();
        std::mem::swap(&mut taken, &mut self.journal);
        taken
    }
}

} // verus!
