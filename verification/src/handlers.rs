//! The data the service surface exchanges with callers, and the decisions
//! behind its two endpoints. The HTTP framing around them lives outside.

use vstd::prelude::*;

use crate::models::{initial_run, Run};
use crate::storage::Storage;

verus! {

/// The body of a start-run request: how many seconds the run may last.
#[derive(Debug, Clone, Copy, PartialEq, Eq, Structural)]
pub struct CreateRunRequest {
    pub seconds: u16,
}

/// The body of a successful start-run answer: the fresh run's id.
#[derive(Debug, Clone, Copy, PartialEq, Eq, Structural)]
pub struct CreateRunResponse {
    pub id: u16,
}

/// The body of a rejected request.
#[derive(Debug, Clone, Copy)]
pub struct BadRequest<'a> {
    pub error: &'a str,
}

/// Decide a start-run request. `was_running` says whether a run was already
/// active when the request arrived: if so the request is rejected and the
/// storage left alone; otherwise a fresh run is allocated and its id
/// returned. The caller supervises the accepted run.
pub fn start_run<'a>(was_running: bool, storage: &mut Storage) -> (response: Result<
    CreateRunResponse,
    BadRequest<'a>,
>)
    requires
        old(storage).wf(),
        old(storage).next_id() < u16::MAX,
    ensures
        final(storage).wf(),
        (match response {
            Ok(created) => {
                &&& !was_running
                &&& created.id == old(storage).next_id()
                &&& final(storage).runs() == old(storage).runs().insert(
                    created.id,
                    initial_run(),
                )
                &&& final(storage).next_id() == created.id + 1
            },
            Err(rejected) => {
                &&& was_running
                &&& rejected.error@ == "'run' already started"@
                &&& *final(storage) == *old(storage)
            },
        }),
{
    if !was_running {
        let id = storage.new_run();
        Ok(CreateRunResponse { id })
    } else {
        Err(BadRequest { error: "'run' already started" })
    }
}

/// Decide a lookup: the run's record when the id is known, the error the
/// service reports otherwise.
pub fn get_run<'a>(id: u16, storage: &Storage) -> (response: Result<Run, BadRequest<'a>>)
    ensures
        (match response {
            Ok(run) => storage.runs().contains_key(id) && run == storage.runs()[id],
            Err(rejected) => !storage.runs().contains_key(id) && rejected.error@
                == "'run' not exists"@,
        }),
{
    match storage.get_run(&id) {
        Some(run) => Ok(*run),
        None => Err(BadRequest { error: "'run' not exists" }),
    }
}

} // verus!

