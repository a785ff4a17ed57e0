use vstd::prelude::*;

use crate::error::Error;

verus! {

/// What the supervisor is told from outside the engine.
#[derive(Debug, Clone, Copy, PartialEq, Eq, Structural)]
pub enum Event {
    /// The tracer was asked to terminate.
    Exit,
    /// The script file was modified.
    FileModified,
}

/// The bit that the file watcher sets in the mask of an event when the
/// watched file was modified.
pub const MODIFY: u32 = 0x2;

/// `inotify::EventMask::MODIFY`, as bits: the mask of a modification, which
/// is the bit 2.
#[verifier::external_body]
fn modify_mask() -> (mask: u32)
    ensures
        mask == MODIFY,
{
    inotify::EventMask::MODIFY.bits()
}

/// What the supervisor is told when the file watcher reports an event with
/// the mask `mask` on the script file: that the file was modified, if the
/// mask says so, and nothing otherwise.
pub fn watch_file_for_changes(mask: u32) -> (event: Option<Event>)
    ensures
        mask & MODIFY != 0 ==> event == Some(Event::FileModified),
        mask & MODIFY == 0 ==> event is None,
{
    if mask & modify_mask() != 0 {
        Some(Event::FileModified)
    } else {
        None
    }
}

/// One stage of the supervisor's work.
#[derive(Debug, Clone, Copy, PartialEq, Eq, Structural)]
pub enum Stage {
    /// Seize every task of the target.
    Attach,
    /// Stop every running thread.
    StopAll,
    /// Switch the breakpoints off in every thread and forget them, which
    /// also makes slot 0 the next slot to be given out.
    ClearBreakpoints,
    /// Forget every callback.
    ClearCallbacks,
    /// Read the address-space map of the target.
    ReadMaps,
    /// Compile the script and run it to completion, which registers
    /// breakpoints and callbacks.
    LoadScript,
    /// Program the registered breakpoints into every thread.
    ApplyBreakpoints,
    /// Resume every stopped thread.
    ContinueAll,
    /// Look at every thread once.
    Sweep,
    /// Switch the breakpoints off and detach from every thread.
    Shutdown,
}

/// The stages that bring the tracer up, before its first turn.
pub open spec fn spec_startup() -> Seq<Stage> {
    seq![
        Stage::Attach,
        Stage::StopAll,
        Stage::ReadMaps,
        Stage::LoadScript,
        Stage::ApplyBreakpoints,
        Stage::ContinueAll,
    ]
}

/// The stages of one turn of the supervisor's loop, given the event that
/// was pending, if one was.
///
/// A termination event ends the loop with the shutdown. A modified script
/// is reloaded between a stop and a continue of all threads, and only then
/// are the threads looked at. Without an event the threads are looked at.
pub open spec fn spec_turn(event: Option<Event>) -> Seq<Stage> {
    match event {
        Some(Event::Exit) => seq![Stage::Shutdown],
        Some(Event::FileModified) => seq![
            Stage::StopAll,
            Stage::ClearBreakpoints,
            Stage::ClearCallbacks,
            Stage::ReadMaps,
            Stage::LoadScript,
            Stage::ApplyBreakpoints,
            Stage::ContinueAll,
            Stage::Sweep,
        ],
        None => seq![Stage::Sweep],
    }
}

/// The stages that bring the tracer up.
pub fn startup() -> (stages: Vec<Stage>)
    ensures
        stages@ == spec_startup(),
{
    let mut stages: Vec<Stage> = Vec::new();
    stages.push(Stage::Attach);
    stages.push(Stage::StopAll);
    stages.push(Stage::ReadMaps);
    stages.push(Stage::LoadScript);
    stages.push(Stage::ApplyBreakpoints);
    stages.push(Stage::ContinueAll);
    stages
}

/// The stages of one turn of the supervisor's loop. The loop goes on after
/// every turn but the one that holds the shutdown.
pub fn turn(event: Option<Event>) -> (stages: Vec<Stage>)
    ensures
        stages@ == spec_turn(event),
{
    let mut stages: Vec<Stage> = Vec::new();
    match event {
        Some(Event::Exit) => {
            stages.push(Stage::Shutdown);
        },
        Some(Event::FileModified) => {
            stages.push(Stage::StopAll);
            stages.push(Stage::ClearBreakpoints);
            stages.push(Stage::ClearCallbacks);
            stages.push(Stage::ReadMaps);
            stages.push(Stage::LoadScript);
            stages.push(Stage::ApplyBreakpoints);
            stages.push(Stage::ContinueAll);
            stages.push(Stage::Sweep);
        },
        None => {
            stages.push(Stage::Sweep);
        },
    }
    stages
}

/// Tells whether the supervisor goes on after `error` came up in `stage`.
///
/// Nothing stops the shutdown. A script that does not compile, or fails
/// while it runs, leaves the tracer with what the script had registered
/// until then. A failed kernel call during a sweep costs the thread it was
/// made for, and no more. Everything else ends the tracer.
pub open spec fn spec_survives(stage: Stage, error: Error) -> bool {
    match stage {
        Stage::Shutdown => true,
        Stage::LoadScript => error is ScriptCompileFailed || error is ScriptRuntimeFailed,
        Stage::Sweep => !(error is AttachFailed || error is ProtocolMisuse),
        _ => false,
    }
}

/// Tells whether the supervisor goes on after `error` came up in `stage`.
pub fn survives(stage: Stage, error: Error) -> (goes_on: bool)
    ensures
        goes_on == spec_survives(stage, error),
{
    match stage {
        Stage::Shutdown => true,
        Stage::LoadScript => match error {
            Error::ScriptCompileFailed => true,
            Error::ScriptRuntimeFailed => true,
            _ => false,
        },
        Stage::Sweep => !error.is_fatal(),
        _ => false,
    }
}

/// In a turn that reloads the script, every stage of the reload comes
/// before the sweep, and the threads are stopped before and continued after
/// everything that touches the breakpoints.
pub proof fn lemma_reload_precedes_sweep()
    ensures
        spec_turn(Some(Event::FileModified)).last() == Stage::Sweep,
        spec_turn(Some(Event::FileModified)).first() == Stage::StopAll,
        forall|i: int|
            0 <= i < spec_turn(Some(Event::FileModified)).len() - 1 ==> spec_turn(
                Some(Event::FileModified),
            )[i] != Stage::Sweep,
{
}

} // verus!
