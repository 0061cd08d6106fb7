//! The plugin as the host loader sees it: the version it was built against,
//! the callbacks it asks for, and the redirections it has asked for.

use crate::con::command::passable;
use crate::interop::fn_ptr::FnPtr;
use crate::interop::original_fn::OriginalFn;
use vstd::prelude::*;

verus! {

/// The version of the plugin interface that this library speaks.
pub const MBX_PLUGIN_INTERFACE_VERSION: u32 = 1;

/// What the entry point of a plugin answers to the host loader.
#[derive(Debug, Clone, Copy, PartialEq, Eq, Structural)]
pub enum Status {
    /// The plugin is loaded.
    MbxOk,
    /// The plugin could not set itself up.
    MbxError,
    /// The host loader speaks a version of the interface that the plugin
    /// does not.
    MbxErrorVersion,
}

/// How far the redirection of one function has come. Nothing leads back from
/// the last two.
#[derive(Debug, Clone, Copy, PartialEq, Eq, Structural)]
pub enum InterceptState {
    /// No redirection was asked for.
    Uninstalled,
    /// The host loader was asked and has not answered.
    Installing,
    /// Calls are redirected and the original is in its cell.
    Installed,
    /// The host loader refused.
    Failed,
}

/// What is handed to the host loader to have one function redirected.
#[derive(Debug, Clone, Copy, PartialEq, Eq, Structural)]
pub struct InterceptRequest {
    pub target: usize,
    pub replacement: usize,
}

/// One step in the redirection of the function at `target`.
#[derive(Debug, Clone, Copy, PartialEq, Eq, Structural)]
pub struct Interception {
    pub target: usize,
    pub state: InterceptState,
}

/// The moments at which the engine calls a plugin back.
#[derive(Debug, Clone, Copy, PartialEq, Eq, Structural)]
pub enum Callback {
    /// Immediately before the main script runs.
    GameStart,
    /// Whenever the client processes a tick, before anything else is
    /// updated.
    ClientProcess,
    /// After the graphics context has been created and made current.
    GlContextReady,
    /// Before the graphics context is deactivated and destroyed.
    GlContextDestroy,
    /// After the exit script has run.
    GameExit,
    /// When the plugin is unloaded, the engine having shut down.
    Unload,
}

/// A call of one operation of the host loader.
#[derive(Debug, Clone, Copy, PartialEq, Eq, Structural)]
pub enum HostCall {
    /// Have the function at `func` called at the moment `on`.
    Register { on: Callback, func: usize },
}

/// The state that the steps of a log leave the function at `target` in: that
/// of the last step for it, and `Uninstalled` where there is none.
pub open spec fn state_in(log: Seq<Interception>, target: usize) -> InterceptState
    decreases log.len(),
{
    if log.len() == 0 {
        InterceptState::Uninstalled
    } else if log.last().target == target {
        log.last().state
    } else {
        state_in(log.drop_last(), target)
    }
}

/// What is said when the host loader refuses a redirection.
pub open spec fn interception_failed() -> Seq<char> {
    "Interception failed"@
}

/// What is said when a redirection is asked for a second time.
pub open spec fn interception_repeated() -> Seq<char> {
    "Interception already requested"@
}

/// Wrapper struct for the plugin as the host loader describes it. There is
/// one per plugin: it remembers every redirection that was asked for.
#[derive(Debug)]
pub struct Plugin {
    version: u32,
    min_version: u32,
    name: &'static str,
    path: &'static str,
    build_pipeline: i32,
    build_hash: &'static str,
    log: Vec<Interception>,
}

impl Plugin {
    /// The newest version of the interface that the host loader speaks.
    pub closed spec fn version(&self) -> u32 {
        self.version
    }

    /// The oldest version of the interface that the host loader speaks.
    pub closed spec fn min_version(&self) -> u32 {
        self.min_version
    }

    /// The name of the plugin.
    pub closed spec fn name_of(&self) -> &'static str {
        self.name
    }

    /// The path of the plugin.
    pub closed spec fn path_of(&self) -> &'static str {
        self.path
    }

    /// The build pipeline of the host loader; zero for a local build.
    pub closed spec fn pipeline_of(&self) -> i32 {
        self.build_pipeline
    }

    /// The build hash of the host loader.
    pub closed spec fn hash_of(&self) -> &'static str {
        self.build_hash
    }

    /// The steps of every redirection so far, in order.
    pub closed spec fn log(&self) -> Seq<Interception> {
        self.log@
    }

    /// How far the redirection of the function at `target` has come.
    pub open spec fn state_of(&self, target: usize) -> InterceptState {
        state_in(self.log(), target)
    }

    /// Whether the host loader speaks the version of this library.
    pub open spec fn compatible(&self) -> bool {
        self.min_version() <= MBX_PLUGIN_INTERFACE_VERSION <= self.version()
    }

    /// Construct a new Plugin from what the host loader hands over. No
    /// redirection has been asked for.
    pub fn new(
        version: u32,
        min_version: u32,
        name: &'static str,
        path: &'static str,
        build_pipeline: i32,
        build_hash: &'static str,
    ) -> (plugin: Self)
        ensures
            plugin.version() == version,
            plugin.min_version() == min_version,
            plugin.name_of() == name,
            plugin.path_of() == path,
            plugin.pipeline_of() == build_pipeline,
            plugin.hash_of() == build_hash,
            plugin.log() == Seq::<Interception>::empty(),
    {
        Plugin {
            version,
            min_version,
            name,
            path,
            build_pipeline,
            build_hash,
            log: Vec::new(),
        }
    }

    /// Returns the name of the plugin.
    pub fn name(&self) -> (name: &'static str)
        ensures
            name == self.name_of(),
    {
        self.name
    }

    /// Returns the path of the plugin.
    pub fn path(&self) -> (path: &'static str)
        ensures
            path == self.path_of(),
    {
        self.path
    }

    /// Returns the build pipeline of the host loader.
    pub fn build_pipeline(&self) -> (pipeline: i32)
        ensures
            pipeline == self.pipeline_of(),
    {
        self.build_pipeline
    }

    /// Returns the build hash of the host loader.
    pub fn build_hash(&self) -> (hash: &'static str)
        ensures
            hash == self.hash_of(),
    {
        self.build_hash
    }

    /// Whether `self` describes the same plugin and host loader as `other`,
    /// whatever redirections either has asked for.
    pub open spec fn same_host(&self, other: &Plugin) -> bool {
        &&& self.version() == other.version()
        &&& self.min_version() == other.min_version()
        &&& self.name_of() == other.name_of()
        &&& self.path_of() == other.path_of()
        &&& self.pipeline_of() == other.pipeline_of()
        &&& self.hash_of() == other.hash_of()
    }

    /// Check whether the plugin interface is compatible with this library.
    pub fn check_version(&self) -> (ok: bool)
        ensures
            ok == self.compatible(),
    {
        let my_version = MBX_PLUGIN_INTERFACE_VERSION;
        my_version <= self.version && my_version >= self.min_version
    }

    /// What the host loader's call of the entry point means for the entry:
    /// whether the versions agree.
    pub fn called(&self) -> (event: EntryEvent)
        ensures
            event == (EntryEvent::Called { compatible: self.compatible() }),
    {
        EntryEvent::Called { compatible: self.check_version() }
    }

    /// Returns how far the redirection of the function at `target` has come.
    pub fn state(&self, target: usize) -> (state: InterceptState)
        ensures
            state == self.state_of(target),
    {
        let mut i = self.log.len();
        assert(self.log@.take(i as int) =~= self.log@);
        while i > 0
            invariant
                i <= self.log.len(),
                state_in(self.log@, target) == state_in(self.log@.take(i as int), target),
            decreases i,
        {
            i -= 1;
            if self.log[i].target == target {
                assert(self.log@.take(i + 1).last() == self.log@[i as int]);
                return self.log[i].state;
            }
            assert(self.log@.take(i + 1).drop_last() =~= self.log@.take(i as int));
        }
        InterceptState::Uninstalled
    }

    /// Asks for the redirection of `func` to the function at `replacement`.
    ///
    /// A function is redirected once. Where the redirection of `func` was
    /// asked for before, whatever came of it, nothing is handed out for the
    /// host loader and nothing changes.
    pub fn begin_intercept<T>(&mut self, func: &FnPtr<T>, replacement: usize) -> (r: Result<
        InterceptRequest,
        &'static str,
    >)
        ensures
            match r {
                Ok(request) => {
                    &&& old(self).state_of(func.addr()) == InterceptState::Uninstalled
                    &&& request == (InterceptRequest { target: func.addr(), replacement })
                    &&& final(self).log() == old(self).log().push(
                        Interception { target: func.addr(), state: InterceptState::Installing },
                    )
                },
                Err(e) => {
                    &&& old(self).state_of(func.addr()) != InterceptState::Uninstalled
                    &&& e@ == interception_repeated()
                    &&& final(self).log() == old(self).log()
                },
            },
            final(self).same_host(old(self)),
    {
        let target = func.address();
        match self.state(target) {
            InterceptState::Uninstalled => {
                self.log.push(Interception { target, state: InterceptState::Installing });
                Ok(InterceptRequest { target, replacement })
            },
            _ => Err("Interception already requested"),
        }
    }

    /// Takes the answer of the host loader to the redirection of `func`:
    /// the function through which the original can still be called, or
    /// nothing where the host loader refused.
    ///
    /// With an answer the cell holds it from now on; without one the cell
    /// stays empty and the plugin must give up.
    pub fn finish_intercept<T>(
        &mut self,
        func: &FnPtr<T>,
        reply: Option<T>,
        original: &mut OriginalFn<T>,
    ) -> (r: Result<(), &'static str>)
        requires
            old(self).state_of(func.addr()) == InterceptState::Installing,
            !old(original).installed(),
        ensures
            match reply {
                Some(f) => r is Ok && final(original)@ == Some(f),
                None => r matches Err(e) && e@ == interception_failed() && final(original)@
                    == old(original)@,
            },
            final(self).log() == old(self).log().push(
                Interception {
                    target: func.addr(),
                    state: answered(InterceptState::Installing, reply is Some)->Some_0,
                },
            ),
            final(self).same_host(old(self)),
    {
        let target = func.address();
        match reply {
            Some(f) => {
                original.set(f);
                self.log.push(Interception { target, state: InterceptState::Installed });
                Ok(())
            },
            None => {
                self.log.push(Interception { target, state: InterceptState::Failed });
                Err("Interception failed")
            },
        }
    }

    /// Intercept a function so that all calls to it will redirect to
    /// another.
    ///
    /// `host` stands for the host loader: it is handed the address of the
    /// function and that of its replacement, once, and answers as
    /// `finish_intercept` expects. Where the redirection of `func` was asked
    /// for before, nothing is asked of `host` or of the cell, so that `host`
    /// cannot be called: the request is refused, and the cell, empty or
    /// filled, stays as it is.
    pub fn intercept<T, H: Fn(usize, usize) -> Option<T>>(
        &mut self,
        func: FnPtr<T>,
        replacement: usize,
        original: &mut OriginalFn<T>,
        host: &H,
    ) -> (r: Result<(), &'static str>)
        requires
            old(self).state_of(func.addr()) == InterceptState::Uninstalled ==> !old(original).installed() && host.requires((func.addr(), replacement)),
        ensures
            old(self).state_of(func.addr()) != InterceptState::Uninstalled ==> {
                &&& r matches Err(e) && e@ == interception_repeated()
                &&& final(original)@ == old(original)@
                &&& final(self).log() == old(self).log()
            },
            old(self).state_of(func.addr()) == InterceptState::Uninstalled ==> {
                &&& r is Ok ==> final(original)@ is Some && host.ensures(
                    (func.addr(), replacement),
                    final(original)@,
                )
                &&& r matches Err(e) ==> e@ == interception_failed() && final(original)@ is None
                    && host.ensures((func.addr(), replacement), None::<T>)
                &&& final(self).log() == old(self).log().push(
                    Interception { target: func.addr(), state: InterceptState::Installing },
                ).push(
                    Interception {
                        target: func.addr(),
                        state: if r is Ok {
                            InterceptState::Installed
                        } else {
                            InterceptState::Failed
                        },
                    },
                )
            },
            final(self).same_host(old(self)),
    {
        let request = match self.begin_intercept(&func, replacement) {
            Ok(request) => request,
            Err(e) => {
                return Err(e);
            },
        };
        let reply = host(request.target, request.replacement);
        self.finish_intercept(&func, reply, original)
    }

    /// Set the error message to display if the plugin fails to load: hands
    /// out the message for the host loader, which takes it to end at its
    /// first zero byte.
    pub fn set_error<'a>(&self, error: &'a str) -> (message: &'a str)
        requires
            passable(error),
        ensures
            message == error,
    {
        error
    }

    /// Register a callback to be fired when the engine has finished
    /// initializing. This is fired immediately before main.cs is run.
    pub fn on_game_start(&self, func: usize) -> (call: HostCall)
        ensures
            call == (HostCall::Register { on: Callback::GameStart, func }),
    {
        HostCall::Register { on: Callback::GameStart, func }
    }

    /// Register a callback to be fired whenever clientProcess(U32) is
    /// called. Callbacks will be fired before anything else in the engine is
    /// updated.
    pub fn on_client_process(&self, func: usize) -> (call: HostCall)
        ensures
            call == (HostCall::Register { on: Callback::ClientProcess, func }),
    {
        HostCall::Register { on: Callback::ClientProcess, func }
    }

    /// Register a callback to be fired after the GL context has been created
    /// and made current.
    pub fn on_gl_context_ready(&self, func: usize) -> (call: HostCall)
        ensures
            call == (HostCall::Register { on: Callback::GlContextReady, func }),
    {
        HostCall::Register { on: Callback::GlContextReady, func }
    }

    /// Register a callback to be fired before the GL context is deactivated
    /// and destroyed.
    pub fn on_gl_context_destroy(&self, func: usize) -> (call: HostCall)
        ensures
            call == (HostCall::Register { on: Callback::GlContextDestroy, func }),
    {
        HostCall::Register { on: Callback::GlContextDestroy, func }
    }

    /// Register a callback to be fired before the engine shuts down. This is
    /// fired immediately after the TorqueScript onExit() function.
    pub fn on_game_exit(&self, func: usize) -> (call: HostCall)
        ensures
            call == (HostCall::Register { on: Callback::GameExit, func }),
    {
        HostCall::Register { on: Callback::GameExit, func }
    }

    /// Register a callback to be fired when the plugin is unloaded. The
    /// engine will have already been shut down.
    pub fn on_unload(&self, func: usize) -> (call: HostCall)
        ensures
            call == (HostCall::Register { on: Callback::Unload, func }),
    {
        HostCall::Register { on: Callback::Unload, func }
    }
}

/// Where the entry point of a plugin stands.
#[derive(Debug, Clone, Copy, PartialEq, Eq, Structural)]
pub enum EntryState {
    /// The host loader has not called yet.
    Begin,
    /// The plugin is setting itself up.
    Running,
    /// The entry has answered.
    Done,
}

/// What has happened since the last step of the entry.
#[derive(Debug, Clone, Copy, PartialEq, Eq, Structural)]
pub enum EntryEvent {
    /// The host loader has called the entry; `compatible` tells whether it
    /// speaks the version of this library.
    Called { compatible: bool },
    /// The function of the plugin has returned; `failed` tells whether it
    /// returned an error. A function without a result never fails.
    Returned { failed: bool },
}

/// What the entry does next.
#[derive(Debug, Clone, Copy, PartialEq, Eq, Structural)]
pub enum EntryAction {
    /// Make the console the logger, then call the function of the plugin.
    InitLoggerAndRun,
    /// Answer the host loader.
    Return(Status),
    /// Hand the error of the plugin to the host loader, once, then answer.
    SetErrorThenReturn(Status),
}

/// The step that `event` makes from `state`, if it makes one.
///
/// A host loader of another version is answered at once, before the logger
/// is set up and before anything of the plugin runs. Else the plugin runs
/// once; if it succeeds the entry answers that all is well, and if it fails
/// its error is handed to the host loader before the entry answers with a
/// failure.
pub open spec fn entry_step(state: EntryState, event: EntryEvent) -> Option<
    (EntryState, EntryAction),
> {
    match (state, event) {
        (EntryState::Begin, EntryEvent::Called { compatible }) => Some(
            if compatible {
                (EntryState::Running, EntryAction::InitLoggerAndRun)
            } else {
                (EntryState::Done, EntryAction::Return(Status::MbxErrorVersion))
            },
        ),
        (EntryState::Running, EntryEvent::Returned { failed }) => Some(
            if failed {
                (EntryState::Done, EntryAction::SetErrorThenReturn(Status::MbxError))
            } else {
                (EntryState::Done, EntryAction::Return(Status::MbxOk))
            },
        ),
        _ => None,
    }
}

/// Decides the next step of the entry point.
pub fn entry_next(state: EntryState, event: EntryEvent) -> (r: Option<(EntryState, EntryAction)>)
    ensures
        r == entry_step(state, event),
{
    match (state, event) {
        (EntryState::Begin, EntryEvent::Called { compatible }) => {
            if compatible {
                Some((EntryState::Running, EntryAction::InitLoggerAndRun))
            } else {
                Some((EntryState::Done, EntryAction::Return(Status::MbxErrorVersion)))
            }
        },
        (EntryState::Running, EntryEvent::Returned { failed }) => {
            if failed {
                Some((EntryState::Done, EntryAction::SetErrorThenReturn(Status::MbxError)))
            } else {
                Some((EntryState::Done, EntryAction::Return(Status::MbxOk)))
            }
        },
        _ => None,
    }
}

impl EntryEvent {
    /// What the return of the plugin's function means for the entry.
    pub fn returned<E>(outcome: &Result<(), E>) -> (event: EntryEvent)
        ensures
            event == (EntryEvent::Returned { failed: outcome is Err }),
    {
        match outcome {
            Ok(_) => EntryEvent::Returned { failed: false },
            Err(_) => EntryEvent::Returned { failed: true },
        }
    }
}

/// Every run of the entry point. With a host loader of another version the
/// one step is the answer `MbxErrorVersion`: the logger is not set up and
/// the plugin does not run. Else the plugin runs, and its return is the
/// second and last step: `MbxOk` without an error being set, or the error
/// set and then `MbxError`. The error is set on no other step, and once the
/// entry has answered no step follows.
pub proof fn lemma_entry_runs(
    compatible: bool,
    failed: bool,
    state: EntryState,
    event: EntryEvent,
)
    ensures
        entry_step(EntryState::Begin, EntryEvent::Called { compatible }) == Some(
            if compatible {
                (EntryState::Running, EntryAction::InitLoggerAndRun)
            } else {
                (EntryState::Done, EntryAction::Return(Status::MbxErrorVersion))
            },
        ),
        entry_step(EntryState::Running, EntryEvent::Returned { failed }) == Some(
            if failed {
                (EntryState::Done, EntryAction::SetErrorThenReturn(Status::MbxError))
            } else {
                (EntryState::Done, EntryAction::Return(Status::MbxOk))
            },
        ),
        entry_step(EntryState::Done, event) is None,
        entry_step(EntryState::Begin, event) matches Some((_, action)) ==> !(action
            is SetErrorThenReturn),
        entry_step(EntryState::Running, event) matches Some((next, action)) ==> next
            == EntryState::Done && !(action is InitLoggerAndRun),
        entry_step(state, event) matches Some((_, EntryAction::SetErrorThenReturn(_))) ==> state
            == EntryState::Running && event == (EntryEvent::Returned { failed: true }),
        entry_step(state, event) matches Some((_, EntryAction::InitLoggerAndRun)) ==> state
            == EntryState::Begin && event == (EntryEvent::Called { compatible: true }),
{
}

/// The step that the answer of the host loader makes from a state, if it
/// makes one: only a redirection that was asked for can be answered.
pub open spec fn answered(state: InterceptState, accepted: bool) -> Option<InterceptState> {
    match state {
        InterceptState::Installing => Some(
            if accepted {
                InterceptState::Installed
            } else {
                InterceptState::Failed
            },
        ),
        _ => None,
    }
}

/// Only a redirection that waits for its answer can be answered, and the
/// answer settles it: it is installed or it has failed, and neither can be
/// answered again.
pub proof fn lemma_answer_settles(state: InterceptState, accepted: bool, again: bool)
    ensures
        answered(state, accepted) is Some <==> state == InterceptState::Installing,
        answered(state, accepted) matches Some(next) ==> {
            &&& next == InterceptState::Installed || next == InterceptState::Failed
            &&& next == InterceptState::Installed <==> accepted
            &&& answered(next, again) is None
        },
{
}

/// After the two steps of one redirection the function is in the state of
/// the second, and every other function is in the state it was in.
pub proof fn lemma_two_steps(
    log: Seq<Interception>,
    target: usize,
    first: InterceptState,
    second: InterceptState,
    other: usize,
)
    requires
        other != target,
    ensures
        state_in(
            log.push(Interception { target, state: first }).push(
                Interception { target, state: second },
            ),
            target,
        ) == second,
        state_in(
            log.push(Interception { target, state: first }).push(
                Interception { target, state: second },
            ),
            other,
        ) == state_in(log, other),
{
    let one = log.push(Interception { target, state: first });
    lemma_step_is_local(log, Interception { target, state: first }, other);
    lemma_step_is_local(one, Interception { target, state: second }, other);
}

/// A step for one function changes the state of no other.
pub proof fn lemma_step_is_local(log: Seq<Interception>, step: Interception, other: usize)
    requires
        other != step.target,
    ensures
        state_in(log.push(step), step.target) == step.state,
        state_in(log.push(step), other) == state_in(log, other),
{
    assert(log.push(step).drop_last() =~= log);
}

/// A function whose redirection was asked for and answered, with whatever
/// outcome, is not redirected a second time: whatever steps follow, for this
/// function or for others, a further request for it is one that
/// `begin_intercept` and `intercept` refuse.
pub proof fn lemma_redirected_once(
    log: Seq<Interception>,
    target: usize,
    accepted: bool,
    later: Seq<Interception>,
)
    requires
        forall|i: int| 0 <= i < later.len() ==> (#[trigger] later[i]).state
            != InterceptState::Uninstalled,
    ensures
        state_in(
            log.push(Interception { target, state: InterceptState::Installing }).push(
                Interception {
                    target,
                    state: answered(InterceptState::Installing, accepted)->Some_0,
                },
            ) + later,
            target,
        ) != InterceptState::Uninstalled,
{
    let asked = log.push(Interception { target, state: InterceptState::Installing });
    let answer = Interception {
        target,
        state: answered(InterceptState::Installing, accepted)->Some_0,
    };
    assert(asked.push(answer).drop_last() =~= asked);
    lemma_no_second_request(asked.push(answer), later, target);
}

/// Once the redirection of a function has been asked for, it is never asked
/// for again: whatever steps follow, for this function or for others, none
/// leads back to `Uninstalled`, as long as every step is one that
/// `begin_intercept` or `finish_intercept` takes.
pub proof fn lemma_no_second_request(log: Seq<Interception>, later: Seq<Interception>, target: usize)
    requires
        state_in(log, target) != InterceptState::Uninstalled,
        forall|i: int| 0 <= i < later.len() ==> (#[trigger] later[i]).state
            != InterceptState::Uninstalled,
    ensures
        state_in(log + later, target) != InterceptState::Uninstalled,
    decreases later.len(),
{
    if later.len() == 0 {
        assert(log + later =~= log);
    } else {
        assert((log + later).drop_last() =~= log + later.drop_last());
        lemma_no_second_request(log, later.drop_last(), target);
    }
}

} // verus!
