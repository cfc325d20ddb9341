//! Opening and closing a driver session.
//!
//! Opening takes up to three native calls: create a session, initialize it,
//! and, where initialization fails, destroy the session again. The decisions
//! between those calls are a state machine: `start_open` checks the device path
//! and gives the first action, and `open_step` takes the outcome of each native
//! call and gives the next one. The caller performs the actions.
use vstd::prelude::*;
use vstd::string::StringSliceAdditionalSpecFns;

verus! {

/// Why opening a session failed.
#[derive(Debug, Clone, Copy, PartialEq, Eq, Structural)]
pub enum LidarError {
    /// The driver returned no session.
    CreationError,
    /// The device path holds a terminator byte, so it has no native form.
    EncodingError,
    /// The driver reported a nonzero status while initializing.
    InitializationError,
}

/// Where an open attempt stands.
#[derive(Debug, Clone, Copy, PartialEq, Eq, Structural)]
pub enum OpenStage {
    /// Waiting for the outcome of session creation.
    Creating,
    /// Waiting for the status of initialization.
    Initializing,
    /// Waiting for the session of a failed initialization to be destroyed.
    Releasing,
    /// The attempt is over.
    Finished,
}

/// The outcome of the native call that the last action asked for.
#[derive(Debug, Clone, Copy, PartialEq, Eq, Structural)]
pub enum OpenEvent {
    /// Session creation returned; `present` is false where it returned no session.
    Created { present: bool },
    /// Initialization returned this status; zero is success.
    Initialized { status: i32 },
    /// The session was destroyed.
    Released,
}

/// What the caller must do next.
#[derive(Debug, Clone, Copy, PartialEq, Eq, Structural)]
pub enum OpenAction {
    /// Call the driver's session creation.
    CreateSession,
    /// Call the driver's initialization with the encoded path.
    InitializeSession,
    /// Call the driver's session destruction.
    DestroySession,
    /// The session is open and initialized.
    Succeed,
    /// The attempt failed with this error; no session is held.
    Fail(LidarError),
}

/// Whether a byte string holds a terminator byte.
pub open spec fn has_terminator(b: Seq<u8>) -> bool {
    exists|i: int| 0 <= i < b.len() && b[i] == 0u8
}

/// The first stage and action of an open attempt for a path of these bytes.
pub open spec fn spec_start_open(path: Seq<u8>) -> (OpenStage, OpenAction) {
    if has_terminator(path) {
        (OpenStage::Finished, OpenAction::Fail(LidarError::EncodingError))
    } else {
        (OpenStage::Creating, OpenAction::CreateSession)
    }
}

/// Whether an event is the outcome of the call the stage waits for.
pub open spec fn event_fits(stage: OpenStage, event: OpenEvent) -> bool {
    match (stage, event) {
        (OpenStage::Creating, OpenEvent::Created { .. }) => true,
        (OpenStage::Initializing, OpenEvent::Initialized { .. }) => true,
        (OpenStage::Releasing, OpenEvent::Released) => true,
        _ => false,
    }
}

/// The next stage and action after a fitting event.
pub open spec fn spec_open_step(stage: OpenStage, event: OpenEvent) -> (OpenStage, OpenAction) {
    match event {
        OpenEvent::Created { present } => if present {
            (OpenStage::Initializing, OpenAction::InitializeSession)
        } else {
            (OpenStage::Finished, OpenAction::Fail(LidarError::CreationError))
        },
        OpenEvent::Initialized { status } => if status == 0 {
            (OpenStage::Finished, OpenAction::Succeed)
        } else {
            (OpenStage::Releasing, OpenAction::DestroySession)
        },
        OpenEvent::Released => (OpenStage::Finished, OpenAction::Fail(LidarError::InitializationError)),
    }
}

/// The actions given in answer to a run of events, from a stage on; the run
/// stops at the first event that does not fit.
pub open spec fn open_actions(stage: OpenStage, events: Seq<OpenEvent>) -> Seq<OpenAction>
    decreases events.len(),
{
    if events.len() == 0 || !event_fits(stage, events[0]) {
        Seq::empty()
    } else {
        let (next, action) = spec_open_step(stage, events[0]);
        seq![action] + open_actions(next, events.drop_first())
    }
}

/// The native form of a device path: its bytes and a terminator byte, or
/// `EncodingError` where the path already holds a terminator byte.
pub fn port_c_string(port: &str) -> (r: Result<Vec<u8>, LidarError>)
    ensures
        has_terminator(port.spec_bytes()) <==> r is Err,
        r matches Err(e) ==> e == LidarError::EncodingError,
        r matches Ok(b) ==> b@ == port.spec_bytes().push(0u8),
{
    let bytes = port.as_bytes();
    let mut out: Vec<u8> = Vec::new();
    let mut i: usize = 0;
    while i < bytes.len()
        invariant
            bytes@ == port.spec_bytes(),
            0 <= i <= bytes@.len(),
            out@ == bytes@.subrange(0, i as int),
            forall|j: int| 0 <= j < i ==> bytes@[j] != 0u8,
        decreases bytes@.len() - i,
    {
        if bytes[i] == 0u8 {
            return Err(LidarError::EncodingError);
        }
        out.push(bytes[i]);
        i = i + 1;
    }
    assert(out@ =~= bytes@);
    out.push(0u8);
    Ok(out)
}

/// The first stage and action of an open attempt: a path with a terminator
/// byte ends the attempt with `EncodingError` before any native call.
pub fn start_open(port: &str) -> (r: (OpenStage, OpenAction))
    ensures
        r == spec_start_open(port.spec_bytes()),
{
    match port_c_string(port) {
        Ok(_) => (OpenStage::Creating, OpenAction::CreateSession),
        Err(e) => (OpenStage::Finished, OpenAction::Fail(e)),
    }
}

/// The next stage and action, given the outcome of the call the stage waits for.
pub fn open_step(stage: OpenStage, event: OpenEvent) -> (r: (OpenStage, OpenAction))
    requires
        event_fits(stage, event),
    ensures
        r == spec_open_step(stage, event),
{
    match event {
        OpenEvent::Created { present } => if present {
            (OpenStage::Initializing, OpenAction::InitializeSession)
        } else {
            (OpenStage::Finished, OpenAction::Fail(LidarError::CreationError))
        },
        OpenEvent::Initialized { status } => if status == 0 {
            (OpenStage::Finished, OpenAction::Succeed)
        } else {
            (OpenStage::Releasing, OpenAction::DestroySession)
        },
        OpenEvent::Released => (OpenStage::Finished, OpenAction::Fail(LidarError::InitializationError)),
    }
}

/// A finished attempt answers no further event.
pub proof fn lemma_finished_is_final(events: Seq<OpenEvent>)
    ensures
        open_actions(OpenStage::Finished, events) == Seq::<OpenAction>::empty(),
{
}

/// A path holding a terminator byte fails with `EncodingError` and no native
/// call is ever asked for, whatever events follow.
pub proof fn lemma_terminator_path_calls_nothing(path: Seq<u8>, events: Seq<OpenEvent>)
    requires
        has_terminator(path),
    ensures
        spec_start_open(path).1 == OpenAction::Fail(LidarError::EncodingError),
        open_actions(spec_start_open(path).0, events) == Seq::<OpenAction>::empty(),
{
}

/// Where creation returns no session the attempt fails with `CreationError`
/// and nothing is destroyed; where initialization reports zero the attempt
/// succeeds and the session is kept.
pub proof fn lemma_other_open_outcomes(rest: Seq<OpenEvent>)
    ensures
        open_actions(OpenStage::Creating, seq![OpenEvent::Created { present: false }] + rest)
            == seq![OpenAction::Fail(LidarError::CreationError)],
        open_actions(
            OpenStage::Creating,
            seq![OpenEvent::Created { present: true }, OpenEvent::Initialized { status: 0 }] + rest,
        ) == seq![OpenAction::InitializeSession, OpenAction::Succeed],
{
    let failed = seq![OpenEvent::Created { present: false }] + rest;
    assert(failed.drop_first() =~= rest);
    assert(open_actions(OpenStage::Finished, rest) == Seq::<OpenAction>::empty());
    assert(open_actions(OpenStage::Creating, failed) =~= seq![OpenAction::Fail(LidarError::CreationError)]);
    let opened = seq![OpenEvent::Created { present: true }, OpenEvent::Initialized { status: 0 }] + rest;
    let after = opened.drop_first();
    assert(after =~= seq![OpenEvent::Initialized { status: 0 }] + rest);
    assert(after.drop_first() =~= rest);
    assert(open_actions(OpenStage::Initializing, after) =~= seq![OpenAction::Succeed]);
    assert(open_actions(OpenStage::Creating, opened) =~= seq![OpenAction::InitializeSession, OpenAction::Succeed]);
}

/// Whatever nonzero status initialization reports, the created session is
/// destroyed exactly once and the attempt then fails with
/// `InitializationError`; events after that are answered with nothing.
pub proof fn lemma_initialization_failure_releases_once(status: i32, rest: Seq<OpenEvent>)
    requires
        status != 0,
    ensures
        ({
            let events = seq![
                OpenEvent::Created { present: true },
                OpenEvent::Initialized { status },
                OpenEvent::Released,
            ] + rest;
            open_actions(OpenStage::Creating, events) == seq![
                OpenAction::InitializeSession,
                OpenAction::DestroySession,
                OpenAction::Fail(LidarError::InitializationError),
            ]
        }),
{
    let events = seq![
        OpenEvent::Created { present: true },
        OpenEvent::Initialized { status },
        OpenEvent::Released,
    ] + rest;
    let e1 = events.drop_first();
    let e2 = e1.drop_first();
    let e3 = e2.drop_first();
    assert(e1 =~= seq![OpenEvent::Initialized { status }, OpenEvent::Released] + rest);
    assert(e2 =~= seq![OpenEvent::Released] + rest);
    assert(e3 =~= rest);
    assert(open_actions(OpenStage::Finished, e3) == Seq::<OpenAction>::empty());
    assert(open_actions(OpenStage::Releasing, e2) =~= seq![OpenAction::Fail(LidarError::InitializationError)]);
    assert(open_actions(OpenStage::Initializing, e1) =~= seq![
        OpenAction::DestroySession,
        OpenAction::Fail(LidarError::InitializationError),
    ]);
    assert(open_actions(OpenStage::Creating, events) =~= seq![
        OpenAction::InitializeSession,
        OpenAction::DestroySession,
        OpenAction::Fail(LidarError::InitializationError),
    ]);
}

/// The lifetime of one open session: live from a successful open until its
/// teardown, which asks for the driver's session destruction exactly once.
pub struct SessionLease {
    live: bool,
}

impl View for SessionLease {
    type V = bool;

    closed spec fn view(&self) -> bool {
        self.live
    }
}

impl SessionLease {
    /// The lease of a session that was just opened.
    pub fn opened() -> (r: SessionLease)
        ensures
            r@,
    {
        SessionLease { live: true }
    }

    /// Whether the session is still live.
    pub fn is_live(&self) -> (r: bool)
        ensures
            r == self@,
    {
        self.live
    }

    /// Ends the session. Returns whether the driver's session destruction must
    /// now run: true on the first call, false on every later one.
    pub fn teardown(&mut self) -> (must_destroy: bool)
        ensures
            (must_destroy, final(self)@) == spec_teardown(old(self)@),
    {
        let was_live = self.live;
        self.live = false;
        was_live
    }
}

/// One teardown on a lease that is live or not: whether destruction is asked
/// for, and whether the lease is live afterwards.
pub open spec fn spec_teardown(live: bool) -> (bool, bool) {
    (live, false)
}

/// How many of `calls` teardowns in a row, from a lease that is live or not,
/// ask for session destruction.
pub open spec fn destroys_asked(live: bool, calls: nat) -> nat
    decreases calls,
{
    if calls == 0 {
        0
    } else {
        let (destroy, after) = spec_teardown(live);
        (if destroy { 1nat } else { 0nat }) + destroys_asked(after, (calls - 1) as nat)
    }
}

/// However many times a lease is torn down, session destruction is asked for
/// exactly once where the lease was live, and never where it was not.
pub proof fn lemma_teardown_once(live: bool, calls: nat)
    requires
        calls > 0,
    ensures
        destroys_asked(live, calls) == (if live { 1nat } else { 0nat }),
    decreases calls,
{
    let rest = (calls - 1) as nat;
    if rest > 0 {
        lemma_teardown_once(false, rest);
    } else {
        assert(destroys_asked(false, rest) == 0);
    }
    assert(destroys_asked(false, rest) == 0);
    assert(destroys_asked(live, calls) == (if live { 1nat } else { 0nat }) + destroys_asked(false, rest));
}

} // verus!
