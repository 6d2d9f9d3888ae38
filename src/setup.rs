use vstd::prelude::*;

use crate::error::StoreError;

verus! {

/// The two relational engines a store can run on.
#[derive(Debug, Clone, Copy, PartialEq, Eq, Structural)]
pub enum Backend {
    Postgres,
    Sqlite,
}

/// One piece of outside work done while a store is being set up.
#[derive(Debug, Clone, Copy, PartialEq, Eq, Structural)]
pub enum SetupStep {
    /// Open the pooled connection set named by the descriptor.
    OpenPool,
    /// Apply the pending schema migrations through that pool.
    MigratePool,
    /// Open a single connection that creates the database file if absent.
    OpenFile,
    /// Apply the pending schema migrations through that single connection.
    MigrateFile,
}

pub open spec fn postgres_scheme() -> Seq<char> {
    seq!['p', 'o', 's', 't', 'g', 'r', 'e', 's', ':', '/', '/']
}

pub open spec fn sqlite_scheme() -> Seq<char> {
    seq!['s', 'q', 'l', 'i', 't', 'e', ':', '/', '/']
}

pub open spec fn has_prefix(s: Seq<char>, prefix: Seq<char>) -> bool {
    prefix.len() <= s.len() && s.subrange(0, prefix.len() as int) == prefix
}

/// The engine that a connection descriptor selects by its scheme, if any.
pub open spec fn backend_for(uri: Seq<char>) -> Option<Backend> {
    if has_prefix(uri, postgres_scheme()) {
        Some(Backend::Postgres)
    } else if has_prefix(uri, sqlite_scheme()) {
        Some(Backend::Sqlite)
    } else {
        None
    }
}

/// The setup steps of an engine, in the order they run.
pub open spec fn plan(backend: Backend) -> Seq<SetupStep> {
    match backend {
        Backend::Postgres => seq![SetupStep::OpenPool, SetupStep::MigratePool],
        Backend::Sqlite => seq![SetupStep::OpenFile, SetupStep::MigrateFile, SetupStep::OpenPool],
    }
}

pub open spec fn is_migration(step: SetupStep) -> bool {
    step == SetupStep::MigratePool || step == SetupStep::MigrateFile
}

/// The error that a failed step is reported as.
pub open spec fn step_failure(step: SetupStep, cause: String) -> StoreError {
    if is_migration(step) {
        StoreError::Migration(cause)
    } else {
        StoreError::Connection(cause)
    }
}

/// Whether `s` begins with `prefix`, character by character.
pub fn starts_with(s: &str, prefix: &str) -> (r: bool)
    ensures
        r == has_prefix(s@, prefix@),
{
    let n = prefix.unicode_len();
    if n > s.unicode_len() {
        return false;
    }
    let mut i: usize = 0;
    while i < n
        invariant
            n == prefix@.len(),
            n <= s@.len(),
            i <= n,
            forall|j: int| 0 <= j < i ==> s@[j] == prefix@[j],
        decreases n - i,
    {
        if s.get_char(i) != prefix.get_char(i) {
            assert(s@.subrange(0, n as int)[i as int] != prefix@[i as int]);
            return false;
        }
        i = i + 1;
    }
    assert(s@.subrange(0, n as int) =~= prefix@);
    true
}

/// Picks the engine from the descriptor's scheme prefix; any other scheme is
/// refused before any connection is attempted.
pub fn select_backend(uri: &str) -> (r: Result<Backend, StoreError>)
    ensures
        match backend_for(uri@) {
            Some(b) => r == Ok::<Backend, StoreError>(b),
            None => r == Err::<Backend, StoreError>(StoreError::UnsupportedBackend),
        },
{
    proof {
        reveal_strlit("postgres://");
        reveal_strlit("sqlite://");
        assert("postgres://"@ =~= postgres_scheme());
        assert("sqlite://"@ =~= sqlite_scheme());
    }
    if starts_with(uri, "postgres://") {
        Ok(Backend::Postgres)
    } else if starts_with(uri, "sqlite://") {
        Ok(Backend::Sqlite)
    } else {
        Err(StoreError::UnsupportedBackend)
    }
}

/// Reports the failure of `step` as a connection or a migration error.
pub fn fail_step(step: SetupStep, cause: String) -> (r: StoreError)
    ensures
        r == step_failure(step, cause),
{
    match step {
        SetupStep::MigratePool | SetupStep::MigrateFile => StoreError::Migration(cause),
        SetupStep::OpenPool | SetupStep::OpenFile => StoreError::Connection(cause),
    }
}

/// Progress through the setup steps of one engine: which step runs next.
pub struct Setup {
    backend: Backend,
    position: usize,
}

/// What the caller does next while setting up a store.
pub enum SetupAction {
    /// Perform `step()` of the carried progress and hand its outcome back.
    Run(Setup),
    /// Every step succeeded: the store runs on this engine.
    Ready(Backend),
    /// Setup stops with this error; nothing done so far is rolled back.
    Fail(StoreError),
}

impl Setup {
    #[verifier::type_invariant]
    spec fn well_formed(&self) -> bool {
        self.position < plan(self.backend).len()
    }

    pub closed spec fn engine(&self) -> Backend {
        self.backend
    }

    /// How many steps have already succeeded.
    pub closed spec fn done(&self) -> nat {
        self.position as nat
    }

    /// The step that runs next.
    pub closed spec fn next_step(&self) -> SetupStep {
        plan(self.backend)[self.position as int]
    }

    /// Starts the setup that the descriptor selects, at its first step.
    pub fn start(uri: &str) -> (r: Result<Setup, StoreError>)
        ensures
            match backend_for(uri@) {
                Some(b) => r is Ok && r->Ok_0.engine() == b && r->Ok_0.done() == 0
                    && r->Ok_0.next_step() == plan(b)[0],
                None => r == Err::<Setup, StoreError>(StoreError::UnsupportedBackend),
            },
    {
        match select_backend(uri) {
            Ok(backend) => Ok(Setup { backend, position: 0 }),
            Err(e) => Err(e),
        }
    }

    pub fn backend(&self) -> (r: Backend)
        ensures
            r == self.engine(),
    {
        self.backend
    }

    /// The step that the caller performs next.
    pub fn step(&self) -> (r: SetupStep)
        ensures
            r == self.next_step(),
            self.done() < plan(self.engine()).len(),
    {
        proof {
            use_type_invariant(self);
        }
        match self.backend {
            Backend::Postgres => if self.position == 0 {
                SetupStep::OpenPool
            } else {
                SetupStep::MigratePool
            },
            Backend::Sqlite => if self.position == 0 {
                SetupStep::OpenFile
            } else if self.position == 1 {
                SetupStep::MigrateFile
            } else {
                SetupStep::OpenPool
            },
        }
    }

    /// Takes the outcome of `step()`: a failure ends setup with the error of
    /// that step, a success moves on to the following step or, after the
    /// last one, declares the store ready.
    pub fn advance(self, outcome: Result<(), String>) -> (r: SetupAction)
        ensures
            self.done() < plan(self.engine()).len(),
            match outcome {
                Err(cause) => r == SetupAction::Fail(step_failure(self.next_step(), cause)),
                Ok(_) => if self.done() + 1 < plan(self.engine()).len() {
                    r is Run && r->Run_0.engine() == self.engine()
                        && r->Run_0.done() == self.done() + 1
                        && r->Run_0.next_step() == plan(self.engine())[self.done() + 1int]
                } else {
                    r == SetupAction::Ready(self.engine())
                },
            },
    {
        proof {
            use_type_invariant(&self);
        }
        let step = self.step();
        match outcome {
            Err(cause) => SetupAction::Fail(fail_step(step, cause)),
            Ok(()) => {
                let last: usize = match self.backend {
                    Backend::Postgres => 1,
                    Backend::Sqlite => 2,
                };
                if self.position < last {
                    SetupAction::Run(Setup { backend: self.backend, position: self.position + 1 })
                } else {
                    SetupAction::Ready(self.backend)
                }
            },
        }
    }
}

} // verus!
