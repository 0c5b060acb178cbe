//! Handlers that run a fixed list of operations, stop with a 500 at the
//! first required one that fails, and otherwise send a reply fixed in
//! advance.

use vstd::prelude::*;
use crate::flow::{Action, Event, SqlParam};
use crate::reply::{Reply, INTERNAL_SERVER_ERROR, is_text_reply};

verus! {

/// What a handler replies when the connection's lock is poisoned.
#[derive(Debug, Clone, PartialEq, Eq)]
pub enum LockFailure {
    /// A 500 with this text.
    Fixed(String),
    /// A 500 with the text of the poisoned lock's error.
    Reported,
}

/// One operation of a script.
#[derive(Debug, Clone, PartialEq, Eq)]
pub enum Op {
    /// Take the connection's lock.
    Lock(LockFailure),
    /// Run an SQL statement. When it fails and `required` holds, the handler
    /// replies 500 with the error's text; otherwise the failure is ignored.
    Run { sql: String, params: Vec<SqlParam>, required: bool },
    /// Create the directory `path` unless it exists; failures are ignored.
    EnsureDir { path: String },
    /// Move a file; failures are ignored.
    Move { from: String, to: String },
}

/// The reply of a script that ran to its end.
#[derive(Debug, Clone, PartialEq, Eq)]
pub enum Finish {
    /// Always this reply.
    Always(Reply),
    /// `some` when the last statement that ran changed at least one row,
    /// `none` otherwise.
    ByChanges { none: Reply, some: Reply },
}

/// A list of operations and the reply when they all went through.
#[derive(Debug, Clone, PartialEq, Eq)]
pub struct Script {
    pub ops: Vec<Op>,
    pub finish: Finish,
}

/// The outcome that a running script waits for.
#[derive(Debug, Clone, PartialEq, Eq)]
pub enum Await {
    Lock(LockFailure),
    Run { required: bool },
    DirCheck { path: String },
    DirCreate,
    Move,
    /// The script has replied.
    Done,
}

/// A script in the middle of its run.
#[derive(Debug)]
pub struct ScriptRun {
    /// The operations not yet started, in order.
    pub pending: Vec<Op>,
    pub awaiting: Await,
    /// The final reply, until it is sent.
    pub finish: Option<Finish>,
    /// How many rows the last statement that succeeded changed.
    pub changed: Option<usize>,
}

/// The reply of a script that ran to its end.
pub open spec fn finish_reply(finish: Finish, changed: Option<usize>) -> Reply {
    match finish {
        Finish::Always(r) => r,
        Finish::ByChanges { none, some } => if changed matches Some(n) && n > 0 {
            some
        } else {
            none
        },
    }
}

/// Starting `op` means asking for `action` and waiting as `awaiting` says.
pub open spec fn opens(op: Op, awaiting: Await, action: Action) -> bool {
    match op {
        Op::Lock(f) => action == Action::Lock && awaiting == Await::Lock(f),
        Op::Run { sql, params, required } => action == (Action::Execute { sql, params })
            && awaiting == (Await::Run { required }),
        Op::EnsureDir { path } => action == (Action::DirExists { path }) && awaiting == (
        Await::DirCheck { path }),
        Op::Move { from, to } => action == (Action::Rename { from, to }) && awaiting
            == Await::Move,
    }
}

/// The text of the 500 that a poisoned lock gives.
pub open spec fn lock_failure_text(f: LockFailure, error: Seq<char>) -> Seq<char> {
    match f {
        LockFailure::Fixed(t) => t@,
        LockFailure::Reported => error,
    }
}

impl ScriptRun {
    /// The run is consistent: its final reply is kept until it is sent.
    pub open spec fn wf(self) -> bool {
        (self.awaiting is Done) == (self.finish is None)
    }

    /// A bound on how many outcomes the run can still wait for.
    pub open spec fn remaining(self) -> nat {
        2 * self.pending@.len() + match self.awaiting {
            Await::DirCheck { .. } => 2nat,
            Await::Done => 0nat,
            _ => 1nat,
        }
    }

    /// `event` is the outcome the run waits for.
    pub open spec fn awaits(self, event: Event) -> bool {
        match self.awaiting {
            Await::Lock(_) => event is Locked,
            Await::Run { .. } => event is Executed,
            Await::DirCheck { .. } => event is DirChecked,
            Await::DirCreate => event is FsDone,
            Await::Move => event is FsDone,
            Await::Done => false,
        }
    }

    /// From `pending`, `finish` and `changed`, the run went on to `self`
    /// with `action`: it started the next pending operation, or replied
    /// with the final reply when none was left.
    pub open spec fn went_on(
        self,
        pending: Seq<Op>,
        finish: Option<Finish>,
        changed: Option<usize>,
        action: Action,
    ) -> bool {
        &&& self.changed == changed
        &&& if pending.len() == 0 {
            &&& action == Action::Respond(finish_reply(finish.unwrap(), changed))
            &&& self.awaiting is Done
            &&& self.finish is None
            &&& self.pending@ == pending
        } else {
            &&& self.pending@ == pending.drop_first()
            &&& self.finish == finish
            &&& opens(pending[0], self.awaiting, action)
        }
    }

    /// The run stopped with `action`, a 500 with `text`.
    pub open spec fn failed(self, action: Action, text: Seq<char>) -> bool {
        &&& action matches Action::Respond(r) && is_text_reply(r, INTERNAL_SERVER_ERROR, text)
        &&& self.awaiting is Done
        &&& self.finish is None
    }

    fn go_on(&mut self) -> (action: Action)
        requires
            old(self).finish is Some,
        ensures
            final(self).went_on(old(self).pending@, old(self).finish, old(self).changed, action),
            final(self).wf(),
    {
        if self.pending.len() == 0 {
            self.awaiting = Await::Done;
            let finish = self.finish.take().unwrap();
            let reply = match finish {
                Finish::Always(r) => r,
                Finish::ByChanges { none, some } => match self.changed {
                    Some(n) => if n > 0 {
                        some
                    } else {
                        none
                    },
                    None => none,
                },
            };
            Action::Respond(reply)
        } else {
            let op = self.pending.remove(0);
            match op {
                Op::Lock(f) => {
                    self.awaiting = Await::Lock(f);
                    Action::Lock
                },
                Op::Run { sql, params, required } => {
                    self.awaiting = Await::Run { required };
                    Action::Execute { sql, params }
                },
                Op::EnsureDir { path } => {
                    self.awaiting = Await::DirCheck { path: path.clone() };
                    Action::DirExists { path }
                },
                Op::Move { from, to } => {
                    self.awaiting = Await::Move;
                    Action::Rename { from, to }
                },
            }
        }
    }

    fn fail(&mut self, text: String) -> (action: Action)
        ensures
            final(self).failed(action, text@),
            final(self).pending == old(self).pending,
            final(self).changed == old(self).changed,
            final(self).wf(),
    {
        self.awaiting = Await::Done;
        self.finish = None;
        Action::Respond(Reply { status: INTERNAL_SERVER_ERROR, body: crate::reply::Body::Text(text) })
    }

    /// Starts a script: asks for its first operation, or replies at once
    /// when it has none.
    pub fn start(script: Script) -> (run_and_action: (ScriptRun, Action))
        ensures
            run_and_action.0.went_on(script.ops@, Some(script.finish), None, run_and_action.1),
            run_and_action.0.wf(),
    {
        let mut run = ScriptRun {
            pending: script.ops,
            awaiting: Await::Done,
            finish: Some(script.finish),
            changed: None,
        };
        let action = run.go_on();
        (run, action)
    }

    /// Takes the outcome of the operation the run waits for and answers
    /// with the next action.
    pub fn step(&mut self, event: Event) -> (action: Action)
        requires
            old(self).wf(),
            old(self).awaits(event),
        ensures
            final(self).wf(),
            action is Respond ==> final(self).awaiting is Done,
            !(action is Respond) ==> final(self).remaining() < old(self).remaining(),
            match (old(self).awaiting, event) {
                (Await::Lock(f), Event::Locked(Err(e))) => final(self).failed(
                    action,
                    lock_failure_text(f, e@),
                ),
                (Await::Lock(_), Event::Locked(Ok(_))) => final(self).went_on(
                    old(self).pending@,
                    old(self).finish,
                    old(self).changed,
                    action,
                ),
                (Await::Run { required }, Event::Executed(Err(e))) => if required {
                    final(self).failed(action, e@)
                } else {
                    final(self).went_on(
                        old(self).pending@,
                        old(self).finish,
                        old(self).changed,
                        action,
                    )
                },
                (Await::Run { .. }, Event::Executed(Ok(n))) => final(self).went_on(
                    old(self).pending@,
                    old(self).finish,
                    Some(n),
                    action,
                ),
                (Await::DirCheck { path }, Event::DirChecked(exists)) => if exists {
                    final(self).went_on(
                        old(self).pending@,
                        old(self).finish,
                        old(self).changed,
                        action,
                    )
                } else {
                    &&& action == (Action::CreateDirAll { path })
                    &&& final(self).awaiting == Await::DirCreate
                    &&& final(self).pending == old(self).pending
                    &&& final(self).finish == old(self).finish
                    &&& final(self).changed == old(self).changed
                },
                (_, Event::FsDone) => final(self).went_on(
                    old(self).pending@,
                    old(self).finish,
                    old(self).changed,
                    action,
                ),
                _ => false,
            },
    {
        let mut awaiting = Await::Done;
        std::mem::swap(&mut awaiting, &mut self.awaiting);
        match awaiting {
            Await::Lock(f) => match event {
                Event::Locked(Err(e)) => {
                    let text = match f {
                        LockFailure::Fixed(t) => t,
                        LockFailure::Reported => e,
                    };
                    self.fail(text)
                },
                _ => self.go_on(),
            },
            Await::Run { required } => match event {
                Event::Executed(Err(e)) => {
                    if required {
                        self.fail(e)
                    } else {
                        self.go_on()
                    }
                },
                Event::Executed(Ok(n)) => {
                    self.changed = Some(n);
                    self.go_on()
                },
                _ => self.go_on(),
            },
            Await::DirCheck { path } => match event {
                Event::DirChecked(true) => self.go_on(),
                _ => {
                    self.awaiting = Await::DirCreate;
                    Action::CreateDirAll { path }
                },
            },
            _ => self.go_on(),
        }
    }
}

/// A script that ends by its changes replies `some` when the last statement
/// changed at least one row, and `none` when it changed none or no statement
/// reported a count: whatever run replies at the end of such a script
/// answers with exactly that.
pub proof fn lemma_reply_follows_changes(
    run: ScriptRun,
    none: Reply,
    some: Reply,
    changed: Option<usize>,
    action: Action,
)
    requires
        run.went_on(Seq::empty(), Some(Finish::ByChanges { none, some }), changed, action),
    ensures
        (changed matches Some(n) && n >= 1) ==> action == Action::Respond(some),
        changed == Some(0usize) ==> action == Action::Respond(none),
        changed is None ==> action == Action::Respond(none),
{
}

} // verus!
