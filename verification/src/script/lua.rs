//! The session: what the host knows of one Lua engine.
//!
//! The engine itself lives outside this library. For every operation the
//! host asks the session whether its state admits the operation, asks the
//! engine only if it does, and hands the engine's status code to the method
//! of that operation. The method turns the status into a result and moves the
//! session on. Status `0` is success; every other status is a failure of
//! which nothing more is known.
//!
//! A session starts `Empty`, becomes `Loaded` when the engine accepts a module
//! and `Executed` when the module's top-level code has run. It never becomes
//! `Empty` again.

use crate::script::error::{ErrorModel, GlobalAccess, LuaError};
use crate::script::native::{lua_CFunction, Registry};
use crate::script::value::LuaValue;
use vstd::prelude::*;

verus! {

/// How far a session has come.
#[derive(Debug, Clone, Copy, PartialEq, Eq, Structural)]
pub enum Lifecycle {
    /// No module has been loaded.
    Empty,
    /// A module has been loaded; its top-level code has not run since.
    Loaded,
    /// The top-level code of the loaded module has run.
    Executed,
}

/// An operation of the session, with the names it is about.
#[derive(Debug, Clone, Copy)]
pub enum Operation<'a> {
    Load { module_name: &'a str, source_code: &'a str },
    Exec,
    Bind { name: &'a str, function: lua_CFunction },
    Call { name: &'a str },
    GetGlobal { name: &'a str },
    SetGlobal { name: &'a str },
    SetLocalPath { path: &'a str },
}

/// Mathematical model of an [`Operation`].
pub ghost enum OperationModel {
    Load { module_name: Seq<char>, source_code: Seq<char> },
    Exec,
    Bind { name: Seq<char>, function: lua_CFunction },
    Call { name: Seq<char> },
    GetGlobal { name: Seq<char> },
    SetGlobal { name: Seq<char> },
    SetLocalPath { path: Seq<char> },
}

impl<'a> View for Operation<'a> {
    type V = OperationModel;

    open spec fn view(&self) -> OperationModel {
        match *self {
            Operation::Load { module_name, source_code } => OperationModel::Load {
                module_name: module_name@,
                source_code: source_code@,
            },
            Operation::Exec => OperationModel::Exec,
            Operation::Bind { name, function } => OperationModel::Bind { name: name@, function },
            Operation::Call { name } => OperationModel::Call { name: name@ },
            Operation::GetGlobal { name } => OperationModel::GetGlobal { name: name@ },
            Operation::SetGlobal { name } => OperationModel::SetGlobal { name: name@ },
            Operation::SetLocalPath { path } => OperationModel::SetLocalPath { path: path@ },
        }
    }
}

/// Mathematical model of a [`Lua`] session.
pub ghost struct SessionModel {
    /// How far the session has come.
    pub state: Lifecycle,
    /// The module named in the latest load, accepted or not.
    pub module_name: Seq<char>,
    /// The native functions bound so far, by name.
    pub natives: Map<Seq<char>, lua_CFunction>,
}

impl SessionModel {
    /// A session to which nothing has happened yet.
    pub open spec fn initial() -> SessionModel {
        SessionModel { state: Lifecycle::Empty, module_name: Seq::empty(), natives: Map::empty() }
    }

    /// Whether the session is in a state in which `operation` may be put to
    /// the engine.
    pub open spec fn admits(self, operation: OperationModel) -> bool {
        match operation {
            OperationModel::Load { .. } | OperationModel::SetLocalPath { .. } => true,
            OperationModel::Exec | OperationModel::Bind { .. } | OperationModel::GetGlobal {
                ..
            } => self.state != Lifecycle::Empty,
            OperationModel::Call { .. } | OperationModel::SetGlobal { .. } => self.state
                == Lifecycle::Executed,
        }
    }

    /// Whether `operation` succeeds when the engine answers it with `status`.
    pub open spec fn succeeds(self, operation: OperationModel, status: i32) -> bool {
        self.admits(operation) && status == 0
    }

    /// The error that `operation` is reported with when it fails.
    pub open spec fn failure(self, operation: OperationModel) -> ErrorModel {
        match operation {
            OperationModel::Load { module_name, source_code } => ErrorModel::LoadError {
                module_name,
                source_code,
            },
            OperationModel::Exec => ErrorModel::ExecError { module_name: self.module_name },
            OperationModel::Bind { name, .. } => ErrorModel::BindError {
                module_name: self.module_name,
                native_name: name,
            },
            OperationModel::Call { name } => ErrorModel::CallError {
                module_name: self.module_name,
                function_name: name,
            },
            OperationModel::GetGlobal { name } => ErrorModel::GlobalAccessError {
                module_name: self.module_name,
                name,
                access: GlobalAccess::Read,
            },
            OperationModel::SetGlobal { name } => ErrorModel::GlobalAccessError {
                module_name: self.module_name,
                name,
                access: GlobalAccess::Write,
            },
            OperationModel::SetLocalPath { path } => ErrorModel::ConfigError {
                module_name: self.module_name,
                path,
            },
        }
    }

    /// The session after `operation` has been answered with `status`.
    ///
    /// A load records the name of the module even when the engine rejects
    /// it. Apart from that, a failed operation leaves the session as it was.
    pub open spec fn step(self, operation: OperationModel, status: i32) -> SessionModel {
        match operation {
            OperationModel::Load { module_name, .. } => SessionModel {
                state: if status == 0 {
                    Lifecycle::Loaded
                } else {
                    self.state
                },
                module_name,
                natives: self.natives,
            },
            OperationModel::Exec => if self.succeeds(operation, status) {
                SessionModel { state: Lifecycle::Executed, ..self }
            } else {
                self
            },
            OperationModel::Bind { name, function } => if self.succeeds(operation, status) {
                SessionModel { natives: self.natives.insert(name, function), ..self }
            } else {
                self
            },
            _ => self,
        }
    }

    /// The session after the operations of `trace`, each with the status
    /// that the engine answered it with, in their order.
    pub open spec fn run(self, trace: Seq<(OperationModel, i32)>) -> SessionModel
        decreases trace.len(),
    {
        if trace.len() == 0 {
            self
        } else {
            self.run(trace.drop_last()).step(trace.last().0, trace.last().1)
        }
    }

    /// Whether operation `i` of `trace` succeeds when the trace is run from
    /// this session.
    pub open spec fn succeeds_at(self, trace: Seq<(OperationModel, i32)>, i: int) -> bool {
        self.run(trace.take(i)).succeeds(trace[i].0, trace[i].1)
    }
}

/// A session with one Lua engine.
#[derive(Debug)]
pub struct Lua {
    state: Lifecycle,
    module_name: String,
    natives: Registry,
}

impl View for Lua {
    type V = SessionModel;

    closed spec fn view(&self) -> SessionModel {
        SessionModel { state: self.state, module_name: self.module_name@, natives: self.natives@ }
    }
}

impl Lua {
    /// A session to which nothing has happened yet.
    pub fn new() -> (lua: Self)
        ensures
            lua@ == SessionModel::initial(),
    {
        Self { state: Lifecycle::Empty, module_name: String::new(), natives: Registry::new() }
    }

    /// How far the session has come.
    pub fn state(&self) -> (state: Lifecycle)
        ensures
            state == self@.state,
    {
        self.state
    }

    /// The module named in the latest load; empty before the first.
    pub fn module_name(&self) -> (name: &str)
        ensures
            name@ == self@.module_name,
    {
        self.module_name.as_str()
    }

    /// The native function bound under `name`, if any.
    pub fn native(&self, name: &str) -> (found: Option<lua_CFunction>)
        ensures
            found == if self@.natives.contains_key(name@) {
                Some(self@.natives[name@])
            } else {
                None
            },
    {
        self.natives.get(name)
    }

    /// Whether `operation` may be put to the engine now. Where it may not,
    /// the operation fails without the engine being asked.
    pub fn admits(&self, operation: &Operation) -> (admitted: bool)
        ensures
            admitted == self@.admits(operation@),
    {
        match *operation {
            Operation::Load { .. } | Operation::SetLocalPath { .. } => true,
            Operation::Exec | Operation::Bind { .. } | Operation::GetGlobal { .. } => self.state
                != Lifecycle::Empty,
            Operation::Call { .. } | Operation::SetGlobal { .. } => self.state
                == Lifecycle::Executed,
        }
    }

    /// The error that `operation` is reported with when it fails: the kind of
    /// the operation, with the names that the session has at hand.
    pub fn failure(&self, operation: &Operation) -> (error: LuaError)
        ensures
            error@ == self@.failure(operation@),
    {
        match *operation {
            Operation::Load { module_name, source_code } => LuaError::LoadError {
                module_name: module_name.to_owned(),
                source_code: source_code.to_owned(),
            },
            Operation::Exec => LuaError::ExecError { module_name: self.module_name.clone() },
            Operation::Bind { name, .. } => LuaError::BindError {
                module_name: self.module_name.clone(),
                native_name: name.to_owned(),
            },
            Operation::Call { name } => LuaError::CallError {
                module_name: self.module_name.clone(),
                function_name: name.to_owned(),
            },
            Operation::GetGlobal { name } => LuaError::GlobalAccessError {
                module_name: self.module_name.clone(),
                name: name.to_owned(),
                access: GlobalAccess::Read,
            },
            Operation::SetGlobal { name } => LuaError::GlobalAccessError {
                module_name: self.module_name.clone(),
                name: name.to_owned(),
                access: GlobalAccess::Write,
            },
            Operation::SetLocalPath { path } => LuaError::ConfigError {
                module_name: self.module_name.clone(),
                path: path.to_owned(),
            },
        }
    }

    /// Records the engine's answer to loading `p_source_code` as the module
    /// `p_module_name`.
    ///
    /// The session takes the name in any case. On status `0` it is `Loaded`,
    /// whatever it was before; on any other status its state stays and the
    /// load fails with `LoadError`.
    pub fn load(&mut self, p_module_name: &String, p_source_code: &String, status: i32) -> (result:
        Result<(), LuaError>)
        ensures
            result is Ok <==> status == 0,
            result matches Err(e) ==> e@ == (ErrorModel::LoadError {
                module_name: p_module_name@,
                source_code: p_source_code@,
            }),
            final(self)@ == old(self)@.step(
                OperationModel::Load { module_name: p_module_name@, source_code: p_source_code@ },
                status,
            ),
    {
        self.module_name = p_module_name.clone();
        if status == 0 {
            self.state = Lifecycle::Loaded;
            Ok(())
        } else {
            Err(
                LuaError::LoadError {
                    module_name: p_module_name.clone(),
                    source_code: p_source_code.clone(),
                },
            )
        }
    }

    /// Records the engine's answer to running the module's top-level code.
    ///
    /// Succeeds, and leaves the session `Executed`, if a module is loaded and
    /// the status is `0`. Fails with `ExecError` otherwise, and the session
    /// stays as it was, so that the host may try again.
    pub fn exec(&mut self, status: i32) -> (result: Result<(), LuaError>)
        ensures
            result is Ok <==> old(self)@.succeeds(OperationModel::Exec, status),
            result matches Err(e) ==> e@ == old(self)@.failure(OperationModel::Exec),
            final(self)@ == old(self)@.step(OperationModel::Exec, status),
    {
        if self.admits(&Operation::Exec) && status == 0 {
            self.state = Lifecycle::Executed;
            Ok(())
        } else {
            Err(self.failure(&Operation::Exec))
        }
    }

    /// Records the engine's answer to binding the native function
    /// `p_lua_callback_func` under the name `p_lua_func_name`.
    ///
    /// Succeeds if a module is loaded and the status is `0`; the function is
    /// then bound under that name, in place of any that was. Fails with
    /// `BindError` otherwise, and the session stays as it was.
    pub fn bind(
        &mut self,
        p_lua_func_name: &str,
        p_lua_callback_func: lua_CFunction,
        status: i32,
    ) -> (result: Result<(), LuaError>)
        ensures
            result is Ok <==> old(self)@.succeeds(
                OperationModel::Bind { name: p_lua_func_name@, function: p_lua_callback_func },
                status,
            ),
            result matches Err(e) ==> e@ == old(self)@.failure(
                OperationModel::Bind { name: p_lua_func_name@, function: p_lua_callback_func },
            ),
            final(self)@ == old(self)@.step(
                OperationModel::Bind { name: p_lua_func_name@, function: p_lua_callback_func },
                status,
            ),
    {
        let operation = Operation::Bind { name: p_lua_func_name, function: p_lua_callback_func };
        if self.admits(&operation) && status == 0 {
            self.natives.bind(p_lua_func_name, p_lua_callback_func);
            Ok(())
        } else {
            Err(self.failure(&operation))
        }
    }

    /// The arguments that a call hands to the engine: those given, or none.
    /// The values may be in whatever form the engine takes them.
    pub fn arguments<'a, T>(p_params: Option<&'a [T]>) -> (params: &'a [T])
        ensures
            params@ == match p_params {
                Some(given) => given@,
                None => Seq::<T>::empty(),
            },
    {
        match p_params {
            Some(given) => given,
            None => &[],
        }
    }

    /// Turns the engine's answer to calling the script function `p_name`
    /// into the result of the call.
    ///
    /// Succeeds if the module has been executed and the status is `0`; the
    /// result is then `outs`, the values that the engine produced, in their
    /// order, and possibly none. Fails with `CallError` otherwise.
    pub fn call(&self, p_name: &str, status: i32, outs: Vec<LuaValue>) -> (result: Result<
        Vec<LuaValue>,
        LuaError,
    >)
        ensures
            result is Ok <==> self@.succeeds(OperationModel::Call { name: p_name@ }, status),
            result matches Ok(values) ==> values == outs,
            result matches Err(e) ==> e@ == self@.failure(OperationModel::Call { name: p_name@ }),
    {
        let operation = Operation::Call { name: p_name };
        if self.admits(&operation) && status == 0 {
            Ok(outs)
        } else {
            Err(self.failure(&operation))
        }
    }

    /// Turns the engine's answer to reading the global `p_name` into the
    /// result of the read.
    ///
    /// Succeeds if a module is loaded and the status is `0`; the result is
    /// then `value`, the value that the engine produced. Fails with
    /// `GlobalAccessError` otherwise; a global that does not exist is one way
    /// for the engine to answer with another status.
    pub fn get_global(&self, p_name: &str, status: i32, value: LuaValue) -> (result: Result<
        LuaValue,
        LuaError,
    >)
        ensures
            result is Ok <==> self@.succeeds(OperationModel::GetGlobal { name: p_name@ }, status),
            result matches Ok(found) ==> found == value,
            result matches Err(e) ==> e@ == self@.failure(
                OperationModel::GetGlobal { name: p_name@ },
            ),
    {
        let operation = Operation::GetGlobal { name: p_name };
        if self.admits(&operation) && status == 0 {
            Ok(value)
        } else {
            Err(self.failure(&operation))
        }
    }

    /// Turns the engine's answer to writing the global `p_name` into the
    /// result of the write.
    ///
    /// Succeeds if the module has been executed and the status is `0`. Fails
    /// with `GlobalAccessError` otherwise.
    pub fn set_global(&self, p_name: &str, status: i32) -> (result: Result<(), LuaError>)
        ensures
            result is Ok <==> self@.succeeds(OperationModel::SetGlobal { name: p_name@ }, status),
            result matches Err(e) ==> e@ == self@.failure(
                OperationModel::SetGlobal { name: p_name@ },
            ),
    {
        let operation = Operation::SetGlobal { name: p_name };
        if self.admits(&operation) && status == 0 {
            Ok(())
        } else {
            Err(self.failure(&operation))
        }
    }

    /// Turns the engine's answer to setting the path on which it looks for
    /// modules into the result of the operation.
    ///
    /// Succeeds if the status is `0`, in any state of the session. Fails with
    /// `ConfigError` otherwise.
    pub fn set_local_path(&self, p_env_path: &str, status: i32) -> (result: Result<(), LuaError>)
        ensures
            result is Ok <==> status == 0,
            result matches Err(e) ==> e@ == self@.failure(
                OperationModel::SetLocalPath { path: p_env_path@ },
            ),
    {
        if status == 0 {
            Ok(())
        } else {
            Err(self.failure(&Operation::SetLocalPath { path: p_env_path }))
        }
    }
}

/// A call and a write of a global fail in every session that is not
/// `Executed`, and a read of a global fails in every session that is `Empty`,
/// whatever the engine answers.
pub proof fn lemma_access_needs_lifecycle(session: SessionModel, name: Seq<char>, status: i32)
    ensures
        session.state != Lifecycle::Executed ==> !session.succeeds(
            OperationModel::Call { name },
            status,
        ),
        session.state != Lifecycle::Executed ==> !session.succeeds(
            OperationModel::SetGlobal { name },
            status,
        ),
        session.state == Lifecycle::Empty ==> !session.succeeds(
            OperationModel::GetGlobal { name },
            status,
        ),
{
}

/// Only a successful execution makes a session `Executed`.
pub proof fn lemma_executed_by_exec_only(
    session: SessionModel,
    operation: OperationModel,
    status: i32,
)
    requires
        session.state != Lifecycle::Executed,
        session.step(operation, status).state == Lifecycle::Executed,
    ensures
        operation is Exec,
        session.succeeds(operation, status),
{
}

/// Before any successful execution, no call and no write of a global
/// succeeds: a new session that has been through a run of operations, none of
/// them an execution that succeeded, is not `Executed`, and fails both.
pub proof fn lemma_no_access_before_execution(
    trace: Seq<(OperationModel, i32)>,
    name: Seq<char>,
    status: i32,
)
    requires
        forall|i: int|
            0 <= i < trace.len() && (#[trigger] trace[i]).0 is Exec
                ==> !SessionModel::initial().succeeds_at(trace, i),
    ensures
        SessionModel::initial().run(trace).state != Lifecycle::Executed,
        !SessionModel::initial().run(trace).succeeds(OperationModel::Call { name }, status),
        !SessionModel::initial().run(trace).succeeds(OperationModel::SetGlobal { name }, status),
    decreases trace.len(),
{
    if trace.len() > 0 {
        let before = trace.drop_last();
        assert forall|i: int| 0 <= i < before.len() && (#[trigger] before[i]).0 is Exec implies 
            !SessionModel::initial().succeeds_at(before, i) by {
            assert(before[i] == trace[i]);
            assert(before.take(i) =~= trace.take(i));
        }
        lemma_no_access_before_execution(before, name, status);
        assert(trace.take(trace.len() - 1) =~= before);
        assert(trace.last() == trace[trace.len() - 1]);
    }
}

/// Before any successful load, nothing that needs a module succeeds: a new
/// session that has been through a run of operations, none of them a load
/// that succeeded, is still `Empty`, and fails every execution, binding, call
/// and access to a global.
pub proof fn lemma_nothing_before_load(
    trace: Seq<(OperationModel, i32)>,
    operation: OperationModel,
    status: i32,
)
    requires
        forall|i: int|
            0 <= i < trace.len() && (#[trigger] trace[i]).0 is Load
                ==> !SessionModel::initial().succeeds_at(trace, i),
        !(operation is Load),
        !(operation is SetLocalPath),
    ensures
        SessionModel::initial().run(trace).state == Lifecycle::Empty,
        !SessionModel::initial().run(trace).succeeds(operation, status),
    decreases trace.len(),
{
    if trace.len() > 0 {
        let before = trace.drop_last();
        assert forall|i: int| 0 <= i < before.len() && (#[trigger] before[i]).0 is Load implies 
            !SessionModel::initial().succeeds_at(before, i) by {
            assert(before[i] == trace[i]);
            assert(before.take(i) =~= trace.take(i));
        }
        lemma_nothing_before_load(before, operation, status);
        assert(trace.take(trace.len() - 1) =~= before);
        assert(trace.last() == trace[trace.len() - 1]);
    }
}

/// Loading the same module twice, the engine accepting it both times,
/// succeeds both times and leaves the session `Loaded`; the second load
/// changes nothing that the first has not.
pub proof fn lemma_reload_is_idempotent(
    session: SessionModel,
    module_name: Seq<char>,
    source_code: Seq<char>,
)
    ensures
        ({
            let load = OperationModel::Load { module_name, source_code };
            let once = session.step(load, 0);
            let twice = once.step(load, 0);
            &&& session.succeeds(load, 0)
            &&& once.succeeds(load, 0)
            &&& once.state == Lifecycle::Loaded
            &&& twice.state == Lifecycle::Loaded
            &&& twice == once
        }),
{
}

/// A failed operation leaves the session as it was, but for a load: a failed
/// load changes the module name and nothing else.
pub proof fn lemma_failure_keeps_session(
    session: SessionModel,
    operation: OperationModel,
    status: i32,
)
    requires
        !session.succeeds(operation, status),
    ensures
        !(operation is Load) ==> session.step(operation, status) == session,
        session.step(operation, status).state == session.state,
        session.step(operation, status).natives == session.natives,
{
}

/// A session that has left `Empty` never comes back to it, and no operation
/// but a binding changes what is bound.
pub proof fn lemma_step_keeps_progress(
    session: SessionModel,
    operation: OperationModel,
    status: i32,
)
    ensures
        session.state != Lifecycle::Empty ==> session.step(operation, status).state
            != Lifecycle::Empty,
        !(operation is Bind) ==> session.step(operation, status).natives == session.natives,
{
}

} // verus!
