//! Failures of session operations.
//!
//! The engine answers every request with a status code and nothing else, so
//! an error says which operation failed and carries the names that the
//! session already had at hand: the module, and the function, global or path
//! that the request was about.

use vstd::prelude::*;

verus! {

/// The direction of an access to a global variable.
#[derive(Debug, Clone, Copy, PartialEq, Eq, Structural)]
pub enum GlobalAccess {
    /// The value of the global was asked for.
    Read,
    /// A value was to be stored in the global.
    Write,
}

/// A failed session operation.
#[derive(Debug, Clone, PartialEq, Eq)]
pub enum LuaError {
    /// The engine did not accept the source of a module.
    LoadError { module_name: String, source_code: String },
    /// The top-level code of the module did not run.
    ExecError { module_name: String },
    /// A native function could not be made known to the engine.
    BindError { module_name: String, native_name: String },
    /// A script function could not be called.
    CallError { module_name: String, function_name: String },
    /// A global variable could not be read or written.
    GlobalAccessError { module_name: String, name: String, access: GlobalAccess },
    /// The search path for modules could not be set.
    ConfigError { module_name: String, path: String },
}

/// Mathematical model of a [`LuaError`]: the same variants over sequences of
/// characters.
pub ghost enum ErrorModel {
    LoadError { module_name: Seq<char>, source_code: Seq<char> },
    ExecError { module_name: Seq<char> },
    BindError { module_name: Seq<char>, native_name: Seq<char> },
    CallError { module_name: Seq<char>, function_name: Seq<char> },
    GlobalAccessError { module_name: Seq<char>, name: Seq<char>, access: GlobalAccess },
    ConfigError { module_name: Seq<char>, path: Seq<char> },
}

impl View for LuaError {
    type V = ErrorModel;

    open spec fn view(&self) -> ErrorModel {
        match self {
            LuaError::LoadError { module_name, source_code } => ErrorModel::LoadError {
                module_name: module_name@,
                source_code: source_code@,
            },
            LuaError::ExecError { module_name } => ErrorModel::ExecError {
                module_name: module_name@,
            },
            LuaError::BindError { module_name, native_name } => ErrorModel::BindError {
                module_name: module_name@,
                native_name: native_name@,
            },
            LuaError::CallError { module_name, function_name } => ErrorModel::CallError {
                module_name: module_name@,
                function_name: function_name@,
            },
            LuaError::GlobalAccessError { module_name, name, access } => {
                ErrorModel::GlobalAccessError {
                    module_name: module_name@,
                    name: name@,
                    access: *access,
                }
            },
            LuaError::ConfigError { module_name, path } => ErrorModel::ConfigError {
                module_name: module_name@,
                path: path@,
            },
        }
    }
}

impl ErrorModel {
    /// The text that reports this error.
    pub open spec fn message(self) -> Seq<char> {
        match self {
            ErrorModel::LoadError { module_name, source_code } => {
                "could not load lua module: "@ + module_name
                    + " with the following source code: "@ + source_code
            },
            ErrorModel::ExecError { module_name } => {
                "could not execute lua module: "@ + module_name
            },
            ErrorModel::BindError { module_name, native_name } => {
                "could not bind lua function for lua module: "@ + module_name
            },
            ErrorModel::CallError { module_name, function_name } => {
                "could not execute function "@ + function_name + " from lua module: "@
                    + module_name
            },
            ErrorModel::GlobalAccessError { module_name, name, access: GlobalAccess::Read } => {
                "could not get global variable "@ + name + " from lua module "@ + module_name
            },
            ErrorModel::GlobalAccessError { module_name, name, access: GlobalAccess::Write } => {
                "could not set global variable "@ + name + " for lua module "@ + module_name
            },
            ErrorModel::ConfigError { module_name, path } => {
                "could not set local path "@ + path + " for lua module "@ + module_name
            },
        }
    }
}

impl LuaError {
    /// The text that reports this error.
    pub fn message(&self) -> (text: String)
        ensures
            text@ == self@.message(),
    {
        match self {
            LuaError::LoadError { module_name, source_code } => {
                let mut text = String::from_str("could not load lua module: ");
                text.append(module_name.as_str());
                text.append(" with the following source code: ");
                text.append(source_code.as_str());
                text
            },
            LuaError::ExecError { module_name } => {
                let mut text = String::from_str("could not execute lua module: ");
                text.append(module_name.as_str());
                text
            },
            LuaError::BindError { module_name, native_name: _ } => {
                let mut text = String::from_str("could not bind lua function for lua module: ");
                text.append(module_name.as_str());
                text
            },
            LuaError::CallError { module_name, function_name } => {
                let mut text = String::from_str("could not execute function ");
                text.append(function_name.as_str());
                text.append(" from lua module: ");
                text.append(module_name.as_str());
                text
            },
            LuaError::GlobalAccessError { module_name, name, access } => {
                let mut text = String::from_str(
                    match access {
                        GlobalAccess::Read => "could not get global variable ",
                        GlobalAccess::Write => "could not set global variable ",
                    },
                );
                text.append(name.as_str());
                text.append(
                    match access {
                        GlobalAccess::Read => " from lua module ",
                        GlobalAccess::Write => " for lua module ",
                    },
                );
                text.append(module_name.as_str());
                text
            },
            LuaError::ConfigError { module_name, path } => {
                let mut text = String::from_str("could not set local path ");
                text.append(path.as_str());
                text.append(" for lua module ");
                text.append(module_name.as_str());
                text
            },
        }
    }
}

} // verus!
