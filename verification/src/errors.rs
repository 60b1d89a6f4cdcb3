//! The errors of the library.

use vstd::prelude::*;
use vstd::string::*;

verus! {

/// A configuration text that could not be parsed.
#[allow(non_camel_case_types)]
#[derive(Debug, PartialEq, Eq)]
pub enum CustomError {
    /// The text is no JSON document; holds the parser's message.
    PARSINGERROR(String),
}

impl CustomError {
    /// The parser's message.
    pub fn message(&self) -> (r: String)
        ensures
            r@ == (match *self {
                CustomError::PARSINGERROR(m) => m@,
            }),
    {
        match self {
            CustomError::PARSINGERROR(m) => m.clone(),
        }
    }
}

/// Why a configuration could not be built.
#[derive(Debug, PartialEq, Eq)]
pub enum ConfigError {
    /// A declared pipeline or action has no description in the document;
    /// holds its name.
    ConfigNotFound(String),
    /// The document is no structured data, or a typed field does not hold
    /// a value of its type; holds the name of the pipeline or action at
    /// fault, or the parser's message for the document itself.
    ConfigMalformed(String),
    /// An action resolves to no steps; holds its name.
    ConfigInvariantViolation(String),
}

/// The model of a [`ConfigError`].
pub enum ConfigFault {
    NotFound(Seq<char>),
    Malformed(Seq<char>),
    InvariantViolation(Seq<char>),
}

impl View for ConfigError {
    type V = ConfigFault;

    open spec fn view(&self) -> ConfigFault {
        match *self {
            ConfigError::ConfigNotFound(name) => ConfigFault::NotFound(name@),
            ConfigError::ConfigMalformed(name) => ConfigFault::Malformed(name@),
            ConfigError::ConfigInvariantViolation(name) => ConfigFault::InvariantViolation(name@),
        }
    }
}

impl ConfigError {
    /// The name that the error holds.
    pub fn subject(&self) -> (r: &str)
        ensures
            r@ == (match self@ {
                ConfigFault::NotFound(name) => name,
                ConfigFault::Malformed(name) => name,
                ConfigFault::InvariantViolation(name) => name,
            }),
    {
        match self {
            ConfigError::ConfigNotFound(name) => name.as_str(),
            ConfigError::ConfigMalformed(name) => name.as_str(),
            ConfigError::ConfigInvariantViolation(name) => name.as_str(),
        }
    }
}

/// Why a run could not be planned or its output not be read.
#[derive(Debug, PartialEq, Eq)]
pub enum ExecError {
    /// The backend of an action is none of the known ones; holds the backend.
    UnsupportedBackend(String),
    /// What a process wrote is no UTF-8 text.
    OutputNotText,
}

/// The model of an [`ExecError`].
pub enum ExecFault {
    UnsupportedBackend(Seq<char>),
    OutputNotText,
}

impl View for ExecError {
    type V = ExecFault;

    open spec fn view(&self) -> ExecFault {
        match *self {
            ExecError::UnsupportedBackend(backend) => ExecFault::UnsupportedBackend(backend@),
            ExecError::OutputNotText => ExecFault::OutputNotText,
        }
    }
}

} // verus!
