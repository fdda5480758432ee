//! What a module has to export before it is used: a linear memory named `memory`, and a
//! function named `entry` that takes nothing and returns nothing.

use vstd::prelude::*;

verus! {

/// The kind of one export of a module.
#[derive(Debug, Clone, Copy, PartialEq, Eq, Structural)]
pub enum ExportKind {
    /// A function, with the number of its parameters and of its results.
    Func { params: usize, results: usize },
    Global,
    Table,
    Memory,
}

/// Why a module cannot be used.
#[derive(Debug, Clone, Copy, PartialEq, Eq, Structural)]
pub enum StaticModuleVerificationError {
    /// Nothing is exported as `memory`.
    NoMemoryExport,
    /// What is exported as `memory` is no memory.
    InvalidMemoryExport,
    /// Nothing is exported as `entry`.
    NoEntryPoint,
    /// What is exported as `entry` is no function.
    InvalidEntryPoint,
    /// The entry point takes parameters.
    EntryTakesParameters,
    /// The entry point returns a value.
    EntryReturnsValue,
}

impl StaticModuleVerificationError {
    /// The text that goes to the log for this fault.
    pub fn message(&self) -> (text: &'static str)
        ensures
            text@ == match *self {
                StaticModuleVerificationError::NoMemoryExport =>
                    "Module doesn't contain any memory exported as \"memory\"!"@,
                StaticModuleVerificationError::InvalidMemoryExport =>
                    "Exported symbol \"memory\" is not a memory!"@,
                StaticModuleVerificationError::NoEntryPoint =>
                    "Module doesn't contain entry point exported as \"entry\"!"@,
                StaticModuleVerificationError::InvalidEntryPoint =>
                    "Exported symbol \"entry\" is not a function!"@,
                StaticModuleVerificationError::EntryTakesParameters =>
                    "Entry point takes parameters as opposed to not taking any!"@,
                StaticModuleVerificationError::EntryReturnsValue =>
                    "Entry point returns value as opposed to not returning any!"@,
            },
    {
        match self {
            StaticModuleVerificationError::NoMemoryExport =>
                "Module doesn't contain any memory exported as \"memory\"!",
            StaticModuleVerificationError::InvalidMemoryExport =>
                "Exported symbol \"memory\" is not a memory!",
            StaticModuleVerificationError::NoEntryPoint =>
                "Module doesn't contain entry point exported as \"entry\"!",
            StaticModuleVerificationError::InvalidEntryPoint =>
                "Exported symbol \"entry\" is not a function!",
            StaticModuleVerificationError::EntryTakesParameters =>
                "Entry point takes parameters as opposed to not taking any!",
            StaticModuleVerificationError::EntryReturnsValue =>
                "Entry point returns value as opposed to not returning any!",
        }
    }
}

/// Whether a module with these two exports can be used, and if not, the first fault in
/// this order: the memory, then the entry point, its parameters, its results.
pub open spec fn exports_spec(memory: Option<ExportKind>, entry: Option<ExportKind>) -> Result<
    (),
    StaticModuleVerificationError,
> {
    match memory {
        None => Err(StaticModuleVerificationError::NoMemoryExport),
        Some(ExportKind::Memory) => match entry {
            None => Err(StaticModuleVerificationError::NoEntryPoint),
            Some(ExportKind::Func { params, results }) => if params != 0 {
                Err(StaticModuleVerificationError::EntryTakesParameters)
            } else if results != 0 {
                Err(StaticModuleVerificationError::EntryReturnsValue)
            } else {
                Ok(())
            },
            Some(_) => Err(StaticModuleVerificationError::InvalidEntryPoint),
        },
        Some(_) => Err(StaticModuleVerificationError::InvalidMemoryExport),
    }
}

/// Checks what a module exports as `memory` and as `entry`.
pub fn verify_exports(memory: Option<ExportKind>, entry: Option<ExportKind>) -> (verdict: Result<
    (),
    StaticModuleVerificationError,
>)
    ensures
        verdict == exports_spec(memory, entry),
        verdict.is_ok() <==> memory == Some(ExportKind::Memory) && entry == Some(
            ExportKind::Func { params: 0, results: 0 },
        ),
{
    match memory {
        None => {
            return Err(StaticModuleVerificationError::NoMemoryExport);
        },
        Some(ExportKind::Memory) => {},
        Some(_) => {
            return Err(StaticModuleVerificationError::InvalidMemoryExport);
        },
    }
    match entry {
        None => Err(StaticModuleVerificationError::NoEntryPoint),
        Some(ExportKind::Func { params, results }) => {
            if params != 0 {
                Err(StaticModuleVerificationError::EntryTakesParameters)
            } else if results != 0 {
                Err(StaticModuleVerificationError::EntryReturnsValue)
            } else {
                Ok(())
            }
        },
        Some(_) => Err(StaticModuleVerificationError::InvalidEntryPoint),
    }
}

} // verus!
