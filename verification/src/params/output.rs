//! Descriptors of a function's produced output series.

use vstd::prelude::*;

use crate::flags::OutputFlags;
use crate::func_handle::FuncHandle;
use crate::types::{TaError, TaResult};

verus! {

/// The element kind of one output slot.
#[derive(Debug, Clone, Copy, PartialEq, Eq, Structural, Hash)]
pub enum OutputType {
    Real,
    Integer,
}

/// One output slot of a function: its name, its 0-based binding position,
/// its element kind and its advisory rendering roles.
#[derive(Debug, Clone, PartialEq)]
pub struct Output {
    pub name: String,
    pub position: usize,
    pub param_type: OutputType,
    pub flags: OutputFlags,
}

impl Output {
    pub fn new(name: String, position: usize, param_type: OutputType, flags: OutputFlags) -> (r:
        Self)
        ensures
            r == (Output { name, position, param_type, flags }),
    {
        Self { name, position, param_type, flags }
    }

    pub fn name(&self) -> (r: &str)
        ensures
            r@ == self.name@,
    {
        self.name.as_str()
    }

    pub fn position(&self) -> (r: usize)
        ensures
            r == self.position,
    {
        self.position
    }

    pub fn param_type(&self) -> (r: OutputType)
        ensures
            r == self.param_type,
    {
        self.param_type
    }

    pub fn flags(&self) -> (r: OutputFlags)
        ensures
            r == self.flags,
    {
        self.flags
    }

    /// Reads the output descriptor at `position` from the handle's function
    /// definition, as the reflection interface reports it.
    pub fn try_from(handle: &FuncHandle, position: usize) -> (r: TaResult<Output>)
        ensures
            position < handle.def.output_rows@.len() ==> r == Ok::<Output, TaError>(
                Output {
                    name: handle.def.output_rows@[position as int].name,
                    position,
                    param_type: handle.def.output_rows@[position as int].param_type,
                    flags: handle.def.output_rows@[position as int].flags,
                },
            ),
            position >= handle.def.output_rows@.len() ==> r == Err::<Output, TaError>(
                TaError::BadParam,
            ),
    {
        if position < handle.def.output_rows.len() {
            let row = &handle.def.output_rows[position];
            Ok(
                Output {
                    name: row.name.clone(),
                    position,
                    param_type: row.param_type,
                    flags: row.flags,
                },
            )
        } else {
            Err(TaError::BadParam)
        }
    }
}

} // verus!
