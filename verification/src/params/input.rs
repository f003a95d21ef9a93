//! Descriptors of a function's required input series.

use vstd::prelude::*;

use crate::flags::InputFlags;
use crate::func_handle::FuncHandle;
use crate::types::{TaError, TaResult};

verus! {

/// The shape of one input slot: a real series, an integer series, or a
/// six-component price bundle.
#[derive(Debug, Copy, Clone, PartialEq, Eq, Structural, Hash)]
pub enum InputType {
    Real,
    Integer,
    Price,
}

/// One input slot of a function: its name, its 0-based binding position, its
/// shape, and — for price bundles — which components the function reads.
#[derive(Debug, Clone, PartialEq)]
pub struct Input {
    pub name: String,
    pub position: usize,
    pub param_type: InputType,
    pub flags: InputFlags,
}

impl Input {
    pub fn new(name: String, position: usize, param_type: InputType, flags: InputFlags) -> (r:
        Self)
        ensures
            r == (Input { name, position, param_type, flags }),
    {
        Self { name, position, param_type, flags }
    }

    pub fn position(&self) -> (r: usize)
        ensures
            r == self.position,
    {
        self.position
    }

    pub fn name(&self) -> (r: &str)
        ensures
            r@ == self.name@,
    {
        self.name.as_str()
    }

    pub fn param_type(&self) -> (r: InputType)
        ensures
            r == self.param_type,
    {
        self.param_type
    }

    pub fn flags(&self) -> (r: InputFlags)
        ensures
            r == self.flags,
    {
        self.flags
    }

    /// Reads the input descriptor at `position` from the handle's function
    /// definition, as the reflection interface reports it.
    pub fn try_from(handle: &FuncHandle, position: usize) -> (r: TaResult<Input>)
        ensures
            position < handle.def.input_rows@.len() ==> r == Ok::<Input, TaError>(
                Input {
                    name: handle.def.input_rows@[position as int].name,
                    position,
                    param_type: handle.def.input_rows@[position as int].param_type,
                    flags: handle.def.input_rows@[position as int].flags,
                },
            ),
            position >= handle.def.input_rows@.len() ==> r == Err::<Input, TaError>(
                TaError::BadParam,
            ),
    {
        if position < handle.def.input_rows.len() {
            let row = &handle.def.input_rows[position];
            Ok(
                Input {
                    name: row.name.clone(),
                    position,
                    param_type: row.param_type,
                    flags: row.flags,
                },
            )
        } else {
            Err(TaError::BadParam)
        }
    }
}

} // verus!
