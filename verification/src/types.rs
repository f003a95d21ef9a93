//! The error surface of the calling engine.

use vstd::prelude::*;
use vstd::string::StringExecFns;

verus! {

/// Every failure a reflection or call step can report.
///
/// `BadAllocation` is a failed context or table allocation, `BadParam` a
/// binding rejected for a wrong slot or type, `FuncNotFound` a registry
/// lookup miss, and `Misc` any other non-success status.
#[derive(Debug, Clone, PartialEq, Eq, PartialOrd, Ord, Hash)]
pub enum TaError {
    BadAllocation,
    BadParam,
    FuncNotFound(String),
    Misc(String),
}

pub type TaResult<T> = Result<T, TaError>;

impl TaError {
    /// A human-readable description of the error.
    pub fn message(&self) -> (r: String)
        ensures
            match self {
                TaError::BadAllocation => r@ == "Bad allocation"@,
                TaError::BadParam => r@ == "Bad param"@,
                TaError::FuncNotFound(e) => r@ == "Function with name "@ + e@ + " not found"@,
                TaError::Misc(e) => r@ == "Misc error: "@ + e@,
            },
    {
        match self {
            TaError::BadAllocation => "Bad allocation".to_owned(),
            TaError::BadParam => "Bad param".to_owned(),
            TaError::FuncNotFound(e) => {
                let mut s = "Function with name ".to_owned();
                s.append(e.as_str());
                s.append(" not found");
                s
            },
            TaError::Misc(e) => {
                let mut s = "Misc error: ".to_owned();
                s.append(e.as_str());
                s
            },
        }
    }
}

} // verus!
