use vstd::prelude::*;
use vstd::string::StringExecFns;

verus! {

/// Why a table could not be built, or a query not be answered.
#[derive(Debug, Clone, PartialEq, Eq)]
pub enum InterpError {
    /// A coordinate lies off the number line, or there is no observation.
    InvalidData,
    /// The point lies before every observation; `min` is the first coordinate.
    OutOfRangeLeft { point: String, min: String },
    /// The point lies after every observation; `max` is the last coordinate.
    OutOfRangeRight { point: String, max: String },
    /// The value type has no result for a step of the blend between two
    /// observations: a stretch of the coordinate line has no image in it, or
    /// an operation on its values has none.
    ValueFromTFailed,
}

impl InterpError {
    /// The error in words.
    pub open spec fn message_text(self) -> Seq<char> {
        match self {
            InterpError::InvalidData => "Data contains a nan or inf"@,
            InterpError::OutOfRangeLeft { point, min } => {
                "Interpolation requested out of range. Point is to the left of all data. point: "@
                    + point@ + "; min: "@ + min@
            },
            InterpError::OutOfRangeRight { point, max } => {
                "Interpolation requested out of range. Point is to the right of all data. point: "@
                    + point@ + "; max: "@ + max@
            },
            InterpError::ValueFromTFailed => "U -> T try_from conversion failed"@,
        }
    }

    /// Writes the error out for a reader.
    pub fn message(&self) -> (text: String)
        ensures
            text@ == self.message_text(),
    {
        match self {
            InterpError::InvalidData => "Data contains a nan or inf".to_owned(),
            InterpError::OutOfRangeLeft { point, min } => {
                let head =
                    "Interpolation requested out of range. Point is to the left of all data. point: ".to_owned();
                head.concat(point.as_str()).concat("; min: ").concat(min.as_str())
            },
            InterpError::OutOfRangeRight { point, max } => {
                let head =
                    "Interpolation requested out of range. Point is to the right of all data. point: ".to_owned();
                head.concat(point.as_str()).concat("; max: ").concat(max.as_str())
            },
            InterpError::ValueFromTFailed => "U -> T try_from conversion failed".to_owned(),
        }
    }
}

} // verus!
