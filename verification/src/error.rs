//! The two ways in which preparing a face can fail.

use vstd::prelude::*;

verus! {

/// Failure of one step of the pipeline, with a message for the log.
#[derive(Debug)]
pub enum MlError {
    /// The source pixel buffer cannot hold an image of the stated dimensions.
    Preprocess(String),
    /// The transform could not be estimated, or could not be applied.
    Postprocess(String),
}

/// What a step of the pipeline returns.
pub type MlResult<T> = Result<T, MlError>;

impl MlError {
    /// The message carried by either kind.
    pub fn message(&self) -> (text: &String)
        ensures
            match *self {
                MlError::Preprocess(m) => *text == m,
                MlError::Postprocess(m) => *text == m,
            },
    {
        match self {
            MlError::Preprocess(m) => m,
            MlError::Postprocess(m) => m,
        }
    }
}

} // verus!
