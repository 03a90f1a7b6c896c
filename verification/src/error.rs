//! The failures that the engine reports to its caller.

use vstd::prelude::*;

verus! {

/// What went wrong while a session or one of its resources was set up.
///
/// The first and the last variant end the session: without a connection or
/// without a true-color visual no window can ever be shown. The other two
/// concern a single resource, and the session goes on.
#[derive(Clone, Copy, Debug, PartialEq, Eq, Structural)]
pub enum MlxError {
    /// The connection to the display server could not be opened.
    MlxCreationError,
    /// The server did not hand out a window.
    WindowCreationError,
    /// Neither the shared-memory path nor the plain path produced an image.
    ImageCreationError,
    /// The server offers no true-color visual at the depth of its screen.
    NoTrueColorVisual,
}

impl MlxError {
    /// The text of the message for each failure.
    pub open spec fn message_text(self) -> Seq<char> {
        match self {
            MlxError::MlxCreationError => "Failed to create mlx"@,
            MlxError::WindowCreationError => "Faild to create new mlx window"@,
            MlxError::ImageCreationError => "Failed to create new mlx image"@,
            MlxError::NoTrueColorVisual => "Minilibx Error : No TrueColor Visual available."@,
        }
    }

    /// The message that describes this failure to a person.
    pub fn message(&self) -> (text: String)
        ensures
            text@ == self.message_text(),
    {
        match self {
            MlxError::MlxCreationError => "Failed to create mlx".to_owned(),
            MlxError::WindowCreationError => "Faild to create new mlx window".to_owned(),
            MlxError::ImageCreationError => "Failed to create new mlx image".to_owned(),
            MlxError::NoTrueColorVisual => "Minilibx Error : No TrueColor Visual available.".to_owned(),
        }
    }
}

} // verus!
