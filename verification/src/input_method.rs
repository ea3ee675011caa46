//! The input method a widget asks the window to use (for IME composition).
//!
//! Positions and text sizes are screen geometry, which this library only
//! carries: they are type parameters (`P` and `S`).
use vstd::prelude::*;

verus! {

/// The purpose of an input method.
#[derive(Debug, Clone, Copy, PartialEq, Eq, Hash, Structural)]
pub enum Purpose {
    /// Regular text input.
    Normal,
    /// Secure input (passwords).
    Secure,
    /// Terminal input.
    Terminal,
}

/// The text being composed by an input method.
#[derive(Debug)]
pub struct Preedit<S> {
    /// The composed text.
    pub content: String,
    /// The selected range of the content, in bytes.
    pub selection: Option<(usize, usize)>,
    /// The text size of the content.
    pub text_size: Option<S>,
}

/// An input method strategy.
#[derive(Debug)]
pub enum InputMethod<P, S> {
    /// No input method.
    Disabled,
    /// An input method is open.
    Enabled {
        /// Where the candidate window goes.
        position: P,
        /// The purpose of the input.
        purpose: Purpose,
        /// The text being composed, if any.
        preedit: Option<Preedit<S>>,
    },
}

impl<P: Copy, S: Copy> InputMethod<P, S> {
    /// Returns an owned copy of this strategy.
    pub fn to_owned(&self) -> (r: Self)
        ensures
            r == *self,
    {
        match self {
            InputMethod::Disabled => InputMethod::Disabled,
            InputMethod::Enabled { position, purpose, preedit } => {
                let preedit = match preedit {
                    None => None,
                    Some(p) => Some(
                        Preedit {
                            content: p.content.clone(),
                            selection: p.selection,
                            text_size: p.text_size,
                        },
                    ),
                };
                InputMethod::Enabled { position: *position, purpose: *purpose, preedit }
            },
        }
    }

    /// Merges two strategies, keeping the first one when it is open: an
    /// enabled input method stays; a disabled one takes `other`.
    pub fn merge(&mut self, other: &Self)
        ensures
            *final(self) == (if *old(self) is Enabled {
                *old(self)
            } else {
                *other
            }),
    {
        if let InputMethod::Enabled { .. } = self {
            return ;
        }
        *self = other.to_owned();
    }
}

} // verus!
