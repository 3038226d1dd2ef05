use vstd::prelude::*;

verus! {

/// The speaker of one message in a generic completion request.
#[derive(Clone, Copy, Debug, PartialEq, Eq, Structural)]
pub enum Role {
    System,
    User,
    Assistant,
}

} // verus!
