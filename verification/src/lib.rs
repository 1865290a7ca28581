//! Call-recording test doubles.
//!
//! A [`Mock`] stands in for one method of a hand-written fake. Every call made
//! through it is recorded in order, and the answer comes from whichever
//! strategy is configured at that moment: a stub value, a function or a
//! closure.
//!
//! The contracts speak of a mock through a small mathematical model: its
//! recorded history (a sequence of arguments), its stub value, and the kind
//! and behaviour of the override that is installed, if any.

use vstd::prelude::*;

pub mod answering;
pub mod mock;
pub mod outcome;
pub mod trace;

pub use mock::{Dispatch, Mock, MockView};

verus! {

/// Another name for [`Mock`].
pub type Pseudo<C, R> = Mock<C, R>;

} // verus!
