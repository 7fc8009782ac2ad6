//! Poll-based futures: single-shot computations that finish with a success
//! value or an error value, and the combinators that compose them.
//!
//! A future is driven by handing it to [`Future::poll`], which consumes it and
//! returns either its outcome or the future to poll next time. Nothing here
//! wakes, schedules or blocks: when to poll again is the caller's business.

pub mod and_then;
pub mod boxed;
pub mod empty;
pub mod future;
pub mod join;
pub mod map;
pub mod or_else;
pub mod receiver;
pub mod result;
pub mod select;

pub use crate::and_then::{AndThen, AndThenState};
pub use crate::empty::Empty;
pub use crate::future::{Future, FutureExt, IntoFuture, Poll};
pub use crate::join::{Join, JoinState};
pub use crate::map::{MapErr, MapItem};
pub use crate::or_else::{OrElse, OrElseState};
pub use crate::receiver::{Disconnected, Received};
pub use crate::result::FutureResult;
pub use crate::select::Select;
