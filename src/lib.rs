//! Comparing values that live at different "times".
//!
//! An item of a [`Synchronize`] type knows its own time and can try to be
//! re-expressed at another one. Two items are compared by first bringing them
//! to a common time; when that is impossible they are incomparable, which is
//! neither equal nor unequal.
//!
//! A [`CoreEquiv`] class produces a sequence of such items together with a
//! representative item, the core. When the class declares that every item can
//! reach the core's time (cosynchronizable), or that the core can reach every
//! item's time (synchronizable), checking that all items are equivalent takes
//! one synchronization per item instead of one per pair.

use vstd::prelude::*;

pub mod core_equiv;
pub mod laws;
pub mod stamped;
pub mod synchronize;

pub use core_equiv::CoreEquiv;
pub use synchronize::Synchronize;
