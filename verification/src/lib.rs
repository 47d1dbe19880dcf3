//! The native view class of the AppKit backend, described as plain data.
//!
//! `selector` holds the Objective-C rule that ties a selector's name to the
//! number of arguments its implementation takes; `view_class` lists the methods
//! the view class registers and proves that each selector's colon count matches
//! its implementation's argument count and that no selector repeats (the two
//! checks the runtime's class builder makes of each method it adds);
//! `text_input` holds the replies of the view's text-input client, which keeps no
//! text of its own; `teardown` orders the steps run when a view is deallocated.
pub mod selector;
pub mod teardown;
pub mod text_input;
pub mod view_class;
