//! A model-view-update core, and the crate information page built on it.
//!
//! The state of an application is its [`Model`]: it changes only when it
//! handles a message, and each transition hands back a [`ControlFlow`] that
//! says whether what is shown has to be rendered again. A view function turns
//! the state into a tree of [`Node`]s. Where a view function has to choose
//! between views of different types, it holds the chosen one in a
//! [`OneOf2`] or [`OneOf4`], or erases its type with [`AnyView`]. The
//! [`Runtime`] is the update loop: it owns the model, handles the messages
//! in the order of their arrival and renders after a transition that asks
//! for it, and after no other.
//!
//! The page itself is in [`model`], its state and messages, and in [`page`],
//! its view functions.

pub mod any_view;
pub mod fault;
pub mod flow;
pub mod model;
pub mod node;
pub mod one_of;
pub mod page;
pub mod runtime;

pub use any_view::AnyView;
pub use fault::Fault;
pub use flow::{ControlFlow, Model};
pub use model::{App, CrateMessage, CrateScreen, Message, Screen, Tab, Version};
pub use node::{Attr, Attributes, Node, Render};
pub use one_of::{OneOf2, OneOf4};
pub use runtime::{Action, Phase, Runtime};
