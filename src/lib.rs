//! A post that moves through a draft / review / publish workflow, with its
//! text visible only once it has been published.

pub mod laws;
mod post;

pub use post::{Post, PostView, State};
