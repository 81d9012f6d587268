//! A library of container-transformation algebras: uniform operations
//! (map, apply, bind, fold, traverse, duplicate, rescope) defined for many
//! container shapes — an optional value, a list, a boxed value, a
//! success/failure result — and for stacks of these containers nested inside
//! one another, such as an optional list or a list of optionals.
//!
//! Each family of containers is represented by a marker type (its
//! "container constructor") whose associated functions carry the algebra for
//! that family. The algebraic laws — functor identity and composition, the
//! applicative laws, the monad laws — are stated and proved over
//! mathematical models of the containers in the `laws` modules.

pub mod array;
pub mod bind_t;
pub mod boxed;
pub mod extensions;
pub mod fold;
pub mod future;
pub mod guard;
pub mod id;
pub mod iter;
pub mod laws;
pub mod model;
pub mod nullary;
pub mod one_of;
pub mod option_t;
pub mod reference;
pub mod relayer;
pub mod result_t;
pub mod slice;
pub mod sync;
pub mod textgen;
pub mod traits;
pub mod utils;
pub mod vec_t;
pub mod views;
pub mod wrapper;

pub use fold::Converge;
pub use fold::FoldWhile;
