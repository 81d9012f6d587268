//! The algebraic laws of the container families, stated over the
//! mathematical models and proved once and for all: the functor laws, the
//! applicative laws, and the monad laws.

pub mod applicative;
pub mod functor;
pub mod monad;
