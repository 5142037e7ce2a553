//! The flow handlers. Each handler alternates decisions, made here, with
//! calls to Kratos or Hydra, made by the caller: a handler starts with a
//! step, the caller performs the call that the step names and hands the
//! result to the function that gives the next step, until a step is done.
pub mod common;
pub mod variants;
pub mod identity;
pub mod login;
pub mod consent;
pub mod error;
pub mod logout;
pub mod verification;
