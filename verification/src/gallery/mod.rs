//! The decisions of the guided walkthroughs that teach the protocol step by step: what
//! each press of Next, Back or Reset does to a walkthrough's state, which library
//! operations it runs, and the texts it reports.
pub mod edu;
pub mod key_generation;
pub mod x3dh_walkthrough;
pub mod ratchet_walkthrough;
pub mod skipped_walkthrough;
pub mod error_walkthrough;
pub mod session_walkthrough;
