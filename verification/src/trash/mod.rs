//! Moving items to the system trash. Nothing is ever deleted permanently:
//! every item goes to the trash, and only after the safety checks here.

pub mod mover;
