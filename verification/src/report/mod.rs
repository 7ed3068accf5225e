//! What the command-line tool says about an index: where a binding can
//! be changed, conflicts as blocks and rows, free combos, who gets a
//! combo and what a probe saw, and the setup checks. Printing and table
//! layout are the caller's; the text and the decisions are made here.

pub mod conflicts;
pub mod doctor;
pub mod free;
pub mod output;
pub mod who;
