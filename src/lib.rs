use vstd::prelude::*;

pub mod utils;
pub mod memory;
pub mod btreemem;
pub mod splitmem;
pub mod registers;
pub mod arithmetic;
pub mod immupper;
pub mod mem;
pub mod instruction;
pub mod io;
pub mod vm;

verus! {

} // verus!
