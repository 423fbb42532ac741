use vstd::prelude::*;

pub mod pulse;

verus! {

} // verus!
