use vstd::prelude::*;

pub mod raster;

verus! {

} // verus!
