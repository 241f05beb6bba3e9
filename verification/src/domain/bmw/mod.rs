//! The BMW implementation of the domain abstractions, registered like any
//! other `Manufacturer`.

use super::Manufacturer;
use vstd::prelude::*;

verus! {

pub struct Bmw;

/// The BMW platforms known to the app. E-Series is listed for domain
/// completeness; V1 implements the F-Series path end to end.
pub open spec fn bmw_platforms() -> Seq<Seq<char>> {
    seq!["F-Series"@, "E-Series"@]
}

impl Manufacturer for Bmw {
    fn name(&self) -> (r: &'static str)
        ensures
            r@ == "BMW"@,
    {
        "BMW"
    }

    fn platforms(&self) -> (r: &'static [&'static str])
        ensures
            r@.len() == bmw_platforms().len(),
            forall|i: int| 0 <= i < r@.len() ==> r@[i]@ == #[trigger] bmw_platforms()[i],
    {
        let p: &'static [&'static str] = &["F-Series", "E-Series"];
        p
    }
}

} // verus!
