//! Ambiences: the places a drink starts in, cools in, or aims for.
use vstd::prelude::*;

use crate::ids::fresh_id;
use crate::materials::Fluid;
use crate::temperature::Temperature;

verus! {

/// A named environment: a fridge, a freezer, an ice bath, a room, or a
/// target state (whose fluid then plays no part).
#[derive(Debug, Clone)]
pub struct Ambience {
    pub id: uuid::Uuid,
    pub name: String,
    pub path_to_image: String,
    pub temperature: Temperature,
    pub fluid: Fluid,
}

impl Ambience {
    /// An ambience at `temperature`, in `fluid` (air when none is given).
    pub fn new(name: &str, path_to_image: &str, temperature: Temperature, fluid: Option<Fluid>) -> (a: Ambience)
        ensures
            a.name@ == name@,
            a.path_to_image@ == path_to_image@,
            a.temperature == temperature,
            a.fluid == (match fluid {
                Some(f) => f,
                None => Fluid::Air,
            }),
    {
        let fluid = match fluid {
            Some(f) => f,
            None => Fluid::Air,
        };
        Ambience {
            id: fresh_id(),
            name: String::from_str(name),
            path_to_image: String::from_str(path_to_image),
            temperature,
            fluid,
        }
    }
}

} // verus!
