use vstd::prelude::*;

verus! {

/// One destination as the spooler reports it: its name, an optional instance
/// qualifier, whether it is the default destination, and the (name, value)
/// options attached to it at discovery time.
#[derive(Clone, Debug)]
pub struct CupsDestination {
    pub name: String,
    pub instance: Option<String>,
    pub is_default: bool,
    pub options: Vec<(String, String)>,
}

/// The destinations of one enumeration of the spooler, owned together and
/// reached by their position.
pub struct CupsDestinations {
    dests: Vec<CupsDestination>,
}

impl View for CupsDestinations {
    type V = Seq<CupsDestination>;

    closed spec fn view(&self) -> Seq<CupsDestination> {
        self.dests@
    }
}

impl CupsDestinations {
    /// Takes ownership of the destinations of one enumeration, in the order the
    /// spooler gave them. An enumeration that found nothing gives an empty registry.
    pub fn new(dests: Vec<CupsDestination>) -> (r: Self)
        ensures
            r@ == dests@,
    {
        CupsDestinations { dests }
    }

    /// The number of destinations.
    pub fn len(&self) -> (r: usize)
        ensures
            r == self@.len(),
    {
        self.dests.len()
    }

    /// The destination at `index`, or `None` when `index` is not below the
    /// number of destinations.
    pub fn get(&self, index: usize) -> (r: Option<&CupsDestination>)
        ensures
            r is Some <==> index < self@.len(),
            r is Some ==> *r->Some_0 == self@[index as int],
    {
        if index < self.dests.len() {
            Some(&self.dests[index])
        } else {
            None
        }
    }

    /// Gives back the destinations, in order.
    pub fn into_vec(self) -> (r: Vec<CupsDestination>)
        ensures
            r@ == self@,
    {
        self.dests
    }
}

} // verus!
