use vstd::prelude::*;

verus! {

/// How the library reaches its user (a terminal, an editor).
pub trait Interface {

}

/// The entry point of the API, holding the user interface it reports through.
pub struct ApiContext<I: Interface> {
    interface: I,
}

impl<I: Interface> ApiContext<I> {
    /// The interface this context was made with.
    pub closed spec fn interface_spec(&self) -> I {
        self.interface
    }

    pub fn new(interface: I) -> (r: Self)
        ensures
            r.interface_spec() == interface,
    {
        Self { interface }
    }

    /// The interface this context reports through.
    pub fn interface(&self) -> (r: &I)
        ensures
            *r == self.interface_spec(),
    {
        &self.interface
    }
}

} // verus!
