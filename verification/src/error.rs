use vstd::prelude::*;

verus! {

/// Failure raised by a rendering strategy that cannot produce valid SQL for
/// a symbol. The dispatcher never originates one of these; it only relays
/// exactly what the chosen strategy returned.
#[derive(Debug)]
pub struct GenerationError {
    pub message: String,
}

impl View for GenerationError {
    type V = Seq<char>;

    open spec fn view(&self) -> Seq<char> {
        self.message@
    }
}

impl GenerationError {
    pub fn new(message: String) -> (r: Self)
        ensures
            r@ == message@,
    {
        GenerationError { message }
    }

    pub fn message(&self) -> (r: &String)
        ensures
            r@ == self@,
    {
        &self.message
    }
}

} // verus!
