use vstd::prelude::*;

verus! {

/// A program image: the raw bytes to be loaded verbatim at the conventional
/// start offset. How the bytes are obtained (a file, a literal) is the
/// caller's business; the machine only copies them.
pub struct Program {
    pub content: Vec<u8>,
}

impl View for Program {
    type V = Seq<u8>;

    open spec fn view(&self) -> Seq<u8> {
        self.content@
    }
}

} // verus!
