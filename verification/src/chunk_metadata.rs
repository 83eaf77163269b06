use vstd::prelude::*;

verus! {

/// How a chunk's elements are split into data pages.
#[derive(Debug)]
pub enum PagingSpec {
    /// One page that holds every element of the chunk.
    SinglePage,
    /// The page lengths in order, as the caller gave them.
    ExactPageSizes(Vec<usize>),
}

/// A paging policy as a mathematical value.
pub enum Paging {
    SinglePage,
    ExactPageSizes(Seq<usize>),
}

impl View for PagingSpec {
    type V = Paging;

    open spec fn view(&self) -> Paging {
        match self {
            PagingSpec::SinglePage => Paging::SinglePage,
            PagingSpec::ExactPageSizes(sizes) => Paging::ExactPageSizes(sizes@),
        }
    }
}

impl Default for PagingSpec {
    fn default() -> (p: Self)
        ensures
            p == PagingSpec::SinglePage,
    {
        PagingSpec::SinglePage
    }
}

impl Clone for PagingSpec {
    fn clone(&self) -> (copy: Self)
        ensures
            copy@ == self@,
    {
        match self {
            PagingSpec::SinglePage => PagingSpec::SinglePage,
            PagingSpec::ExactPageSizes(sizes) => {
                let sizes_copy = sizes.clone();
                assert(sizes_copy@ =~= sizes@);
                PagingSpec::ExactPageSizes(sizes_copy)
            },
        }
    }
}

} // verus!
