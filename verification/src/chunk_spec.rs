use vstd::prelude::*;
use vstd::string::StringExecFns;
use crate::chunk_metadata::{Paging, PagingSpec};
use crate::decimal::{decimal, lemma_decimal_nonempty, to_decimal};
use crate::errors::{ErrorKind, PcoError, PcoResult};

verus! {

/// The sum of a sequence of page sizes.
pub open spec fn total(sizes: Seq<usize>) -> nat
    decreases sizes.len(),
{
    if sizes.len() == 0 {
        0
    } else {
        total(sizes.drop_last()) + sizes.last() as nat
    }
}

/// Whether some page of `sizes` is empty.
pub open spec fn has_empty_page(sizes: Seq<usize>) -> bool {
    exists|i: int| 0 <= i < sizes.len() && sizes[i] == 0
}

/// The message for a page that would hold no numbers.
pub open spec fn empty_page_message() -> Seq<char> {
    "cannot write data page of 0 numbers"@
}

/// The message for page sizes that sum to `suggested` where the chunk holds
/// `given` numbers.
pub open spec fn mismatch_message(suggested: nat, given: nat) -> Seq<char> {
    "chunk spec suggests "@ + decimal(suggested) + " numbers but "@ + decimal(given)
        + " were given"@
}

/// What a paging policy resolves to for a chunk of `n` numbers: the page
/// sizes, or the message of the error. A sum that differs from `n` is
/// reported before an empty page is.
pub open spec fn resolve(paging: Paging, n: usize) -> Result<Seq<usize>, Seq<char>> {
    match paging {
        Paging::SinglePage => if n == 0 {
            Err(empty_page_message())
        } else {
            Ok(seq![n])
        },
        Paging::ExactPageSizes(sizes) => if total(sizes) != n {
            Err(mismatch_message(total(sizes), n as nat))
        } else if has_empty_page(sizes) {
            Err(empty_page_message())
        } else {
            Ok(sizes)
        },
    }
}

/// Whether `needle` stands somewhere in `text` as a contiguous run.
pub open spec fn occurs_in(needle: Seq<char>, text: Seq<char>) -> bool {
    exists|at: int|
        0 <= at && at + needle.len() <= text.len() && #[trigger] text.subrange(
            at,
            at + needle.len(),
        ) == needle
}

/// A single page resolves to the chunk's length for every chunk that is not
/// empty.
pub proof fn lemma_single_page_holds_all(n: usize)
    requires
        n >= 1,
    ensures
        resolve(Paging::SinglePage, n) == Ok::<Seq<usize>, Seq<char>>(seq![n]),
{
}

/// Exact page sizes that are all positive and sum to the chunk's length
/// resolve to themselves.
pub proof fn lemma_exact_sizes_resolve_to_themselves(sizes: Seq<usize>, n: usize)
    requires
        forall|i: int| 0 <= i < sizes.len() ==> sizes[i] >= 1,
        total(sizes) == n,
    ensures
        resolve(Paging::ExactPageSizes(sizes), n) == Ok::<Seq<usize>, Seq<char>>(sizes),
{
}

/// Exact page sizes that do not sum to the chunk's length are refused, with
/// a message that holds both the sum and the length as decimal numerals,
/// neither of which is empty.
pub proof fn lemma_mismatch_names_both(sizes: Seq<usize>, n: usize)
    requires
        total(sizes) != n,
    ensures
        resolve(Paging::ExactPageSizes(sizes), n) == Err::<Seq<usize>, Seq<char>>(
            mismatch_message(total(sizes), n as nat),
        ),
        occurs_in(decimal(total(sizes)), mismatch_message(total(sizes), n as nat)),
        occurs_in(decimal(n as nat), mismatch_message(total(sizes), n as nat)),
        decimal(total(sizes)).len() >= 1,
        decimal(n as nat).len() >= 1,
{
    lemma_decimal_nonempty(total(sizes));
    lemma_decimal_nonempty(n as nat);
    let head = "chunk spec suggests "@;
    let mid = " numbers but "@;
    let suggested = decimal(total(sizes));
    let given = decimal(n as nat);
    let message = mismatch_message(total(sizes), n as nat);
    let at_suggested = head.len() as int;
    let at_given = (head.len() + suggested.len() + mid.len()) as int;
    assert(message.subrange(at_suggested, at_suggested + suggested.len()) =~= suggested);
    assert(message.subrange(at_given, at_given + given.len()) =~= given);
}

/// Exact page sizes that sum to the chunk's length but hold an empty page
/// are refused for the empty page.
pub proof fn lemma_empty_page_refused(sizes: Seq<usize>, n: usize)
    requires
        has_empty_page(sizes),
        total(sizes) == n,
    ensures
        resolve(Paging::ExactPageSizes(sizes), n) == Err::<Seq<usize>, Seq<char>>(
            empty_page_message(),
        ),
{
}

/// Whatever a paging policy resolves to partitions the chunk: the pages sum
/// to its length and none is empty.
pub proof fn lemma_resolved_pages_partition(paging: Paging, n: usize, pages: Seq<usize>)
    requires
        resolve(paging, n) == Ok::<Seq<usize>, Seq<char>>(pages),
    ensures
        total(pages) == n,
        forall|i: int| 0 <= i < pages.len() ==> pages[i] >= 1,
{
    match paging {
        Paging::SinglePage => {
            assert(pages =~= seq![n]);
            assert(pages.drop_last() =~= Seq::<usize>::empty());
            assert(total(pages) == total(pages.drop_last()) + pages.last() as nat);
        },
        Paging::ExactPageSizes(sizes) => {},
    }
}

/// A specification for how many elements there will be in each of a chunk's
/// data pages.
///
/// By default this specifies a single data page containing all the data.
/// Exact data page sizes can be given with
/// [`with_page_sizes`](Self::with_page_sizes); they are checked against the
/// chunk's length when the page sizes are resolved.
#[derive(Debug)]
pub struct ChunkSpec {
    paging_spec: PagingSpec,
}

impl View for ChunkSpec {
    type V = Paging;

    /// The paging policy that the spec holds.
    closed spec fn view(&self) -> Paging {
        self.paging_spec@
    }
}

impl Default for ChunkSpec {
    fn default() -> (spec: Self)
        ensures
            spec@ == Paging::SinglePage,
    {
        ChunkSpec { paging_spec: PagingSpec::SinglePage }
    }
}

impl Clone for ChunkSpec {
    fn clone(&self) -> (copy: Self)
        ensures
            copy@ == self@,
    {
        ChunkSpec { paging_spec: self.paging_spec.clone() }
    }
}

/// The sum of `sizes`, which always fits in 128 bits.
fn sum_of(sizes: &Vec<usize>) -> (sum: u128)
    ensures
        sum == total(sizes@),
{
    let mut sum: u128 = 0;
    let mut i: usize = 0;
    while i < sizes.len()
        invariant
            i <= sizes.len(),
            sum == total(sizes@.take(i as int)),
            sum <= i * 0xffff_ffff_ffff_ffff,
        decreases sizes.len() - i,
    {
        assert(sizes@.take(i + 1).drop_last() =~= sizes@.take(i as int));
        sum = sum + sizes[i] as u128;
        i = i + 1;
    }
    assert(sizes@.take(i as int) =~= sizes@);
    sum
}

/// Whether `sizes` holds a zero.
fn any_empty_page(sizes: &Vec<usize>) -> (found: bool)
    ensures
        found == has_empty_page(sizes@),
{
    let mut i: usize = 0;
    while i < sizes.len()
        invariant
            i <= sizes.len(),
            forall|j: int| 0 <= j < i ==> sizes@[j] != 0,
        decreases sizes.len() - i,
    {
        if sizes[i] == 0 {
            return true;
        }
        i = i + 1;
    }
    false
}

fn empty_page_error() -> (e: PcoError)
    ensures
        e.kind == ErrorKind::InvalidArgument,
        e.message@ == empty_page_message(),
{
    PcoError::invalid_argument(String::from_str("cannot write data page of 0 numbers"))
}

fn mismatch_error(suggested: u128, given: usize) -> (e: PcoError)
    ensures
        e.kind == ErrorKind::InvalidArgument,
        e.message@ == mismatch_message(suggested as nat, given as nat),
{
    let mut message = String::from_str("chunk spec suggests ");
    let suggested_text = to_decimal(suggested);
    message.append(suggested_text.as_str());
    message.append(" numbers but ");
    let given_text = to_decimal(given as u128);
    message.append(given_text.as_str());
    message.append(" were given");
    PcoError::invalid_argument(message)
}

impl ChunkSpec {
    /// Modifies the spec to use the exact data page sizes given. These must
    /// sum to the actual number of elements to be compressed; that is
    /// checked when the page sizes are resolved, not here.
    pub fn with_page_sizes(self, sizes: Vec<usize>) -> (spec: Self)
        ensures
            spec@ == Paging::ExactPageSizes(sizes@),
    {
        let mut spec = self;
        spec.paging_spec = PagingSpec::ExactPageSizes(sizes);
        spec
    }

    /// The data page sizes for a chunk of `n` numbers.
    pub fn page_sizes(&self, n: usize) -> (r: PcoResult<Vec<usize>>)
        ensures
            match r {
                Ok(sizes) => resolve(self@, n) == Ok::<Seq<usize>, Seq<char>>(sizes@),
                Err(e) => e.kind == ErrorKind::InvalidArgument && resolve(self@, n) == Err::<
                    Seq<usize>,
                    Seq<char>,
                >(e.message@),
            },
    {
        match &self.paging_spec {
            PagingSpec::SinglePage => {
                if n == 0 {
                    Err(empty_page_error())
                } else {
                    let mut sizes: Vec<usize> = Vec::new();
                    sizes.push(n);
                    assert(sizes@ =~= seq![n]);
                    Ok(sizes)
                }
            },
            PagingSpec::ExactPageSizes(sizes) => {
                let sizes_n = sum_of(sizes);
                if sizes_n != n as u128 {
                    Err(mismatch_error(sizes_n, n))
                } else if any_empty_page(sizes) {
                    Err(empty_page_error())
                } else {
                    let copy = sizes.clone();
                    assert(copy@ =~= sizes@);
                    Ok(copy)
                }
            },
        }
    }
}

} // verus!
