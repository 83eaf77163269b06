use pco::{ChunkSpec, ErrorKind, PagingSpec, PcoError};

fn message_of(r: Result<Vec<usize>, PcoError>) -> String {
    match r {
        Ok(sizes) => panic!("resolved to {:?}", sizes),
        Err(e) => {
            assert_eq!(e.kind, ErrorKind::InvalidArgument);
            e.message
        }
    }
}

#[test]
fn default_spec_is_a_single_page() {
    assert_eq!(ChunkSpec::default().page_sizes(6).unwrap(), vec![6]);
}

#[test]
fn single_page_for_every_length() {
    for n in [1usize, 2, 255, 1 << 20, usize::MAX] {
        assert_eq!(ChunkSpec::default().page_sizes(n).unwrap(), vec![n]);
    }
}

#[test]
fn single_page_of_nothing_is_refused() {
    assert_eq!(
        message_of(ChunkSpec::default().page_sizes(0)),
        "cannot write data page of 0 numbers"
    );
}

#[test]
fn exact_sizes_resolve_to_themselves() {
    let spec = ChunkSpec::default().with_page_sizes(vec![1, 2, 3]);
    assert_eq!(spec.page_sizes(6).unwrap(), vec![1, 2, 3]);
}

#[test]
fn exact_sizes_keep_their_order() {
    let spec = ChunkSpec::default().with_page_sizes(vec![7, 1, 1, 40, 2]);
    assert_eq!(spec.page_sizes(51).unwrap(), vec![7, 1, 1, 40, 2]);
}

#[test]
fn one_exact_page() {
    let spec = ChunkSpec::default().with_page_sizes(vec![9]);
    assert_eq!(spec.page_sizes(9).unwrap(), vec![9]);
}

#[test]
fn sum_mismatch_names_both_numbers() {
    let spec = ChunkSpec::default().with_page_sizes(vec![1, 2, 3]);
    assert_eq!(
        message_of(spec.page_sizes(5)),
        "chunk spec suggests 6 numbers but 5 were given"
    );
}

#[test]
fn sum_mismatch_with_many_digits() {
    let spec = ChunkSpec::default().with_page_sizes(vec![1000, 20, 3]);
    let message = message_of(spec.page_sizes(987654));
    assert_eq!(message, "chunk spec suggests 1023 numbers but 987654 were given");
    assert!(message.contains("1023"));
    assert!(message.contains("987654"));
}

#[test]
fn empty_page_is_refused() {
    let spec = ChunkSpec::default().with_page_sizes(vec![2, 0, 3]);
    assert_eq!(message_of(spec.page_sizes(5)), "cannot write data page of 0 numbers");
}

#[test]
fn empty_page_at_either_end_is_refused() {
    let first = ChunkSpec::default().with_page_sizes(vec![0, 4]);
    assert_eq!(message_of(first.page_sizes(4)), "cannot write data page of 0 numbers");
    let last = ChunkSpec::default().with_page_sizes(vec![4, 0]);
    assert_eq!(message_of(last.page_sizes(4)), "cannot write data page of 0 numbers");
    let only = ChunkSpec::default().with_page_sizes(vec![0]);
    assert_eq!(message_of(only.page_sizes(0)), "cannot write data page of 0 numbers");
}

#[test]
fn sum_mismatch_is_reported_before_an_empty_page() {
    let spec = ChunkSpec::default().with_page_sizes(vec![0]);
    assert_eq!(
        message_of(spec.page_sizes(5)),
        "chunk spec suggests 0 numbers but 5 were given"
    );
    let spec = ChunkSpec::default().with_page_sizes(vec![2, 0, 3]);
    assert_eq!(
        message_of(spec.page_sizes(6)),
        "chunk spec suggests 5 numbers but 6 were given"
    );
}

#[test]
fn no_pages_for_no_numbers() {
    let spec = ChunkSpec::default().with_page_sizes(vec![]);
    assert_eq!(spec.page_sizes(0).unwrap(), Vec::<usize>::new());
    assert_eq!(
        message_of(spec.page_sizes(3)),
        "chunk spec suggests 0 numbers but 3 were given"
    );
}

#[test]
fn a_sum_beyond_the_machine_word_is_a_mismatch() {
    let spec = ChunkSpec::default().with_page_sizes(vec![usize::MAX, 1]);
    let sum = usize::MAX as u128 + 1;
    assert_eq!(
        message_of(spec.page_sizes(0)),
        format!("chunk spec suggests {} numbers but 0 were given", sum)
    );
    let spec = ChunkSpec::default().with_page_sizes(vec![usize::MAX, usize::MAX, 2]);
    let sum = 2 * (usize::MAX as u128) + 2;
    assert_eq!(
        message_of(spec.page_sizes(usize::MAX)),
        format!(
            "chunk spec suggests {} numbers but {} were given",
            sum,
            usize::MAX
        )
    );
}

#[test]
fn later_page_sizes_replace_earlier_ones() {
    let spec = ChunkSpec::default().with_page_sizes(vec![1, 1]).with_page_sizes(vec![3]);
    assert_eq!(spec.page_sizes(3).unwrap(), vec![3]);
    assert!(spec.page_sizes(2).is_err());
}

#[test]
fn resolved_pages_are_a_fresh_copy() {
    let spec = ChunkSpec::default().with_page_sizes(vec![4, 5]);
    let mut pages = spec.page_sizes(9).unwrap();
    pages[0] = 100;
    pages.push(1);
    assert_eq!(spec.page_sizes(9).unwrap(), vec![4, 5]);
}

#[test]
fn resolved_pages_partition_the_chunk() {
    let specs = [
        (ChunkSpec::default(), 17usize),
        (ChunkSpec::default().with_page_sizes(vec![5, 5, 7]), 17),
        (ChunkSpec::default().with_page_sizes(vec![17]), 17),
    ];
    for (spec, n) in specs {
        let pages = spec.page_sizes(n).unwrap();
        assert_eq!(pages.iter().sum::<usize>(), n);
        assert!(pages.iter().all(|&size| size >= 1));
    }
}

#[test]
fn a_cloned_spec_resolves_alike() {
    let spec = ChunkSpec::default().with_page_sizes(vec![2, 3]);
    let copy = spec.clone();
    assert_eq!(copy.page_sizes(5).unwrap(), spec.page_sizes(5).unwrap());
}

#[test]
fn default_paging_is_a_single_page() {
    assert!(matches!(PagingSpec::default(), PagingSpec::SinglePage));
}

#[test]
fn invalid_argument_keeps_the_message() {
    let e = PcoError::invalid_argument(String::from("no good"));
    assert_eq!(e.kind, ErrorKind::InvalidArgument);
    assert_eq!(e.message, "no good");
}

#[test]
fn a_cloned_error_is_the_same_error() {
    let spec = ChunkSpec::default().with_page_sizes(vec![1, 2, 3]);
    let e = spec.page_sizes(7).unwrap_err();
    let copy = e.clone();
    assert_eq!(copy.kind, e.kind);
    assert_eq!(copy.message, "chunk spec suggests 6 numbers but 7 were given");
}

#[test]
fn a_cloned_default_spec_is_a_single_page() {
    assert_eq!(ChunkSpec::default().clone().page_sizes(3).unwrap(), vec![3]);
    assert!(matches!(PagingSpec::ExactPageSizes(vec![1]).clone(), PagingSpec::ExactPageSizes(v) if v == vec![1]));
}
