use ark_ff::One;
use ark_test_curves::bls12_381::Fr;
use gemini_stream::error::InvalidParameters;
use gemini_stream::iterable::dummy::{
    dummy_r1cs_stream, ConcatStreamer, DiagonalMatrixStreamer, DummyStreamer, Mat,
    RepeatMatrixStreamer, RepeatStreamer, SingleEntryStream,
};
use gemini_stream::iterable::{collect, Iterable, Traversal};
use gemini_stream::misc::MatrixElement;

#[test]
fn test_dummy_streamer() {
    let e = 1;
    let dummy = DummyStreamer::new(e, 1);
    let mut stream = dummy.iter();

    assert_eq!(stream.next(), Some(1));
    assert_eq!(stream.next(), None);
}

#[test]
fn test_dummy_matrix_streamer() {
    let e = Fr::one();
    let dummy = DiagonalMatrixStreamer::new(e, 2);
    let mut stream = dummy.iter();

    assert_eq!(stream.next(), Some(MatrixElement::Element((e, 1))));
    assert_eq!(stream.next(), Some(MatrixElement::EOL));
    assert_eq!(stream.next(), Some(MatrixElement::Element((e, 0))));
    assert_eq!(stream.next(), Some(MatrixElement::EOL));
}

#[test]
fn constant_streamer_repeats_its_element() {
    let three = DummyStreamer::new(7u32, 3);
    assert_eq!(three.len(), 3);
    assert!(!three.is_empty());
    assert_eq!(collect(&mut three.iter()), vec![7, 7, 7]);

    let none = DummyStreamer::new(7u32, 0);
    assert_eq!(none.len(), 0);
    assert!(none.is_empty());
    assert_eq!(collect(&mut none.iter()), Vec::<u32>::new());
}

#[test]
fn diagonal_streamer_walks_rows_from_last_to_first() {
    let d = DiagonalMatrixStreamer::new(5u64, 2);
    assert_eq!(d.len(), 4);
    assert_eq!(
        collect(&mut d.iter()),
        vec![
            MatrixElement::Element((5, 1)),
            MatrixElement::EOL,
            MatrixElement::Element((5, 0)),
            MatrixElement::EOL,
        ]
    );

    let three = DiagonalMatrixStreamer::new(5u64, 3);
    assert_eq!(three.len(), 6);
    assert_eq!(
        collect(&mut three.iter()),
        vec![
            MatrixElement::Element((5, 2)),
            MatrixElement::EOL,
            MatrixElement::Element((5, 1)),
            MatrixElement::EOL,
            MatrixElement::Element((5, 0)),
            MatrixElement::EOL,
        ]
    );
}

#[test]
fn diagonal_streamer_of_no_rows_is_empty() {
    let d = DiagonalMatrixStreamer::new(5u64, 0);
    assert_eq!(d.len(), 0);
    assert!(d.is_empty());
    let mut it = d.iter();
    assert_eq!(it.next(), None);
    assert_eq!(it.next(), None);
}

#[test]
fn diagonal_streamer_over_a_field() {
    let e = Fr::one() + Fr::one();
    let d = DiagonalMatrixStreamer::new(e, 1);
    assert_eq!(d.len(), 2);
    assert_eq!(
        collect(&mut d.iter()),
        vec![MatrixElement::Element((e, 0)), MatrixElement::EOL]
    );
}

#[test]
fn single_entry_stream_ends_with_its_entry() {
    let s = SingleEntryStream::new(9u8, 0u8, 4);
    assert_eq!(s.len(), 4);
    assert_eq!(collect(&mut s.iter()), vec![0, 0, 0, 9]);

    let one = SingleEntryStream::new(9u8, 0u8, 1);
    assert_eq!(one.len(), 1);
    assert_eq!(collect(&mut one.iter()), vec![9]);
}

#[test]
fn single_entry_stream_refuses_length_zero() {
    assert_eq!(
        SingleEntryStream::try_new(9u8, 0u8, 0).err(),
        Some(InvalidParameters::ZeroLength)
    );
    let ok = SingleEntryStream::try_new(9u8, 0u8, 2);
    assert!(ok.is_ok());
    if let Ok(s) = ok {
        assert_eq!(collect(&mut s.iter()), vec![0, 9]);
    }
}

#[test]
fn cyclic_tiling_repeats_the_base() {
    let base = ['a', 'b', 'c'];
    let s = RepeatStreamer::new(&base, 2);
    assert_eq!(s.len(), 6);
    assert_eq!(
        collect(&mut s.iter()),
        vec![&'a', &'b', &'c', &'a', &'b', &'c']
    );
}

#[test]
fn cyclic_tiling_of_nothing_is_empty() {
    let base = [1u8, 2, 3];
    let zero_times = RepeatStreamer::new(&base, 0);
    assert_eq!(zero_times.len(), 0);
    assert!(zero_times.is_empty());
    assert_eq!(zero_times.iter().next(), None);

    let empty: [u8; 0] = [];
    let of_empty = RepeatStreamer::new(&empty, 5);
    assert_eq!(of_empty.len(), 0);
    assert_eq!(of_empty.iter().next(), None);
}

#[test]
fn cyclic_tiling_of_one_item() {
    let base = [4u8];
    let s = RepeatStreamer::new(&base, 3);
    assert_eq!(s.len(), 3);
    assert_eq!(collect(&mut s.iter()), vec![&4, &4, &4]);
}

#[test]
fn cyclic_tiling_refuses_a_length_past_usize() {
    let base = [1u8, 2];
    assert_eq!(
        RepeatStreamer::try_new(&base, usize::MAX).err(),
        Some(InvalidParameters::LengthOverflow)
    );
    let ok = RepeatStreamer::try_new(&base, usize::MAX / 2);
    assert!(ok.is_ok());
    if let Ok(s) = ok {
        assert_eq!(s.len(), usize::MAX - 1);
        let mut it = s.iter();
        assert_eq!(it.next(), Some(&1));
        assert_eq!(it.next(), Some(&2));
        assert_eq!(it.next(), Some(&1));
    }
}

#[test]
fn concatenation_glues_rows() {
    let rows = vec![vec![1, 2], vec![], vec![3]];
    let s = ConcatStreamer::new(&rows);
    assert_eq!(s.len(), 3);
    assert!(!s.is_empty());
    assert_eq!(collect(&mut s.iter()), vec![&1, &2, &3]);
}

#[test]
fn concatenation_of_empty_rows_is_empty() {
    let rows: Vec<Vec<u8>> = vec![vec![], vec![], vec![]];
    let s = ConcatStreamer::new(&rows);
    assert_eq!(s.len(), 0);
    assert!(s.is_empty());
    let mut it = s.iter();
    assert_eq!(it.next(), None);
    assert_eq!(it.next(), None);

    let no_rows: Vec<Vec<u8>> = Vec::new();
    let t = ConcatStreamer::new(&no_rows);
    assert_eq!(t.len(), 0);
    assert_eq!(t.iter().next(), None);
}

#[test]
fn concatenation_skips_empty_rows_at_both_ends() {
    let rows = vec![vec![], vec![7u8], vec![], vec![], vec![8, 9], vec![]];
    let s = ConcatStreamer::try_new(&rows);
    assert!(s.is_ok());
    if let Ok(s) = s {
        assert_eq!(s.len(), 3);
        assert_eq!(collect(&mut s.iter()), vec![&7, &8, &9]);
    }
}

#[test]
fn block_tiling_shifts_each_tile_and_streams_backwards() {
    let v = 3u16;
    let base = vec![MatrixElement::Element((v, 0)), MatrixElement::EOL];
    let s = RepeatMatrixStreamer::new(base, 2, 10);
    assert_eq!(s.len(), 4);
    assert_eq!(
        collect(&mut s.iter()),
        vec![
            MatrixElement::EOL,
            MatrixElement::Element((v, 10)),
            MatrixElement::EOL,
            MatrixElement::Element((v, 0)),
        ]
    );
}

#[test]
fn block_tiling_of_a_block_stored_last_item_first() {
    let v = 3u16;
    let base = vec![MatrixElement::EOL, MatrixElement::Element((v, 0))];
    let s = RepeatMatrixStreamer::new(base, 2, 10);
    assert_eq!(
        collect(&mut s.iter()),
        vec![
            MatrixElement::Element((v, 10)),
            MatrixElement::EOL,
            MatrixElement::Element((v, 0)),
            MatrixElement::EOL,
        ]
    );
}

#[test]
fn block_tiling_offsets_count_down_to_zero() {
    let base = vec![
        MatrixElement::Element((1u8, 0)),
        MatrixElement::Element((2u8, 4)),
        MatrixElement::EOL,
    ];
    let s = RepeatMatrixStreamer::new(base, 3, 100);
    assert_eq!(s.len(), 9);
    assert_eq!(
        collect(&mut s.iter()),
        vec![
            MatrixElement::EOL,
            MatrixElement::Element((2, 204)),
            MatrixElement::Element((1, 200)),
            MatrixElement::EOL,
            MatrixElement::Element((2, 104)),
            MatrixElement::Element((1, 100)),
            MatrixElement::EOL,
            MatrixElement::Element((2, 4)),
            MatrixElement::Element((1, 0)),
        ]
    );
}

#[test]
fn block_tiling_of_nothing_is_empty() {
    let base = vec![MatrixElement::Element((1u8, 0)), MatrixElement::EOL];
    let zero_times = RepeatMatrixStreamer::new(base, 0, 10);
    assert_eq!(zero_times.len(), 0);
    assert!(zero_times.is_empty());
    let mut it = zero_times.iter();
    assert_eq!(it.next(), None);
    assert_eq!(it.next(), None);

    let of_empty = RepeatMatrixStreamer::new(Vec::<MatrixElement<u8>>::new(), 4, 10);
    assert_eq!(of_empty.len(), 0);
    let mut it = of_empty.iter();
    assert_eq!(it.next(), None);
    assert_eq!(it.next(), None);
}

#[test]
fn block_tiling_refuses_what_does_not_fit() {
    let base = vec![MatrixElement::Element((1u8, 1)), MatrixElement::EOL];
    assert_eq!(
        RepeatMatrixStreamer::try_new(base.clone(), usize::MAX, 1).err(),
        Some(InvalidParameters::LengthOverflow)
    );
    assert_eq!(
        RepeatMatrixStreamer::try_new(base.clone(), 2, usize::MAX).err(),
        Some(InvalidParameters::ColumnOverflow)
    );
    assert_eq!(
        RepeatMatrixStreamer::try_new(base.clone(), 3, usize::MAX / 2 + 1).err(),
        Some(InvalidParameters::ColumnOverflow)
    );

    let at_the_edge = RepeatMatrixStreamer::try_new(base, 2, usize::MAX - 1);
    assert!(at_the_edge.is_ok());
    if let Ok(s) = at_the_edge {
        assert_eq!(
            collect(&mut s.iter()),
            vec![
                MatrixElement::EOL,
                MatrixElement::Element((1, usize::MAX)),
                MatrixElement::EOL,
                MatrixElement::Element((1, 1)),
            ]
        );
    }
}

#[test]
fn block_tiling_of_row_ends_alone_takes_any_block_size() {
    let base: Vec<MatrixElement<u8>> = vec![MatrixElement::EOL];
    let s = RepeatMatrixStreamer::try_new(base, 3, usize::MAX);
    assert!(s.is_ok());
    if let Ok(s) = s {
        assert_eq!(
            collect(&mut s.iter()),
            vec![MatrixElement::EOL, MatrixElement::EOL, MatrixElement::EOL]
        );
    }
}

#[test]
fn block_tiling_clone_streams_the_same() {
    let base = vec![MatrixElement::Element((1u8, 2)), MatrixElement::EOL];
    let s = RepeatMatrixStreamer::new(base, 2, 5);
    let t = s.clone();
    assert_eq!(collect(&mut s.iter()), collect(&mut t.iter()));
    assert_eq!(s.len(), t.len());
}

#[test]
fn diagonal_streamer_refuses_a_length_past_usize() {
    assert_eq!(
        DiagonalMatrixStreamer::try_new(1u8, usize::MAX).err(),
        Some(InvalidParameters::LengthOverflow)
    );
    assert_eq!(
        DiagonalMatrixStreamer::try_new(1u8, usize::MAX / 2 + 1).err(),
        Some(InvalidParameters::LengthOverflow)
    );
    let ok = DiagonalMatrixStreamer::try_new(1u8, usize::MAX / 2);
    assert!(ok.is_ok());
    if let Ok(d) = ok {
        assert_eq!(d.len(), usize::MAX - 1);
        let mut it = d.iter();
        assert_eq!(
            it.next(),
            Some(MatrixElement::Element((1, usize::MAX / 2 - 1)))
        );
        assert_eq!(it.next(), Some(MatrixElement::EOL));
    }
}

#[test]
fn length_override_reports_the_callers_length() {
    let inner = DummyStreamer::new(6u8, 5);
    assert_eq!(inner.len(), 5);
    let wrapped = Mat(inner, 3);
    assert_eq!(wrapped.len(), 3);
    assert!(!wrapped.is_empty());
    assert_eq!(collect(&mut wrapped.iter()), vec![6, 6, 6, 6, 6]);

    let emptied = Mat(inner, 0);
    assert!(emptied.is_empty());
    assert_eq!(collect(&mut emptied.iter()).len(), 5);
}

#[test]
fn length_override_over_a_block_tiling() {
    let base = vec![MatrixElement::Element((1u8, 0)), MatrixElement::EOL];
    let wrapped = Mat(RepeatMatrixStreamer::new(base, 2, 4), 4);
    assert_eq!(wrapped.len(), 4);
    assert_eq!(collect(&mut wrapped.iter()).len(), wrapped.len());
}

#[test]
fn reported_length_is_the_number_of_items_yielded() {
    let constant = DummyStreamer::new('x', 11);
    assert_eq!(collect(&mut constant.iter()).len(), constant.len());

    let diagonal = DiagonalMatrixStreamer::new(1u8, 7);
    assert_eq!(collect(&mut diagonal.iter()).len(), diagonal.len());

    let single = SingleEntryStream::new(1u8, 0u8, 6);
    assert_eq!(collect(&mut single.iter()).len(), single.len());

    let base = [1u8, 2, 3, 4];
    let cyclic = RepeatStreamer::new(&base, 5);
    assert_eq!(collect(&mut cyclic.iter()).len(), cyclic.len());

    let rows = vec![vec![1u8; 3], vec![], vec![2u8; 4]];
    let concat = ConcatStreamer::new(&rows);
    assert_eq!(collect(&mut concat.iter()).len(), concat.len());

    let block = vec![
        MatrixElement::Element((1u8, 0)),
        MatrixElement::EOL,
        MatrixElement::Element((1u8, 1)),
        MatrixElement::EOL,
    ];
    let tiled = RepeatMatrixStreamer::new(block, 3, 2);
    assert_eq!(collect(&mut tiled.iter()).len(), tiled.len());

    let exact = Mat(tiled, 12);
    assert_eq!(collect(&mut exact.iter()).len(), exact.len());
}

#[test]
fn traversals_of_one_descriptor_are_equal_and_independent() {
    let base = vec![
        MatrixElement::Element((1u8, 0)),
        MatrixElement::Element((2u8, 1)),
        MatrixElement::EOL,
    ];
    let tiled = RepeatMatrixStreamer::new(base, 2, 3);
    let mut first = tiled.iter();
    let mut second = tiled.iter();
    let head = first.next();
    assert_eq!(head, Some(MatrixElement::EOL));
    assert_eq!(first.next(), Some(MatrixElement::Element((2, 4))));
    assert_eq!(second.next(), head);
    let rest_of_first = collect(&mut first);
    assert_eq!(second.next(), Some(MatrixElement::Element((2, 4))));
    assert_eq!(collect(&mut second), rest_of_first);
    assert_eq!(collect(&mut tiled.iter()).len(), 6);

    let rows = vec![vec![1, 2], vec![3]];
    let concat = ConcatStreamer::new(&rows);
    let mut a = concat.iter();
    let mut b = concat.iter();
    assert_eq!(a.next(), Some(&1));
    assert_eq!(a.next(), Some(&2));
    assert_eq!(b.next(), Some(&1));
    assert_eq!(collect(&mut a), vec![&3]);
    assert_eq!(collect(&mut b), vec![&2, &3]);
    assert_eq!(collect(&mut concat.iter()), vec![&1, &2, &3]);
}

#[test]
fn an_exhausted_traversal_stays_exhausted() {
    let base = [1u8];
    let cyclic = RepeatStreamer::new(&base, 1);
    let mut it = cyclic.iter();
    assert_eq!(it.next(), Some(&1));
    assert_eq!(it.next(), None);
    assert_eq!(it.next(), None);
    assert_eq!(collect(&mut it), Vec::<&u8>::new());

    let single = SingleEntryStream::new(3u8, 0u8, 1);
    let mut it = single.iter();
    assert_eq!(it.next(), Some(3));
    assert_eq!(it.next(), None);
    assert_eq!(it.next(), None);
}

#[test]
fn collect_gathers_what_is_left() {
    let d = DiagonalMatrixStreamer::new(8u8, 2);
    let mut it = d.iter();
    assert_eq!(it.next(), Some(MatrixElement::Element((8, 1))));
    assert_eq!(
        collect(&mut it),
        vec![
            MatrixElement::EOL,
            MatrixElement::Element((8, 0)),
            MatrixElement::EOL,
        ]
    );
    assert_eq!(it.next(), None);
}

#[test]
fn descriptors_are_copied_with_their_stream() {
    let d = DummyStreamer::new(2u8, 2);
    let e = d;
    let f = d.clone();
    assert_eq!(collect(&mut d.iter()), collect(&mut e.iter()));
    assert_eq!(collect(&mut d.iter()), collect(&mut f.iter()));

    let base = [1u8, 2];
    let c = RepeatStreamer::new(&base, 2);
    let c2 = c.clone();
    assert_eq!(collect(&mut c.iter()), collect(&mut c2.iter()));

    assert_eq!(
        MatrixElement::Element((1u8, 3)).clone(),
        MatrixElement::Element((1u8, 3))
    );
    assert_ne!(MatrixElement::Element((1u8, 3)), MatrixElement::EOL);
}

#[test]
fn dummy_r1cs_stream_lays_out_the_instance() {
    let e = Fr::one() + Fr::one();
    let inv_e = Fr::one();
    let r = dummy_r1cs_stream(e, inv_e, Fr::one(), 3);
    assert_eq!(r.nonzero, 3);
    assert_eq!(r.joint_len, 3);
    let diagonal = vec![
        MatrixElement::Element((inv_e, 2)),
        MatrixElement::EOL,
        MatrixElement::Element((inv_e, 1)),
        MatrixElement::EOL,
        MatrixElement::Element((inv_e, 0)),
        MatrixElement::EOL,
    ];
    assert_eq!(collect(&mut r.a_colmaj.iter()), diagonal);
    assert_eq!(collect(&mut r.b_colmaj.iter()), diagonal);
    assert_eq!(collect(&mut r.c_colmaj.iter()), diagonal);
    assert_eq!(collect(&mut r.a_rowmaj.iter()), diagonal);
    assert_eq!(collect(&mut r.b_rowmaj.iter()), diagonal);
    assert_eq!(collect(&mut r.c_rowmaj.iter()), diagonal);
    assert_eq!(collect(&mut r.witness.iter()), vec![e, e]);
    assert_eq!(collect(&mut r.z.iter()), vec![e, e, e]);
    assert_eq!(collect(&mut r.z_a.iter()), vec![Fr::one(); 3]);
    assert_eq!(collect(&mut r.z_b.iter()), vec![Fr::one(); 3]);
    assert_eq!(collect(&mut r.z_c.iter()), vec![Fr::one(); 3]);
}

#[test]
fn dummy_r1cs_stream_of_one_constraint_has_no_witness() {
    let r = dummy_r1cs_stream(4u8, 5u8, 1u8, 1);
    assert!(r.witness.is_empty());
    assert_eq!(collect(&mut r.z.iter()), vec![4]);
    assert_eq!(
        collect(&mut r.a_rowmaj.iter()),
        vec![MatrixElement::Element((5, 0)), MatrixElement::EOL]
    );
}

#[test]
fn length_override_can_be_held_against_the_wrapped_length() {
    let inner = DummyStreamer::new(6u8, 5);
    assert!(Mat(inner, 5).keeps_len());
    assert!(!Mat(inner, 3).keeps_len());
    assert!(!Mat(inner, 6).keeps_len());

    let diagonal = DiagonalMatrixStreamer::new(1u8, 3);
    assert!(Mat(diagonal, 6).keeps_len());
    assert!(!Mat(diagonal, 3).keeps_len());
}
