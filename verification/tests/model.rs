use spectra::model::{
    convert_geometry, create_keys_from_primitive, guess_mode, vtnindex_to_key, Geometry, Key,
    ModelError, Mode, Primitive, Shape,
};

fn geometry(prims: Vec<Primitive>) -> Geometry {
    Geometry { shapes: prims.into_iter().map(|primitive| Shape { primitive }).collect() }
}

#[test]
fn corner_to_triplet() {
    assert_eq!(vtnindex_to_key((4, Some(7), Some(2))), Ok((4, 2, Some(7))));
    assert_eq!(vtnindex_to_key((4, None, Some(2))), Ok((4, 2, None)));
    assert_eq!(vtnindex_to_key((4, Some(7), None)), Err(ModelError::UnsupportedVertex));
}

#[test]
fn primitive_triplets_and_modes() {
    let line = Primitive::Line((0, None, Some(0)), (1, Some(1), Some(1)));
    assert_eq!(create_keys_from_primitive(line), Ok(vec![(0, 0, None), (1, 1, Some(1))]));
    assert_eq!(guess_mode(line), Mode::Line);
    assert_eq!(guess_mode(Primitive::Point((0, None, None))), Mode::Point);
    let bad = Primitive::Triangle((0, None, Some(0)), (1, None, None), (2, None, Some(2)));
    assert_eq!(create_keys_from_primitive(bad), Err(ModelError::UnsupportedVertex));
    assert_eq!(guess_mode(bad), Mode::Triangle);
}

#[test]
fn geometry_indices_are_regenerated() {
    let g = geometry(vec![
        Primitive::Triangle((0, None, Some(0)), (1, None, Some(1)), (2, None, Some(2))),
        Primitive::Triangle((2, None, Some(2)), (1, None, Some(1)), (3, Some(5), Some(3))),
    ]);
    let (vertices, indices, mode) = convert_geometry(&g).unwrap();
    assert_eq!(vertices, vec![(0, 0, None), (1, 1, None), (2, 2, None), (3, 3, Some(5))]);
    assert_eq!(indices, vec![0, 1, 2, 2, 1, 3]);
    assert_eq!(mode, Mode::Triangle);
}

#[test]
fn every_corner_addresses_its_own_vertex() {
    let corners: Vec<Key> = vec![(5, 1, None), (2, 2, Some(3)), (5, 1, None), (0, 0, None), (2, 2, Some(3)), (2, 2, None)];
    let g = geometry(vec![
        Primitive::Line((5, None, Some(1)), (2, Some(3), Some(2))),
        Primitive::Point((5, None, Some(1))),
        Primitive::Triangle((0, None, Some(0)), (2, Some(3), Some(2)), (2, None, Some(2))),
    ]);
    let (vertices, indices, mode) = convert_geometry(&g).unwrap();
    assert_eq!(mode, Mode::Line);
    assert_eq!(indices.len(), corners.len());
    for (i, k) in corners.iter().enumerate() {
        assert_eq!(&vertices[indices[i] as usize], k);
    }
    for (a, va) in vertices.iter().enumerate() {
        for vb in vertices.iter().skip(a + 1) {
            assert_ne!(va, vb);
        }
    }
}

#[test]
fn geometry_errors() {
    assert_eq!(convert_geometry(&geometry(Vec::new())), Err(ModelError::NoShape));
    let g = geometry(vec![
        Primitive::Point((0, None, Some(0))),
        Primitive::Point((1, None, None)),
    ]);
    assert_eq!(convert_geometry(&g), Err(ModelError::UnsupportedVertex));
}
