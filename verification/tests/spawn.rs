use eucalyptus::spawn::{
    mesh_source, mesh_source_error_message, record_spawns, remove_completed, MeshSource, MeshSourceError,
    ModelReference,
};

#[test]
fn mesh_sources() {
    assert_eq!(mesh_source(ModelReference::File), Ok(MeshSource::FromPath));
    assert_eq!(mesh_source(ModelReference::Bytes), Ok(MeshSource::FromBytes));
    assert_eq!(mesh_source(ModelReference::Cube), Ok(MeshSource::BuiltinCube));
    assert_eq!(mesh_source(ModelReference::Nothing), Err(MeshSourceError::NoModelReference));
    assert_eq!(mesh_source(ModelReference::Plane), Err(MeshSourceError::PlaneNotSupported));
}

#[test]
fn mesh_source_messages() {
    assert_eq!(
        mesh_source_error_message(MeshSourceError::NoModelReference, "tree"),
        "No model reference provided for entity 'tree'"
    );
    assert_eq!(
        mesh_source_error_message(MeshSourceError::PlaneNotSupported, "ground"),
        "Plane resource type not yet supported in spawn controller for entity 'ground'"
    );
}

#[test]
fn completed_spawns_are_removed_in_order() {
    let mut v = vec!["a", "b", "c", "d", "e"];
    remove_completed(&mut v, &vec![1, 3]);
    assert_eq!(v, vec!["a", "c", "e"]);
}

#[test]
fn no_completed_spawns_keeps_all() {
    let mut v = vec![1, 2, 3];
    remove_completed(&mut v, &Vec::new());
    assert_eq!(v, vec![1, 2, 3]);
}

#[test]
fn all_completed_spawns_empties_list() {
    let mut v = vec![1, 2, 3];
    remove_completed(&mut v, &vec![0, 1, 2]);
    assert!(v.is_empty());
}

#[test]
fn spawned_entities_get_undo_entries_and_last_is_selected() {
    let (sel, undo) = record_spawns(&vec![Some(4), None, Some(9)], Some(1));
    assert_eq!(sel, Some(9));
    assert_eq!(undo, vec![4, 9]);
    let (sel, undo) = record_spawns(&vec![None, None], Some(1));
    assert_eq!(sel, Some(1));
    assert!(undo.is_empty());
    let (sel, undo) = record_spawns(&Vec::new(), None);
    assert_eq!(sel, None);
    assert!(undo.is_empty());
}
