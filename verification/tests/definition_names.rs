use blockmesh::definition::{mesh_names_to_load, SwBlockDefinitionMeshKey};

#[test]
fn xml_names_match_the_schema() {
    assert_eq!(SwBlockDefinitionMeshKey::MeshData.xml_name(), "mesh_data_name");
    assert_eq!(SwBlockDefinitionMeshKey::Mesh0.xml_name(), "mesh_0_name");
    assert_eq!(SwBlockDefinitionMeshKey::Mesh1.xml_name(), "mesh_1_name");
    assert_eq!(SwBlockDefinitionMeshKey::Mesh2.xml_name(), "mesh_2_name");
    assert_eq!(
        SwBlockDefinitionMeshKey::MeshEditorOnly.xml_name(),
        "mesh_editor_only_name"
    );
}

#[test]
fn only_present_nonempty_names_are_loaded() {
    let r = mesh_names_to_load(
        Some("a.mesh".to_string()),
        None,
        Some(String::new()),
        Some("b.mesh".to_string()),
        None,
    );
    assert_eq!(r.len(), 2);
    assert_eq!(r[0].0, SwBlockDefinitionMeshKey::MeshData);
    assert_eq!(r[0].1, "a.mesh");
    assert_eq!(r[1].0, SwBlockDefinitionMeshKey::Mesh2);
    assert_eq!(r[1].1, "b.mesh");
}

#[test]
fn no_names_no_loads() {
    assert!(mesh_names_to_load(None, None, None, None, None).is_empty());
}

#[test]
fn all_names_load_in_slot_order() {
    let r = mesh_names_to_load(
        Some("d".to_string()),
        Some("m0".to_string()),
        Some("m1".to_string()),
        Some("m2".to_string()),
        Some("e".to_string()),
    );
    let keys: Vec<_> = r.iter().map(|e| e.0).collect();
    assert_eq!(
        keys,
        vec![
            SwBlockDefinitionMeshKey::MeshData,
            SwBlockDefinitionMeshKey::Mesh0,
            SwBlockDefinitionMeshKey::Mesh1,
            SwBlockDefinitionMeshKey::Mesh2,
            SwBlockDefinitionMeshKey::MeshEditorOnly,
        ]
    );
}
