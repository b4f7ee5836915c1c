use shadow_render::model::{
    assemble_vertices, model_vertex_layout, DrawCall, Material, Mesh, Model, ModelError,
    TextureSource, VertexAttribute,
};

fn mesh(n: u32, material: usize) -> Mesh {
    Mesh { name: "m".to_string(), num_elements: n, material }
}

#[test]
fn missing_diffuse_gets_placeholder() {
    let m = Material::new("plain".to_string(), None, Some(4));
    assert_eq!(m.diffuse_texture, TextureSource::Placeholder);
    assert_eq!(m.normal_texture, TextureSource::Loaded(4));
    assert_eq!(m.use_texture(), 0);
    assert_eq!(m.name, "plain");
}

#[test]
fn loaded_textures_are_kept() {
    let m = Material::new("tex".to_string(), Some(1), Some(2));
    assert_eq!(m.diffuse_texture, TextureSource::Loaded(1));
    assert_eq!(m.normal_texture, TextureSource::Loaded(2));
    assert_eq!(m.use_texture(), 1);
    let m = Material::new("none".to_string(), None, None);
    assert_eq!(m.normal_texture, TextureSource::Placeholder);
}

#[test]
fn mesh_with_unknown_material_is_refused() {
    let mats = vec![Material::new("a".to_string(), None, None)];
    let r = Model::new(vec![mesh(3, 0), mesh(3, 1), mesh(3, 2)], mats);
    assert_eq!(r.unwrap_err(), ModelError::MaterialOutOfRange(1));
    let r = Model::new(vec![mesh(3, 0)], Vec::new());
    assert_eq!(r.unwrap_err(), ModelError::MaterialOutOfRange(0));
}

#[test]
fn model_draws_bind_each_mesh_material() {
    let mats = vec![
        Material::new("a".to_string(), None, None),
        Material::new("b".to_string(), Some(0), None),
    ];
    let model = Model::new(vec![mesh(6, 1), mesh(9, 0)], mats).unwrap();
    let draws = model.draw_model_instanced(0, 5);
    assert_eq!(
        draws,
        vec![
            DrawCall { mesh: 0, material: Some(1), camera_group: 1, light_group: 2, index_count: 6, first_instance: 0, end_instance: 5 },
            DrawCall { mesh: 1, material: Some(0), camera_group: 1, light_group: 2, index_count: 9, first_instance: 0, end_instance: 5 },
        ]
    );
    assert_eq!(model.draw_model(), vec![model.draw_mesh(0), model.draw_mesh(1)]);
    assert_eq!(model.draw_mesh(1).end_instance, 1);
}

#[test]
fn light_draws_bind_no_material() {
    let model = Model::new(vec![mesh(36, 0)], vec![Material::new("a".to_string(), None, None)]).unwrap();
    let draws = model.draw_light_model();
    assert_eq!(
        draws,
        vec![DrawCall { mesh: 0, material: None, camera_group: 0, light_group: 1, index_count: 36, first_instance: 0, end_instance: 1 }]
    );
    assert_eq!(model.draw_light_mesh_instanced(0, 2, 4).first_instance, 2);
    assert_eq!(model.draw_light_mesh(0), draws[0]);
    assert_eq!(model.draw_light_model_instanced(0, 3).len(), 1);
}

#[test]
fn vertex_layout_offsets() {
    let l = model_vertex_layout();
    assert_eq!(l.array_stride, 32);
    assert_eq!(
        l.attributes,
        vec![
            VertexAttribute { offset: 0, shader_location: 0, components: 3 },
            VertexAttribute { offset: 12, shader_location: 1, components: 2 },
            VertexAttribute { offset: 20, shader_location: 2, components: 3 },
        ]
    );
}

#[test]
fn vertices_are_interleaved() {
    let p = vec![1.0f32, 2.0, 3.0, 4.0, 5.0, 6.0];
    let t = vec![0.1f32, 0.2, 0.3, 0.4];
    let n = vec![7.0f32, 8.0, 9.0, 10.0, 11.0, 12.0];
    let v = assemble_vertices(&p, &t, &n).unwrap();
    assert_eq!(
        v,
        vec![1.0, 2.0, 3.0, 0.1, 0.2, 7.0, 8.0, 9.0, 4.0, 5.0, 6.0, 0.3, 0.4, 10.0, 11.0, 12.0]
    );
}

#[test]
fn partial_position_is_dropped() {
    let p = vec![1u32, 2, 3, 4];
    let v = assemble_vertices(&p, &vec![5, 6], &vec![7, 8, 9]).unwrap();
    assert_eq!(v, vec![1, 2, 3, 5, 6, 7, 8, 9]);
    assert_eq!(assemble_vertices::<u32>(&vec![], &vec![], &vec![]).unwrap(), Vec::<u32>::new());
}

#[test]
fn missing_attributes_give_none() {
    let p = vec![1u32, 2, 3];
    assert!(assemble_vertices(&p, &vec![], &vec![7, 8, 9]).is_none());
    assert!(assemble_vertices(&p, &vec![5, 6], &vec![7, 8]).is_none());
}
