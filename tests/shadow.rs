use shadow_render::light::{Light, PROJ_SIZE, RECORD_SIZE};
use shadow_render::model::{Material, Mesh, Model};
use shadow_render::shadow::{depth_draws, DepthDraw, Shadow, ShadowError, SPARE_LAYERS};

fn light(id: usize) -> Light {
    Light::new(id, [0; 3], [0; 3], 0, 0, [0; 16])
}

fn lights(n: usize) -> Vec<Light> {
    (0..n).map(light).collect()
}

fn model() -> Model {
    let meshes = vec![
        Mesh { name: "a".to_string(), num_elements: 36, material: 0 },
        Mesh { name: "b".to_string(), num_elements: 6, material: 0 },
    ];
    Model::new(meshes, vec![Material::new("m".to_string(), None, None)]).unwrap()
}

#[test]
fn one_light_large_map() {
    let s = Shadow::new(lights(1), 8192, 8192).unwrap();
    assert!(s.layer_count >= 1 + SPARE_LAYERS);
    assert_eq!(s.layer_count, 11);
    assert_eq!((s.width, s.height), (8192, 8192));
    let passes = s.render(&model(), 1);
    assert_eq!(passes.len(), 1);
    assert_eq!(passes[0].layer, 0);
    assert_eq!(passes[0].copy_offset, 0);
    assert_eq!(passes[0].copy_size, PROJ_SIZE);
    assert_eq!(
        passes[0].draws,
        vec![
            DepthDraw { mesh: 0, index_count: 36, instance_count: 1 },
            DepthDraw { mesh: 1, index_count: 6, instance_count: 1 },
        ]
    );
}

#[test]
fn more_lights_than_layers_fails() {
    let r = Shadow::with_layers(lights(3), 2, 1024, 1024);
    assert_eq!(r.unwrap_err(), ShadowError::InsufficientLayers);
}

#[test]
fn exactly_as_many_layers_as_lights() {
    let s = Shadow::with_layers(lights(3), 3, 1024, 1024).unwrap();
    assert_eq!(s.light_count(), 3);
    assert_eq!(s.target_layers(), vec![0, 1, 2]);
}

#[test]
fn no_lights_no_passes() {
    let s = Shadow::new(Vec::new(), 512, 512).unwrap();
    assert_eq!(s.layer_count, SPARE_LAYERS);
    assert!(s.render(&model(), 4).is_empty());
    assert!(s.target_layers().is_empty());
}

#[test]
fn each_pass_reads_its_own_record() {
    let s = Shadow::new(lights(3), 256, 256).unwrap();
    let passes = s.render(&model(), 2);
    assert_eq!(passes.len(), 3);
    for (i, p) in passes.iter().enumerate() {
        assert_eq!(p.light, i);
        assert_eq!(p.layer, i as u32);
        assert_eq!(p.copy_offset, i as u64 * RECORD_SIZE);
        assert!(p.copy_offset + p.copy_size <= (i as u64 + 1) * RECORD_SIZE);
        assert_eq!(p.draws, depth_draws(&model(), 2));
    }
}
