use render_pipeline::renderer::camera::{
    derive_view_projection, find_camera, find_camera_below, CameraSelection, MatrixFactor,
    Projection, Scene, SceneCamera, SceneNode, DEFAULT_ZFAR, SCREEN_HEIGHT, SCREEN_WIDTH,
};
use render_pipeline::renderer::field::Field;

fn node(index: usize, children: Vec<SceneNode>) -> SceneNode {
    SceneNode { index, camera: None, children }
}

fn camera_node(index: usize, camera: usize, projection: Projection) -> SceneNode {
    SceneNode { index, camera: Some(SceneCamera { index: camera, projection }), children: vec![] }
}

fn perspective(camera: usize) -> MatrixFactor {
    MatrixFactor::Perspective {
        camera,
        aspect_width: SCREEN_WIDTH,
        aspect_height: SCREEN_HEIGHT,
        default_zfar: DEFAULT_ZFAR,
    }
}

#[test]
fn constants_of_the_projection() {
    assert_eq!(SCREEN_WIDTH, 640);
    assert_eq!(SCREEN_HEIGHT, 800);
    assert_eq!(DEFAULT_ZFAR, 10000);
}

#[test]
fn scene_without_camera_selects_nothing() {
    let scenes = vec![Scene { nodes: vec![node(0, vec![node(1, vec![]), node(2, vec![])])] }];
    assert_eq!(find_camera(&scenes), None);
    assert_eq!(derive_view_projection(&scenes), vec![]);
    assert_eq!(find_camera(&vec![]), None);
    assert_eq!(find_camera(&vec![Scene { nodes: vec![] }]), None);
}

#[test]
fn two_camera_nodes_select_the_one_visited_last() {
    let scenes = vec![Scene {
        nodes: vec![node(
            0,
            vec![
                camera_node(1, 0, Projection::Perspective),
                camera_node(2, 1, Projection::Perspective),
            ],
        )],
    }];
    assert_eq!(
        find_camera(&scenes),
        Some(CameraSelection {
            path: vec![0, 2],
            camera: SceneCamera { index: 1, projection: Projection::Perspective },
        })
    );
    assert_eq!(
        derive_view_projection(&scenes),
        vec![
            MatrixFactor::NodeTransform(0),
            MatrixFactor::NodeTransform(2),
            MatrixFactor::DepthRemap,
            perspective(1),
        ]
    );
}

#[test]
fn later_branch_without_camera_keeps_the_earlier_camera() {
    let scenes = vec![Scene {
        nodes: vec![node(
            0,
            vec![camera_node(1, 0, Projection::Perspective), node(2, vec![node(3, vec![])])],
        )],
    }];
    assert_eq!(
        find_camera(&scenes),
        Some(CameraSelection {
            path: vec![0, 1],
            camera: SceneCamera { index: 0, projection: Projection::Perspective },
        })
    );
}

#[test]
fn walk_does_not_descend_below_a_camera_node() {
    let with_children = SceneNode {
        index: 4,
        camera: Some(SceneCamera { index: 0, projection: Projection::Perspective }),
        children: vec![camera_node(5, 1, Projection::Perspective)],
    };
    let scenes = vec![Scene { nodes: vec![with_children] }];
    assert_eq!(
        find_camera(&scenes),
        Some(CameraSelection {
            path: vec![4],
            camera: SceneCamera { index: 0, projection: Projection::Perspective },
        })
    );
}

#[test]
fn camera_of_a_later_root_and_scene_wins() {
    let scenes = vec![
        Scene {
            nodes: vec![
                node(0, vec![node(1, vec![camera_node(2, 0, Projection::Perspective)])]),
                camera_node(3, 1, Projection::Orthographic),
            ],
        },
        Scene { nodes: vec![node(4, vec![])] },
        Scene { nodes: vec![node(5, vec![node(6, vec![camera_node(7, 2, Projection::Perspective)])])] },
        Scene { nodes: vec![] },
    ];
    assert_eq!(
        find_camera(&scenes),
        Some(CameraSelection {
            path: vec![5, 6, 7],
            camera: SceneCamera { index: 2, projection: Projection::Perspective },
        })
    );
    assert_eq!(
        derive_view_projection(&scenes),
        vec![
            MatrixFactor::NodeTransform(5),
            MatrixFactor::NodeTransform(6),
            MatrixFactor::NodeTransform(7),
            MatrixFactor::DepthRemap,
            perspective(2),
        ]
    );
}

#[test]
fn orthographic_camera_projects_with_the_identity() {
    let scenes =
        vec![Scene { nodes: vec![node(0, vec![camera_node(1, 0, Projection::Orthographic)])] }];
    assert_eq!(
        derive_view_projection(&scenes),
        vec![MatrixFactor::NodeTransform(0), MatrixFactor::NodeTransform(1)]
    );
}

#[test]
fn path_below_a_node_follows_the_prefix() {
    let tree = node(8, vec![node(9, vec![]), camera_node(10, 3, Projection::Orthographic)]);
    assert_eq!(
        find_camera_below(&tree, &vec![1, 2]),
        Some(CameraSelection {
            path: vec![1, 2, 8, 10],
            camera: SceneCamera { index: 3, projection: Projection::Orthographic },
        })
    );
    assert_eq!(find_camera_below(&node(8, vec![]), &vec![1, 2]), None);
}

#[test]
fn field_takes_names_and_camera() {
    let scenes =
        vec![Scene { nodes: vec![node(0, vec![camera_node(1, 0, Projection::Perspective)])] }];
    let field = Field::from_gltf("test_field", "test_field_depth", &scenes);
    assert_eq!(field.background_image_name, "test_field");
    assert_eq!(field.background_depth_name, "test_field_depth");
    assert_eq!(
        field.view_proj,
        vec![
            MatrixFactor::NodeTransform(0),
            MatrixFactor::NodeTransform(1),
            MatrixFactor::DepthRemap,
            perspective(0),
        ]
    );
    let empty = Field::from_gltf("a", "b", &vec![]);
    assert_eq!(empty.view_proj, vec![]);
}
