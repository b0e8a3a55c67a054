//! Camera derivation from a scene description: which camera node of the
//! scene is used, and of which matrices the view-projection is the product.

use vstd::prelude::*;

verus! {

/// Width of the intermediate target, in pixels.
pub const SCREEN_WIDTH: u32 = 640;

/// Height of the intermediate target, in pixels.
pub const SCREEN_HEIGHT: u32 = 800;

/// Far plane of a perspective camera that names none.
pub const DEFAULT_ZFAR: u32 = 10000;

/// The kind of projection of a camera.
#[derive(Clone, Copy, Debug, PartialEq, Eq, Structural)]
pub enum Projection {
    Orthographic,
    Perspective,
}

/// A camera of the scene description.
#[derive(Clone, Copy, Debug, PartialEq, Eq, Structural)]
pub struct SceneCamera {
    /// Position of the camera in the description's list of cameras.
    pub index: usize,
    pub projection: Projection,
}

/// A node of the scene description with the nodes below it.
#[derive(Debug, PartialEq, Eq)]
pub struct SceneNode {
    /// Position of the node in the description's list of nodes.
    pub index: usize,
    pub camera: Option<SceneCamera>,
    pub children: Vec<SceneNode>,
}

/// One scene of the description: its root nodes in document order.
#[derive(Debug, PartialEq, Eq)]
pub struct Scene {
    pub nodes: Vec<SceneNode>,
}

/// A camera node found in the scene: the nodes from a root down to it, each
/// by its index, and its camera.
#[derive(Debug, PartialEq, Eq)]
pub struct CameraSelection {
    pub path: Vec<usize>,
    pub camera: SceneCamera,
}

/// One factor of a matrix product.
#[derive(Clone, Copy, Debug, PartialEq, Eq, Structural)]
pub enum MatrixFactor {
    /// The local transform of the node with this index.
    NodeTransform(usize),
    /// The standard perspective matrix of the camera with this index, for an
    /// aspect ratio of `aspect_width` to `aspect_height`, with `default_zfar`
    /// as its far plane where the camera names none.
    Perspective { camera: usize, aspect_width: u32, aspect_height: u32, default_zfar: u32 },
    /// The matrix that maps depth from the range -1 to 1 onto the range 0 to 1.
    DepthRemap,
}

/// The camera nodes below and including `node` that a depth-first walk
/// reaches, in the order of the walk, each with its path: `prefix` followed
/// by the nodes from `node` down. The walk does not descend below a camera
/// node.
pub open spec fn cameras_of(node: SceneNode, prefix: Seq<usize>) -> Seq<(Seq<usize>, SceneCamera)>
    decreases node, 0nat,
{
    match node.camera {
        Some(camera) => seq![(prefix.push(node.index), camera)],
        None => cameras_among(node.children@, node.children@.len(), prefix.push(node.index)),
    }
}

/// The camera nodes that the walk reaches from the first `count` of `nodes`,
/// in the order of the walk.
pub open spec fn cameras_among(nodes: Seq<SceneNode>, count: nat, prefix: Seq<usize>) -> Seq<
    (Seq<usize>, SceneCamera),
>
    decreases nodes, count,
{
    if count == 0 || count > nodes.len() {
        Seq::empty()
    } else {
        cameras_among(nodes, (count - 1) as nat, prefix) + cameras_of(nodes[count - 1], prefix)
    }
}

/// The camera nodes that the walk reaches in the first `count` of `scenes`,
/// in the order of the walk.
pub open spec fn cameras_in(scenes: Seq<Scene>, count: nat) -> Seq<(Seq<usize>, SceneCamera)>
    decreases count,
{
    if count == 0 || count > scenes.len() {
        Seq::empty()
    } else {
        cameras_in(scenes, (count - 1) as nat) + cameras_among(
            scenes[count - 1].nodes@,
            scenes[count - 1].nodes@.len(),
            Seq::empty(),
        )
    }
}

/// The last of `found`, if there is any.
pub open spec fn last_of(found: Seq<(Seq<usize>, SceneCamera)>) -> Option<
    (Seq<usize>, SceneCamera),
> {
    if found.len() == 0 {
        None
    } else {
        Some(found.last())
    }
}

impl View for CameraSelection {
    type V = (Seq<usize>, SceneCamera);

    open spec fn view(&self) -> (Seq<usize>, SceneCamera) {
        (self.path@, self.camera)
    }
}

/// The view of an optional selection.
pub open spec fn selection_view(selection: Option<CameraSelection>) -> Option<
    (Seq<usize>, SceneCamera),
> {
    match selection {
        Some(s) => Some(s@),
        None => None,
    }
}

/// The last camera node that a depth-first walk from `node` reaches, with
/// its path after `prefix`.
pub fn find_camera_below(node: &SceneNode, prefix: &Vec<usize>) -> (found: Option<CameraSelection>)
    ensures
        selection_view(found) == last_of(cameras_of(*node, prefix@)),
    decreases node,
{
    let mut path = prefix.clone();
    path.push(node.index);
    match node.camera {
        Some(camera) => Some(CameraSelection { path, camera }),
        None => {
            let mut found: Option<CameraSelection> = None;
            let mut i: usize = 0;
            while i < node.children.len()
                invariant
                    0 <= i <= node.children@.len(),
                    path@ == prefix@.push(node.index),
                    selection_view(found) == last_of(
                        cameras_among(node.children@, i as nat, path@),
                    ),
                decreases node.children@.len() - i,
            {
                match find_camera_below(&node.children[i], &path) {
                    Some(later) => {
                        found = Some(later);
                    },
                    None => {},
                }
                i = i + 1;
            }
            found
        },
    }
}

/// The camera node that the scene description selects: of the camera nodes
/// that a depth-first walk through the scenes reaches, in document order
/// and without descending below a camera node, the last. `None` where the
/// walk reaches no camera node.
pub fn find_camera(scenes: &Vec<Scene>) -> (found: Option<CameraSelection>)
    ensures
        selection_view(found) == last_of(cameras_in(scenes@, scenes@.len())),
{
    let root: Vec<usize> = Vec::new();
    let mut found: Option<CameraSelection> = None;
    let mut s: usize = 0;
    while s < scenes.len()
        invariant
            0 <= s <= scenes@.len(),
            root@ == Seq::<usize>::empty(),
            selection_view(found) == last_of(cameras_in(scenes@, s as nat)),
        decreases scenes@.len() - s,
    {
        let scene = &scenes[s];
        let mut i: usize = 0;
        while i < scene.nodes.len()
            invariant
                0 <= i <= scene.nodes@.len(),
                0 <= s < scenes@.len(),
                *scene == scenes@[s as int],
                root@ == Seq::<usize>::empty(),
                selection_view(found) == last_of(
                    cameras_in(scenes@, s as nat) + cameras_among(scene.nodes@, i as nat, root@),
                ),
            decreases scene.nodes@.len() - i,
        {
            match find_camera_below(&scene.nodes[i], &root) {
                Some(later) => {
                    found = Some(later);
                },
                None => {},
            }
            i = i + 1;
        }
        s = s + 1;
    }
    found
}

/// The factors of the projection of `camera`. A perspective camera gives the
/// depth remap applied to its standard perspective matrix, for the aspect
/// ratio of the intermediate target. Orthographic projection is not
/// supported: such a camera gives no factor, that is the identity.
pub open spec fn projection_factors(camera: SceneCamera) -> Seq<MatrixFactor> {
    match camera.projection {
        Projection::Orthographic => Seq::empty(),
        Projection::Perspective => seq![
            MatrixFactor::DepthRemap,
            MatrixFactor::Perspective {
                camera: camera.index,
                aspect_width: SCREEN_WIDTH,
                aspect_height: SCREEN_HEIGHT,
                default_zfar: DEFAULT_ZFAR,
            },
        ],
    }
}

/// The factors of the view-projection matrix of a selection, from left to
/// right: the local transform of each node of the path, from the root down,
/// then the projection of the camera. Without a selection there is no
/// factor: the view-projection is the identity.
pub open spec fn view_projection_factors(selection: Option<(Seq<usize>, SceneCamera)>) -> Seq<
    MatrixFactor,
> {
    match selection {
        None => Seq::empty(),
        Some((path, camera)) => path.map_values(|index: usize| MatrixFactor::NodeTransform(index))
            + projection_factors(camera),
    }
}

/// The view-projection matrix of the camera that the scene description
/// selects, as the factors of a product.
pub fn derive_view_projection(scenes: &Vec<Scene>) -> (factors: Vec<MatrixFactor>)
    ensures
        factors@ == view_projection_factors(last_of(cameras_in(scenes@, scenes@.len()))),
{
    let mut factors: Vec<MatrixFactor> = Vec::new();
    match find_camera(scenes) {
        None => {},
        Some(selection) => {
            let mut i: usize = 0;
            while i < selection.path.len()
                invariant
                    0 <= i <= selection.path@.len(),
                    factors@ == selection.path@.take(i as int).map_values(
                        |index: usize| MatrixFactor::NodeTransform(index),
                    ),
                decreases selection.path@.len() - i,
            {
                factors.push(MatrixFactor::NodeTransform(selection.path[i]));
                i = i + 1;
            }
            assert(selection.path@.take(i as int) == selection.path@);
            match selection.camera.projection {
                Projection::Orthographic => {},
                Projection::Perspective => {
                    factors.push(MatrixFactor::DepthRemap);
                    factors.push(
                        MatrixFactor::Perspective {
                            camera: selection.camera.index,
                            aspect_width: SCREEN_WIDTH,
                            aspect_height: SCREEN_HEIGHT,
                            default_zfar: DEFAULT_ZFAR,
                        },
                    );
                },
            }
        },
    }
    factors
}

} // verus!
