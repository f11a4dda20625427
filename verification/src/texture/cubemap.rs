//! The six faces of a cubemap and the files they come from.

use vstd::prelude::*;

verus! {

/// One face of a cubemap, by the axis it looks along.
#[derive(Debug, Clone, Copy, PartialEq, Eq, Structural)]
pub enum CubemapTextureType {
    TextureCubeMapPosX,
    TextureCubeMapNegX,
    TextureCubeMapPosY,
    TextureCubeMapNegY,
    TextureCubeMapPosZ,
    TextureCubeMapNegZ,
}

/// Name of the file that holds the top face of a cubemap.
pub const TOP_FILE: &'static str = "top.jpg";

/// Name of the file that holds the bottom face of a cubemap.
pub const BOTTOM_FILE: &'static str = "bottom.jpg";

/// Name of the file that holds the left face of a cubemap.
pub const LEFT_FILE: &'static str = "left.jpg";

/// Name of the file that holds the right face of a cubemap.
pub const RIGHT_FILE: &'static str = "right.jpg";

/// Name of the file that holds the front face of a cubemap.
pub const FRONT_FILE: &'static str = "front.jpg";

/// Name of the file that holds the back face of a cubemap.
pub const BACK_FILE: &'static str = "back.jpg";

/// One item for each face of a cubemap: the path of its file, or what was
/// read from it.
#[derive(Debug)]
pub struct CubemapPaths<P> {
    top: P,
    bottom: P,
    left: P,
    right: P,
    front: P,
    back: P,
}

/// The first failure among six results, taken in the given order, if any of
/// them is one.
pub open spec fn first_failure<P, E>(
    top: Result<P, E>,
    bottom: Result<P, E>,
    left: Result<P, E>,
    right: Result<P, E>,
    front: Result<P, E>,
    back: Result<P, E>,
) -> Option<E> {
    if top is Err {
        Some(top->Err_0)
    } else if bottom is Err {
        Some(bottom->Err_0)
    } else if left is Err {
        Some(left->Err_0)
    } else if right is Err {
        Some(right->Err_0)
    } else if front is Err {
        Some(front->Err_0)
    } else if back is Err {
        Some(back->Err_0)
    } else {
        None
    }
}

impl<P> CubemapPaths<P> {
    /// The items of the faces, paired with the faces, in the fixed order of
    /// the faces: positive and negative X, which are right and left;
    /// positive and negative Y, which are top and bottom; positive and
    /// negative Z, which are front and back.
    pub closed spec fn entries(self) -> Seq<(P, CubemapTextureType)> {
        seq![
            (self.right, CubemapTextureType::TextureCubeMapPosX),
            (self.left, CubemapTextureType::TextureCubeMapNegX),
            (self.top, CubemapTextureType::TextureCubeMapPosY),
            (self.bottom, CubemapTextureType::TextureCubeMapNegY),
            (self.front, CubemapTextureType::TextureCubeMapPosZ),
            (self.back, CubemapTextureType::TextureCubeMapNegZ),
        ]
    }

    /// The names of the six files of a cubemap directory, in the order in
    /// which they are looked for: top, bottom, left, right, front, back.
    pub fn file_names() -> (names: [&'static str; 6])
        ensures
            names@ == seq![TOP_FILE, BOTTOM_FILE, LEFT_FILE, RIGHT_FILE, FRONT_FILE, BACK_FILE],
    {
        [TOP_FILE, BOTTOM_FILE, LEFT_FILE, RIGHT_FILE, FRONT_FILE, BACK_FILE]
    }

    /// The paths of a cubemap directory, from what looking for each of its
    /// six files gave: the path of the file, or the failure to find it. Fails
    /// with the first failure in the order top, bottom, left, right, front,
    /// back, and succeeds where all six files were found.
    pub fn from_directory<E>(
        top: Result<P, E>,
        bottom: Result<P, E>,
        left: Result<P, E>,
        right: Result<P, E>,
        front: Result<P, E>,
        back: Result<P, E>,
    ) -> (paths: Result<CubemapPaths<P>, E>)
        ensures
            match first_failure(top, bottom, left, right, front, back) {
                Some(failure) => paths == Err::<CubemapPaths<P>, E>(failure),
                None => paths is Ok && paths->Ok_0.entries() == seq![
                    (right->Ok_0, CubemapTextureType::TextureCubeMapPosX),
                    (left->Ok_0, CubemapTextureType::TextureCubeMapNegX),
                    (top->Ok_0, CubemapTextureType::TextureCubeMapPosY),
                    (bottom->Ok_0, CubemapTextureType::TextureCubeMapNegY),
                    (front->Ok_0, CubemapTextureType::TextureCubeMapPosZ),
                    (back->Ok_0, CubemapTextureType::TextureCubeMapNegZ),
                ],
            },
    {
        let top = match top {
            Ok(path) => path,
            Err(failure) => return Err(failure),
        };
        let bottom = match bottom {
            Ok(path) => path,
            Err(failure) => return Err(failure),
        };
        let left = match left {
            Ok(path) => path,
            Err(failure) => return Err(failure),
        };
        let right = match right {
            Ok(path) => path,
            Err(failure) => return Err(failure),
        };
        let front = match front {
            Ok(path) => path,
            Err(failure) => return Err(failure),
        };
        let back = match back {
            Ok(path) => path,
            Err(failure) => return Err(failure),
        };
        Ok(CubemapPaths::from_raw_paths(top, bottom, left, right, front, back))
    }

    /// The six items of a cubemap, each for the face it is named after.
    pub fn from_raw_paths(top: P, bottom: P, left: P, right: P, front: P, back: P) -> (paths:
        CubemapPaths<P>)
        ensures
            paths.entries() == seq![
                (right, CubemapTextureType::TextureCubeMapPosX),
                (left, CubemapTextureType::TextureCubeMapNegX),
                (top, CubemapTextureType::TextureCubeMapPosY),
                (bottom, CubemapTextureType::TextureCubeMapNegY),
                (front, CubemapTextureType::TextureCubeMapPosZ),
                (back, CubemapTextureType::TextureCubeMapNegZ),
            ],
    {
        CubemapPaths { top, bottom, left, right, front, back }
    }

    /// The six items paired with their faces, in the fixed order of the
    /// faces.
    pub fn cubemap_entries(self) -> (cm_e: Vec<(P, CubemapTextureType)>)
        ensures
            cm_e@ == self.entries(),
            cm_e@.len() == 6,
            cm_e@[0].1 == CubemapTextureType::TextureCubeMapPosX,
            cm_e@[1].1 == CubemapTextureType::TextureCubeMapNegX,
            cm_e@[2].1 == CubemapTextureType::TextureCubeMapPosY,
            cm_e@[3].1 == CubemapTextureType::TextureCubeMapNegY,
            cm_e@[4].1 == CubemapTextureType::TextureCubeMapPosZ,
            cm_e@[5].1 == CubemapTextureType::TextureCubeMapNegZ,
    {
        let mut cm_e = Vec::new();

        cm_e.push((self.right, CubemapTextureType::TextureCubeMapPosX));
        cm_e.push((self.left, CubemapTextureType::TextureCubeMapNegX));

        cm_e.push((self.top, CubemapTextureType::TextureCubeMapPosY));
        cm_e.push((self.bottom, CubemapTextureType::TextureCubeMapNegY));

        cm_e.push((self.front, CubemapTextureType::TextureCubeMapPosZ));
        cm_e.push((self.back, CubemapTextureType::TextureCubeMapNegZ));

        proof {
            assert(cm_e@ == self.entries());
        }
        cm_e
    }
}

} // verus!
