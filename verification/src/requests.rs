//! What the host is asked for when an asset is fetched. The host answers
//! with the bytes of a model, the samples of a heightmap, or the texels of
//! a texture or a mask.

use vstd::prelude::*;

verus! {

/// Names the bytes of a model of a project.
#[derive(Clone, Debug, PartialEq, Eq)]
#[allow(non_snake_case)]
pub struct ReadModelParams {
    pub projectId: String,
    pub modelFilename: String,
}

/// Names the heightmap of a landscape of a project.
#[derive(Clone, Debug, PartialEq, Eq)]
#[allow(non_snake_case)]
pub struct GetLandscapeParams {
    pub projectId: String,
    pub landscapeAssetId: String,
    pub landscapeFilename: String,
}

/// Names a texture of a landscape of a project, and its kind.
#[derive(Clone, Debug, PartialEq, Eq)]
#[allow(non_snake_case)]
pub struct GetTextureParams {
    pub projectId: String,
    pub landscapeId: String,
    pub textureFilename: String,
    pub textureKind: String,
}

/// Names the mask of a texture of a landscape of a project, and the kind
/// of the texture.
#[derive(Clone, Debug, PartialEq, Eq)]
#[allow(non_snake_case)]
pub struct GetMaskParams {
    pub projectId: String,
    pub landscapeId: String,
    pub maskFilename: String,
    pub maskKind: String,
}

/// What is asked of the host once a texture is to be attached to a
/// landscape: the texture and its mask, both under the kind of the
/// texture.
#[allow(non_snake_case)]
pub fn texture_requests(
    project_id: &String,
    landscape_asset_id: &String,
    texture_filename: String,
    texture_kind: &String,
    mask_filename: String,
) -> (requests: (GetTextureParams, GetMaskParams))
    ensures
        requests.0.projectId@ == project_id@,
        requests.0.landscapeId@ == landscape_asset_id@,
        requests.0.textureFilename == texture_filename,
        requests.0.textureKind@ == texture_kind@,
        requests.1.projectId@ == project_id@,
        requests.1.landscapeId@ == landscape_asset_id@,
        requests.1.maskFilename == mask_filename,
        requests.1.maskKind@ == texture_kind@,
{
    (
        GetTextureParams {
            projectId: project_id.clone(),
            landscapeId: landscape_asset_id.clone(),
            textureFilename: texture_filename,
            textureKind: texture_kind.clone(),
        },
        GetMaskParams {
            projectId: project_id.clone(),
            landscapeId: landscape_asset_id.clone(),
            maskFilename: mask_filename,
            maskKind: texture_kind.clone(),
        },
    )
}

} // verus!
