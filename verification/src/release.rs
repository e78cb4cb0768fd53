//! Releases of the language server: how their assets and install locations
//! are named, and how the asset for a platform is picked.

use vstd::prelude::*;
use crate::platform::{
    arch_token, arch_token_text, platform_token, platform_token_text, Architecture, Os,
};
use crate::text::joined;

verus! {

/// One downloadable file attached to a release.
#[derive(Debug, PartialEq, Eq)]
pub struct ReleaseAsset {
    pub name: String,
    pub download_url: String,
}

/// A published version with its downloadable files.
#[derive(Debug, PartialEq, Eq)]
pub struct Release {
    pub version: String,
    pub assets: Vec<ReleaseAsset>,
}

pub struct ReleaseAssetModel {
    pub name: Seq<char>,
    pub download_url: Seq<char>,
}

pub struct ReleaseModel {
    pub version: Seq<char>,
    pub assets: Seq<ReleaseAssetModel>,
}

impl View for ReleaseAsset {
    type V = ReleaseAssetModel;

    open spec fn view(&self) -> ReleaseAssetModel {
        ReleaseAssetModel { name: self.name@, download_url: self.download_url@ }
    }
}

/// The contents of a list of assets.
pub open spec fn asset_models(assets: Seq<ReleaseAsset>) -> Seq<ReleaseAssetModel> {
    Seq::new(assets.len(), |i: int| assets[i]@)
}

impl View for Release {
    type V = ReleaseModel;

    open spec fn view(&self) -> ReleaseModel {
        ReleaseModel { version: self.version@, assets: asset_models(self.assets@) }
    }
}

/// `{executable}-{version}-{arch}-{platform}.zip`
pub open spec fn asset_name_text(
    executable: Seq<char>,
    version: Seq<char>,
    arch: Architecture,
    os: Os,
) -> Seq<char> {
    executable + "-"@ + version + "-"@ + arch_token_text(arch) + "-"@ + platform_token_text(os)
        + ".zip"@
}

/// `{executable}-`: what the name of every version directory begins with.
pub open spec fn version_prefix_text(executable: Seq<char>) -> Seq<char> {
    executable + "-"@
}

/// `{executable}-{version}`
pub open spec fn version_dir_text(executable: Seq<char>, version: Seq<char>) -> Seq<char> {
    version_prefix_text(executable) + version
}

/// `{version_dir}/{executable}`
pub open spec fn binary_path_text(version_dir: Seq<char>, executable: Seq<char>) -> Seq<char> {
    version_dir + "/"@ + executable
}

/// The first asset of that name, if there is one.
pub open spec fn first_named(assets: Seq<ReleaseAssetModel>, wanted: Seq<char>) -> Option<
    ReleaseAssetModel,
>
    decreases assets.len(),
{
    if assets.len() == 0 {
        None
    } else if assets[0].name == wanted {
        Some(assets[0])
    } else {
        first_named(assets.drop_first(), wanted)
    }
}

/// `first_named` finds nothing exactly when no asset bears the name, and what
/// it finds is an asset of the list that bears it, with none before it that
/// does.
pub proof fn lemma_first_named(assets: Seq<ReleaseAssetModel>, wanted: Seq<char>)
    ensures
        first_named(assets, wanted) is None <==> forall|i: int|
            0 <= i < assets.len() ==> assets[i].name != wanted,
        first_named(assets, wanted) matches Some(asset) ==> exists|i: int|
            0 <= i < assets.len() && assets[i] == asset && asset.name == wanted && forall|j: int|
                0 <= j < i ==> assets[j].name != wanted,
    decreases assets.len(),
{
    if assets.len() == 0 {
    } else if assets[0].name == wanted {
        assert(0 <= 0 < assets.len() && assets[0] == assets[0]);
    } else {
        let rest = assets.drop_first();
        lemma_first_named(rest, wanted);
        assert(forall|i: int| 0 <= i < rest.len() ==> rest[i] == assets[i + 1]);
        if first_named(rest, wanted) is None {
            assert forall|i: int| 0 <= i < assets.len() implies assets[i].name != wanted by {
                if i > 0 {
                    assert(rest[i - 1] == assets[i]);
                }
            }
        } else {
            let asset = first_named(rest, wanted)->Some_0;
            let k = choose|i: int|
                0 <= i < rest.len() && rest[i] == asset && asset.name == wanted && forall|j: int|
                    0 <= j < i ==> rest[j].name != wanted;
            assert(assets[k + 1] == asset);
            assert forall|j: int| 0 <= j < k + 1 implies assets[j].name != wanted by {
                if j > 0 {
                    assert(rest[j - 1] == assets[j]);
                }
            }
            assert(0 <= k + 1 < assets.len() && assets[k + 1] == asset);
        }
    }
}

/// The file name under which a release publishes the archive for a platform.
pub fn asset_name(executable: &str, version: &str, arch: Architecture, os: Os) -> (name: String)
    ensures
        name@ == asset_name_text(executable@, version@, arch, os),
{
    let mut name = String::from_str(executable);
    name.append("-");
    name.append(version);
    name.append("-");
    name.append(arch_token(arch));
    name.append("-");
    name.append(platform_token(os));
    name.append(".zip");
    name
}

/// The directory that holds one installed version.
pub fn version_dir_name(executable: &str, version: &str) -> (name: String)
    ensures
        name@ == version_dir_text(executable@, version@),
{
    let mut name = String::from_str(executable);
    name.append("-");
    name.append(version);
    name
}

/// Where the executable lies inside its version directory.
pub fn binary_path(version_dir: &str, executable: &str) -> (path: String)
    ensures
        path@ == binary_path_text(version_dir@, executable@),
{
    let mut path = joined(version_dir, "/");
    path.append(executable);
    path
}

/// The first asset whose name is exactly `wanted`.
pub fn find_asset<'a>(assets: &'a Vec<ReleaseAsset>, wanted: &String) -> (found: Option<
    &'a ReleaseAsset,
>)
    ensures
        match found {
            Some(asset) => first_named(asset_models(assets@), wanted@) == Some(asset@),
            None => first_named(asset_models(assets@), wanted@) is None,
        },
{
    let ghost models = asset_models(assets@);
    let mut i: usize = 0;
    assert(models.subrange(0, models.len() as int) =~= models);
    while i < assets.len()
        invariant
            i <= assets.len(),
            models == asset_models(assets@),
            first_named(models, wanted@) == first_named(
                models.subrange(i as int, models.len() as int),
                wanted@,
            ),
        decreases assets.len() - i,
    {
        let ghost tail = models.subrange(i as int, models.len() as int);
        assert(tail[0] == assets[i as int]@);
        if assets[i].name == *wanted {
            return Some(&assets[i]);
        }
        assert(tail.drop_first() =~= models.subrange(i + 1, models.len() as int));
        i += 1;
    }
    assert(models.subrange(i as int, models.len() as int).len() == 0);
    None
}

} // verus!
