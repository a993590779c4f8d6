//! Reconciling an asset index with the content-addressed object store.

use vstd::prelude::*;

use crate::error::InstallError;
use crate::install::{download_acceptable, is_current, target_views, FetchTarget, LocalCheck, TargetView};
use crate::manifest::assets::{AssetObject, Main};
use crate::path::assets_folder;
use crate::text::{copy_str, split_char, split_on, views};

verus! {

/// The server that holds asset objects by hash.
pub open spec fn object_server() -> Seq<char> {
    "https://resources.download.minecraft.net/"@
}

/// Where an object is stored: `assets/objects/<first two hash chars>/<hash>`.
pub open spec fn object_path(hash: Seq<char>) -> Seq<Seq<char>> {
    assets_folder("objects"@) + seq![hash.take(2), hash]
}

/// Where an object is fetched from: the server, then `<first two hash chars>/<hash>`.
pub open spec fn object_url(hash: Seq<char>) -> Seq<char> {
    object_server() + hash.take(2) + "/"@ + hash
}

/// The fetch of an object, checked by its declared size.
pub open spec fn object_target(o: AssetObject) -> TargetView {
    TargetView { url: object_url(o.hash@), path: object_path(o.hash@), check: LocalCheck::SizeIs(o.size) }
}

/// Where an asset lies in the flat resource tree: `resources/<logical path>`.
pub open spec fn resource_path(name: Seq<char>) -> Seq<Seq<char>> {
    seq!["resources"@] + split_on(name, '/')
}

/// Whether every object hash of the index is long enough to address it.
pub open spec fn hashes_ok(entries: Seq<(String, AssetObject)>) -> bool {
    forall|i: int| 0 <= i < entries.len() ==> (#[trigger] entries[i]).1.hash@.len() >= 2
}

/// A copy of a synchronised object into the resource tree.
#[derive(Clone, Debug, PartialEq, Eq)]
pub struct ResourceCopy {
    pub from: Vec<String>,
    pub to: Vec<String>,
}

/// What synchronising an index takes: the objects to bring, in index order,
/// then the copies into the resource tree (none unless the index asks for them).
#[derive(Clone, Debug, PartialEq, Eq)]
pub struct AssetSyncPlan {
    pub objects: Vec<FetchTarget>,
    pub copies: Vec<ResourceCopy>,
}

impl AssetObject {
    /// Where this object is stored.
    pub fn get_download_path(&self) -> (r: Vec<String>)
        requires
            self.hash@.len() >= 2,
        ensures
            views(r@) == object_path(self.hash@),
    {
        let prefix = String::from_str(self.hash.as_str().substring_char(0, 2));
        let mut r: Vec<String> = Vec::new();
        r.push(String::from_str("assets"));
        r.push(String::from_str("objects"));
        r.push(prefix);
        r.push(copy_str(&self.hash));
        proof {
            assert(views(r@) =~= object_path(self.hash@));
        }
        r
    }

    /// Where this object is fetched from.
    pub fn get_download_url(&self) -> (r: String)
        requires
            self.hash@.len() >= 2,
        ensures
            r@ == object_url(self.hash@),
    {
        let mut r = String::from_str("https://resources.download.minecraft.net/");
        r.append(self.hash.as_str().substring_char(0, 2));
        r.append("/");
        r.append(self.hash.as_str());
        r
    }

    /// The fetch of this object.
    pub fn target(&self) -> (r: FetchTarget)
        requires
            self.hash@.len() >= 2,
        ensures
            r@ == object_target(*self),
    {
        FetchTarget { url: self.get_download_url(), path: self.get_download_path(), check: LocalCheck::SizeIs(self.size) }
    }
}

/// Where the asset with logical path `name` lies in the resource tree.
pub fn get_resource_path(name: &String) -> (r: Vec<String>)
    ensures
        views(r@) == resource_path(name@),
{
    let mut r: Vec<String> = Vec::new();
    r.push(String::from_str("resources"));
    let mut parts = split_char(name.as_str(), '/');
    let ghost before = r@;
    let ghost added = parts@;
    r.append(&mut parts);
    proof {
        assert(r@ == before + added);
        assert(views(r@) =~= views(before) + views(added));
    }
    r
}

/// Plans the synchronisation of an asset index. Every object is fetched to its
/// hash-derived location unless a local copy has its declared size; when the
/// index asks for the resource tree, each object is then copied to its logical
/// path. An object whose hash is too short to address it makes the index malformed.
pub fn plan_asset_sync(index: &Main) -> (r: Result<AssetSyncPlan, InstallError>)
    ensures
        r is Ok <==> hashes_ok(index.objects@),
        r matches Err(e) ==> (e matches InstallError::Parse(_)),
        r matches Ok(p) ==> target_views(p.objects@) == index.objects@.map_values(
            |e: (String, AssetObject)| object_target(e.1),
        ),
        r matches Ok(p) ==> p.copies@.len() == (if index.map_to_resources {
            index.objects@.len()
        } else {
            0
        }),
        r matches Ok(p) ==> forall|i: int|
            0 <= i < p.copies@.len() ==> views((#[trigger] p.copies@[i]).from@) == object_path(
                index.objects@[i].1.hash@,
            ) && views(p.copies@[i].to@) == resource_path(index.objects@[i].0@),
{
    let n = index.objects.len();
    let mut objects: Vec<FetchTarget> = Vec::new();
    let mut copies: Vec<ResourceCopy> = Vec::new();
    let mut i: usize = 0;
    while i < n
        invariant
            n == index.objects@.len(),
            i <= n,
            hashes_ok(index.objects@.take(i as int)),
            target_views(objects@) == index.objects@.take(i as int).map_values(
                |e: (String, AssetObject)| object_target(e.1),
            ),
            copies@.len() == (if index.map_to_resources {
                i as int
            } else {
                0
            }),
            forall|j: int|
                0 <= j < copies@.len() ==> views((#[trigger] copies@[j]).from@) == object_path(
                    index.objects@[j].1.hash@,
                ) && views(copies@[j].to@) == resource_path(index.objects@[j].0@),
        decreases n - i,
    {
        let entry = &index.objects[i];
        if entry.1.hash.as_str().unicode_len() < 2 {
            proof {
                assert(!hashes_ok(index.objects@)) by {
                    assert(index.objects@[i as int] == *entry);
                }
            }
            return Err(InstallError::Parse(copy_str(&entry.1.hash)));
        }
        let ghost before = objects@;
        objects.push(entry.1.target());
        proof {
            assert(target_views(objects@) =~= target_views(before).push(object_target(entry.1)));
            assert(index.objects@.take(i as int + 1).map_values(
                |e: (String, AssetObject)| object_target(e.1),
            ) =~= index.objects@.take(i as int).map_values(
                |e: (String, AssetObject)| object_target(e.1),
            ).push(object_target(entry.1)));
            assert forall|j: int| 0 <= j < i + 1 implies (#[trigger] index.objects@.take(i as int + 1)[j]).1.hash@.len() >= 2 by {
                if j < i {
                    assert(index.objects@.take(i as int + 1)[j] == index.objects@.take(i as int)[j]);
                }
            }
        }
        if index.map_to_resources {
            copies.push(ResourceCopy { from: entry.1.get_download_path(), to: get_resource_path(&entry.0) });
        }
        i = i + 1;
    }
    proof {
        assert(index.objects@.take(n as int) =~= index.objects@);
    }
    Ok(AssetSyncPlan { objects, copies })
}

/// After a synchronisation completes without error, every object of the index
/// lies at its hash-derived location with its declared length. Each object's
/// step ends with the file at `lens[i]` bytes, settled either because the local
/// copy there was current, or because a fresh download was accepted; a current
/// copy has the declared size, and only a body of the declared size is accepted.
pub proof fn lemma_synced_objects_have_declared_size(index: Main, lens: Seq<u64>)
    requires
        hashes_ok(index.objects@),
        lens.len() == index.objects@.len(),
        forall|i: int|
            0 <= i < lens.len() ==> #[trigger] is_current(object_target(index.objects@[i].1).check, Some(lens[i]))
                || download_acceptable(object_target(index.objects@[i].1).check, lens[i]),
    ensures
        forall|i: int|
            0 <= i < lens.len() ==> object_target(#[trigger] index.objects@[i].1).path == object_path(
                index.objects@[i].1.hash@,
            ) && lens[i] == index.objects@[i].1.size,
{
    assert forall|i: int| 0 <= i < lens.len() implies object_target(#[trigger] index.objects@[i].1).path == object_path(
        index.objects@[i].1.hash@,
    ) && lens[i] == index.objects@[i].1.size by {
        assert(is_current(object_target(index.objects@[i].1).check, Some(lens[i])) || download_acceptable(
            object_target(index.objects@[i].1).check,
            lens[i],
        ));
    }
}

} // verus!
