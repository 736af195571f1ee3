//! Asset bookkeeping for one submission attempt: fresh random file names for
//! stored images, and the cleanup guard that remembers every path written so
//! that a failed attempt can delete all of it.

use vstd::prelude::*;
use vstd::string::StringExecFns;

use crate::strutil::spec_ends_with_png;
use crate::strutil::view_seq;

verus! {

/// Relies on `uuid::Uuid::new_v4` and its hyphenated rendering: a random
/// identifier of 36 characters. Nothing else can be promised of a random
/// value. The call aborts only if the operating system's randomness source
/// fails — an environmental fault of the same class as allocation failure.
#[verifier::external_body]
pub(crate) fn fresh_uuid_string() -> (r: String)
    ensures
        r@.len() == 36,
{
    uuid::Uuid::new_v4().to_string()
}

/// A fresh file name for an uploaded post image: a random identifier with
/// the canonical extension. The name is independent of the image's content.
pub fn image_file_name() -> (r: String)
    ensures
        r@.len() == 40,
        spec_ends_with_png(r@),
{
    proof {
        reveal_strlit(".png");
    }
    let u = fresh_uuid_string();
    let r = u.concat(".png");
    proof {
        assert(r@.subrange(r@.len() - 4, r@.len() as int) =~= ".png"@);
    }
    r
}

/// A fresh file name for a fetched avatar image, distinguished by its
/// `avatar_` prefix.
pub fn avatar_file_name() -> (r: String)
    ensures
        r@.len() == 47,
        spec_ends_with_png(r@),
{
    proof {
        reveal_strlit("avatar_");
        reveal_strlit(".png");
    }
    let u = fresh_uuid_string();
    let r = String::from_str("avatar_").concat(u.as_str()).concat(".png");
    proof {
        assert(r@.subrange(r@.len() - 4, r@.len() as int) =~= ".png"@);
    }
    r
}

/// The full path of an asset under the upload root.
pub fn upload_path(root: &str, name: &str) -> (r: String)
    ensures
        r@ == root@ + "/"@ + name@,
{
    String::from_str(root).concat("/").concat(name)
}

/// The scoped cleanup guard: collects every path written during the current
/// attempt. Unless dismissed — which happens only right after a successful
/// commit — the attempt's owner deletes every collected path on exit.
pub struct CleanupGuard {
    paths: Vec<String>,
}

impl CleanupGuard {
    /// The paths collected so far.
    pub closed spec fn view(&self) -> Seq<Seq<char>> {
        view_seq(self.paths@)
    }

    /// A guard with nothing to clean up yet.
    pub fn new() -> (g: Self)
        ensures
            g@ =~= Seq::<Seq<char>>::empty(),
    {
        let g = CleanupGuard { paths: Vec::new() };
        proof {
            assert(g@ =~= Seq::<Seq<char>>::empty());
        }
        g
    }

    /// Registers one written path for cleanup.
    pub fn add(&mut self, path: String)
        ensures
            final (self)@ =~= old(self)@.push(path@),
    {
        self.paths.push(path);
        proof {
            assert(final (self)@ =~= old(self)@.push(path@));
        }
    }

    /// Dismisses the guard: the attempt committed, the written assets now
    /// belong to the stored post, and nothing is to be deleted.
    pub fn dismiss(&mut self)
        ensures
            final (self)@ =~= Seq::<Seq<char>>::empty(),
    {
        self.paths = Vec::new();
        proof {
            assert(final (self)@ =~= Seq::<Seq<char>>::empty());
        }
    }

    /// Surrenders the collected paths, for the owner to delete when the
    /// attempt failed.
    pub fn into_paths(self) -> (r: Vec<String>)
        ensures
            view_seq(r@) == self@,
    {
        self.paths
    }

    /// The collected paths, read-only.
    pub fn paths(&self) -> (r: &Vec<String>)
        ensures
            view_seq(r@) == self@,
    {
        &self.paths
    }
}

} // verus!
