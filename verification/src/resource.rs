//! What one updater run decides: which remote collection is fetched
//! from which endpoint, and which cache file its snapshot overwrites.
//! The run fetches all three collections wholesale, in this order:
//! tasks, comments, projects; a failure aborts the whole run and leaves
//! the cache as it was.

use vstd::prelude::*;

verus! {

/// The three remote collections the updater mirrors into the cache.
#[derive(Copy, Clone, PartialEq, Eq, Structural, Debug)]
pub enum Resource {
    Tasks,
    Comments,
    Projects,
}

/// The remote endpoint each collection is fetched from.
pub open spec fn resource_endpoint(r: Resource) -> Seq<char> {
    match r {
        Resource::Tasks => "http://172.30.152.201:4000/tasks/"@,
        Resource::Comments => "http://172.30.152.201:4000/tasks/comments/"@,
        Resource::Projects => "http://172.30.152.201:4000/projects/"@,
    }
}

/// The cache file each collection's snapshot overwrites, and the file
/// the dashboard re-reads on every frame.
pub open spec fn cache_path(r: Resource) -> Seq<char> {
    match r {
        Resource::Tasks => "./cache/task.json"@,
        Resource::Comments => "./cache/comment.json"@,
        Resource::Projects => "./cache/project.json"@,
    }
}

/// The endpoint text of one collection.
pub fn resource_endpoint_str(r: Resource) -> (s: &'static str)
    ensures
        s@ == resource_endpoint(r),
{
    match r {
        Resource::Tasks => "http://172.30.152.201:4000/tasks/",
        Resource::Comments => "http://172.30.152.201:4000/tasks/comments/",
        Resource::Projects => "http://172.30.152.201:4000/projects/",
    }
}

/// The cache file path of one collection.
pub fn cache_path_str(r: Resource) -> (s: &'static str)
    ensures
        s@ == cache_path(r),
{
    match r {
        Resource::Tasks => "./cache/task.json",
        Resource::Comments => "./cache/comment.json",
        Resource::Projects => "./cache/project.json",
    }
}

} // verus!
