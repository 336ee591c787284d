//! Where files live: the base directory, and which names stay inside it.

use vstd::prelude::*;
use vstd::slice::slice_to_vec;
use vstd::string::*;
use vstd::utf8::{encode_utf8_valid_utf8, valid_utf8};
use crate::scan::{has_prefix, matches_at, occurs_at, starts_with};
use crate::syntax;

verus! {

/// The configuration of a server: the directory under which files are
/// read and written. It is made once and only read afterwards, so every
/// connection can share it.
#[derive(Clone, Debug, PartialEq, Eq)]
pub struct ServerConfig {
    base_directory: Vec<u8>,
}

impl View for ServerConfig {
    type V = Seq<u8>;

    closed spec fn view(&self) -> Seq<u8> {
        self.base_directory@
    }
}

/// A `..` segment stands in `name` at index `at`: the two dots, with the
/// start of the name or a `/` before them and the end of the name or a `/`
/// after them.
pub open spec fn parent_segment_at(name: Seq<u8>, at: int) -> bool {
    &&& occurs_at(name, syntax::PARENT_SEGMENT@, at)
    &&& (at == 0 || name[at - 1] == syntax::PATH_SEPARATOR@[0])
    &&& (at + 2 == name.len() || name[at + 2] == syntax::PATH_SEPARATOR@[0])
}

/// The name stays inside the directory that it is resolved in: it does
/// not begin with `/`, and none of its segments is `..`.
pub open spec fn stays_inside(name: Seq<u8>) -> bool {
    &&& !has_prefix(name, syntax::PATH_SEPARATOR@)
    &&& forall|at: int| !parent_segment_at(name, at)
}

/// The path of the file called `name` under `base`: the two joined by `/`.
pub open spec fn path_under(base: Seq<u8>, name: Seq<u8>) -> Seq<u8> {
    base + syntax::PATH_SEPARATOR@ + name
}

/// Tells whether a file name stays inside the directory it is resolved in.
pub fn is_contained(name: &[u8]) -> (inside: bool)
    ensures
        inside == stays_inside(name@),
{
    if starts_with(name, &syntax::PATH_SEPARATOR) {
        return false;
    }
    let len: usize = name.len();
    if len < 2 {
        return true;
    }
    let mut at: usize = 0;
    while at < len - 1
        invariant
            len == name.len(),
            len >= 2,
            at < len,
            forall|earlier: int| earlier < at ==> !parent_segment_at(name@, earlier),
        decreases len - at,
    {
        if matches_at(name, &syntax::PARENT_SEGMENT, at) && (at == 0 || name[at - 1]
            == syntax::PATH_SEPARATOR[0]) && (at + 2 == len || name[at + 2]
            == syntax::PATH_SEPARATOR[0]) {
            assert(parent_segment_at(name@, at as int));
            return false;
        }
        at += 1;
    }
    true
}

impl ServerConfig {
    /// A configuration that serves files from under `base_directory`.
    pub fn new(base_directory: &str) -> (config: ServerConfig)
        ensures
            config@ == base_directory.spec_bytes(),
            valid_utf8(config@),
    {
        proof {
            encode_utf8_valid_utf8(base_directory@);
        }
        ServerConfig { base_directory: slice_to_vec(base_directory.as_bytes()) }
    }

    /// The base directory, as the bytes of its path.
    pub fn base_directory(&self) -> (base: &Vec<u8>)
        ensures
            base@ == self@,
    {
        &self.base_directory
    }

    /// The path of the file called `name`: the base directory, a `/`, and
    /// the name as it was given.
    pub fn resolve(&self, name: &[u8]) -> (path: Vec<u8>)
        ensures
            path@ == path_under(self@, name@),
    {
        let mut path: Vec<u8> = Vec::new();
        path.extend_from_slice(self.base_directory.as_slice());
        path.extend_from_slice(&syntax::PATH_SEPARATOR);
        path.extend_from_slice(name);
        path
    }
}

} // verus!
