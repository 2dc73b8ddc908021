//! The snapshot of one Drive file that a listing returns.

use vstd::prelude::*;

verus! {

/// The characters of an optional string.
pub open spec fn opt_text(o: Option<String>) -> Option<Seq<char>> {
    match o {
        Some(s) => Some(s@),
        None => None,
    }
}

/// The characters of each string of a sequence.
pub open spec fn texts(v: Seq<String>) -> Seq<Seq<char>> {
    v.map_values(|s: String| s@)
}

/// A copy of an optional string.
pub fn clone_opt_text(o: &Option<String>) -> (r: Option<String>)
    ensures
        opt_text(r) == opt_text(*o),
{
    match o {
        Some(s) => Some(s.clone()),
        None => None,
    }
}

/// A copy of a list of strings.
pub fn clone_texts(v: &Vec<String>) -> (r: Vec<String>)
    ensures
        texts(r@) == texts(v@),
{
    let mut out: Vec<String> = Vec::new();
    let mut i: usize = 0;
    while i < v.len()
        invariant
            i <= v.len(),
            out@.len() == i,
            forall|j: int| 0 <= j < i ==> out@[j]@ == v@[j]@,
        decreases v.len() - i,
    {
        out.push(v[i].clone());
        i = i + 1;
    }
    assert(texts(out@) =~= texts(v@));
    out
}

/// One file of a Drive folder, as the listing describes it. A snapshot:
/// nothing changes it afterwards.
#[derive(Debug, PartialEq, Eq)]
pub struct DriveFileRef {
    /// The identifier by which Drive knows the file.
    pub id: String,
    /// The display name. It becomes the last part of the object key.
    pub name: String,
    pub mime_type: String,
    /// Hash of the raw content, in hexadecimal, where Drive gives one.
    pub md5_checksum: Option<String>,
    /// Size in bytes, where Drive gives one.
    pub size: Option<u64>,
    /// Identifiers of the folders that hold the file.
    pub parents: Vec<String>,
}

/// Mathematical model of a [`DriveFileRef`].
pub struct DriveFileView {
    pub id: Seq<char>,
    pub name: Seq<char>,
    pub mime_type: Seq<char>,
    pub md5_checksum: Option<Seq<char>>,
    pub size: Option<u64>,
    pub parents: Seq<Seq<char>>,
}

impl View for DriveFileRef {
    type V = DriveFileView;

    open spec fn view(&self) -> DriveFileView {
        DriveFileView {
            id: self.id@,
            name: self.name@,
            mime_type: self.mime_type@,
            md5_checksum: opt_text(self.md5_checksum),
            size: self.size,
            parents: texts(self.parents@),
        }
    }
}

impl Clone for DriveFileRef {
    fn clone(&self) -> (r: Self)
        ensures
            r@ == self@,
    {
        DriveFileRef {
            id: self.id.clone(),
            name: self.name.clone(),
            mime_type: self.mime_type.clone(),
            md5_checksum: clone_opt_text(&self.md5_checksum),
            size: self.size,
            parents: clone_texts(&self.parents),
        }
    }
}

/// The models of the files of a sequence, in order.
pub open spec fn file_views(v: Seq<DriveFileRef>) -> Seq<DriveFileView> {
    v.map_values(|f: DriveFileRef| f@)
}

} // verus!
