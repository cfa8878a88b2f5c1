//! The file of one upload, while a caller holds it.

use vstd::prelude::*;

verus! {

/// The destination of an upload in progress: the open file and its path.
/// `F` is the file handle; this type never looks inside one.
///
/// The file is there until the upload is completed or rolled back; after
/// that the state is spent.
pub struct UploadState<F> {
    file: Option<(F, String)>,
}

impl<F> View for UploadState<F> {
    type V = Option<(F, Seq<char>)>;

    /// The open file and its path, or `None` once the state is spent.
    closed spec fn view(&self) -> Option<(F, Seq<char>)> {
        match self.file {
            Some((file, path)) => Some((file, path@)),
            None => None,
        }
    }
}

impl<F> UploadState<F> {
    /// The path of the file, while it is there.
    pub open spec fn path(&self) -> Seq<char> {
        self@.unwrap().1
    }

    /// The state of an upload whose file has just been created.
    pub fn new(file: F, path: String) -> (state: Self)
        ensures
            state@ == Some((file, path@)),
    {
        UploadState { file: Some((file, path)) }
    }

    /// Tells whether the file is still there.
    pub fn is_open(&self) -> (open: bool)
        ensures
            open == self@.is_some(),
    {
        self.file.is_some()
    }

    /// The file to append the next chunk to. The state must not be spent.
    pub fn submit(&mut self) -> (file: &mut F)
        requires
            old(self)@.is_some(),
        ensures
            Some((*file, old(self).path())) == old(self)@,
            final(self)@ == Some((*final(file), old(self).path())),
    {
        let held = self.file.as_mut().unwrap();
        &mut held.0
    }

    /// Completes the upload: hands out the file, to be flushed and kept, and
    /// leaves the state spent. The state must not be spent already.
    pub fn complete(&mut self) -> (file: F)
        requires
            old(self)@.is_some(),
        ensures
            Some((file, old(self).path())) == old(self)@,
            final(self)@.is_none(),
    {
        let (file, _path) = self.file.take().unwrap();
        file
    }

    /// Rolls the upload back: hands out the file and its path, to be closed
    /// and deleted, and leaves the state spent. A spent state has nothing to
    /// roll back.
    pub fn rollback(&mut self) -> (held: Option<(F, String)>)
        ensures
            final(self)@.is_none(),
            match held {
                Some((file, path)) => old(self)@ == Some((file, path@)),
                None => old(self)@.is_none(),
            },
    {
        self.file.take()
    }
}

} // verus!
