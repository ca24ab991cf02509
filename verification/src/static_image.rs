//! Resolution of a module image on disk.
//!
//! The image is looked for in the candidate directories of
//! [`crate::search_path`], in order. The first directory in which the file
//! exists is the one that is read, whether or not the read succeeds; no
//! later directory is tried.
//!
//! The search is a conversation. [`get_static`] gives the first
//! [`StaticStep`]; the caller does what the step asks of the filesystem
//! and hands the answer to the step's `answer`, which gives the next step,
//! until the step is [`StaticStep::Done`].

use vstd::prelude::*;
use crate::search_path::{candidate_dirs, search_dirs};

verus! {

/// A pending existence check: is `name` a file in the directory at
/// `index`?
pub struct ProbeView {
    /// The candidate directories, in search order.
    pub dirs: Seq<Seq<char>>,
    /// The file name looked for.
    pub name: Seq<char>,
    /// Position of the directory under test.
    pub index: nat,
}

/// A pending read of the file `name` in `dir`.
pub struct ReadView {
    pub dir: Seq<char>,
    pub name: Seq<char>,
}

/// Where a search stands.
pub enum StaticStepView {
    Probe(ProbeView),
    Read(ReadView),
    Done(Option<Seq<u8>>),
}

impl ProbeView {
    /// The directory under test is one of the candidates.
    pub open spec fn wf(self) -> bool {
        self.index < self.dirs.len()
    }

    /// The directory under test.
    pub open spec fn dir(self) -> Seq<char> {
        self.dirs[self.index as int]
    }

    /// The step that follows the filesystem's answer: a file that exists
    /// is read; otherwise the next directory is tested, and after the last
    /// one the search ends with nothing.
    pub open spec fn answer(self, is_file: bool) -> StaticStepView {
        if is_file {
            StaticStepView::Read(ReadView { dir: self.dir(), name: self.name })
        } else if self.index + 1 < self.dirs.len() {
            StaticStepView::Probe(ProbeView { index: self.index + 1, ..self })
        } else {
            StaticStepView::Done(None)
        }
    }
}

impl ReadView {
    /// The step that follows a read: the search ends with what was read,
    /// or with nothing where the read failed.
    pub open spec fn answer(self, contents: Option<Seq<u8>>) -> StaticStepView {
        StaticStepView::Done(contents)
    }
}

/// The first step of a search for `image`: a test of the first candidate
/// directory.
pub open spec fn first_step(output_dir: Option<Seq<char>>, image: Seq<char>) -> StaticStepView {
    StaticStepView::Probe(ProbeView { dirs: search_dirs(output_dir), name: image, index: 0 })
}

/// What a read gave, as specifications see it: the bytes, or nothing.
pub open spec fn image_view(image: Option<Vec<u8>>) -> Option<Seq<u8>> {
    match image {
        Some(bytes) => Some(bytes@),
        None => None,
    }
}

/// A pending existence check.
pub struct FileProbe {
    dirs: Vec<String>,
    name: String,
    index: usize,
}

/// A pending read.
pub struct FileRead {
    dir: String,
    name: String,
}

/// What the caller has to do next.
pub enum StaticStep {
    /// Test whether the file exists, and answer with
    /// [`FileProbe::answer`].
    Probe(FileProbe),
    /// Read the whole file, and answer with [`FileRead::answer`].
    Read(FileRead),
    /// Nothing: the search has ended, with the file's bytes or with
    /// nothing.
    Done(Option<Vec<u8>>),
}

impl View for FileProbe {
    type V = ProbeView;

    closed spec fn view(&self) -> ProbeView {
        ProbeView { dirs: self.dirs.deep_view(), name: self.name@, index: self.index as nat }
    }
}

impl View for FileRead {
    type V = ReadView;

    closed spec fn view(&self) -> ReadView {
        ReadView { dir: self.dir@, name: self.name@ }
    }
}

impl View for StaticStep {
    type V = StaticStepView;

    open spec fn view(&self) -> StaticStepView {
        match self {
            StaticStep::Probe(probe) => StaticStepView::Probe(probe@),
            StaticStep::Read(read) => StaticStepView::Read(read@),
            StaticStep::Done(image) => StaticStepView::Done(image_view(*image)),
        }
    }
}

impl FileProbe {
    #[verifier::type_invariant]
    spec fn in_range(self) -> bool {
        self.index < self.dirs.len()
    }

    /// The directory to look in.
    pub fn dir(&self) -> (dir: &str)
        ensures
            self@.wf(),
            dir@ == self@.dir(),
    {
        proof {
            use_type_invariant(self);
        }
        self.dirs[self.index].as_str()
    }

    /// The file name to look for.
    pub fn name(&self) -> (name: &str)
        ensures
            name@ == self@.name,
    {
        self.name.as_str()
    }

    /// Takes the filesystem's answer and gives the next step.
    ///
    /// `is_file` says whether [`Self::name`] is a file in [`Self::dir`].
    pub fn answer(self, is_file: bool) -> (next: StaticStep)
        ensures
            next@ == self@.answer(is_file),
    {
        proof {
            use_type_invariant(&self);
        }
        let FileProbe { dirs, name, index } = self;
        if is_file {
            let dir = dirs[index].clone();
            StaticStep::Read(FileRead { dir, name })
        } else if index + 1 < dirs.len() {
            StaticStep::Probe(FileProbe { dirs, name, index: index + 1 })
        } else {
            StaticStep::Done(None)
        }
    }
}

impl FileRead {
    /// The directory to read from.
    pub fn dir(&self) -> (dir: &str)
        ensures
            dir@ == self@.dir,
    {
        self.dir.as_str()
    }

    /// The name of the file to read.
    pub fn name(&self) -> (name: &str)
        ensures
            name@ == self@.name,
    {
        self.name.as_str()
    }

    /// Takes what the read gave and ends the search.
    ///
    /// `contents` holds the file's bytes, or nothing where the read
    /// failed.
    pub fn answer(self, contents: Option<Vec<u8>>) -> (next: StaticStep)
        ensures
            next@ == self@.answer(image_view(contents)),
    {
        StaticStep::Done(contents)
    }
}

/// Begins the search for the image named `image`.
///
/// `output_dir` is the value of
/// [`crate::search_path::OUTPUT_DIR_VARIABLE`], or `None` where it is
/// unset. The name is taken as it is.
pub fn get_static(output_dir: Option<String>, image: String) -> (step: StaticStep)
    ensures
        step@ == first_step(output_dir.deep_view(), image@),
{
    let dirs = candidate_dirs(output_dir);
    assert(dirs@.len() == dirs.deep_view().len());
    StaticStep::Probe(FileProbe { dirs, name: image, index: 0 })
}

} // verus!
