//! What a search on disk comes to, against a model of the filesystem.
//!
//! [`Disk`] says which files exist and what reading each gives.
//! [`outcome`] and [`requests`] follow a search step by step, giving each
//! step the answer that the disk gives; the laws below say what they come
//! to for a search begun by [`crate::static_image::get_static`].

use vstd::prelude::*;
use crate::search_path::{lemma_search_dirs_distinct, search_dirs};
use crate::static_image::{first_step, ProbeView, ReadView, StaticStepView};

verus! {

/// The files that a search can see: for each directory and file name that
/// name a file, what reading it gives, which is nothing where the read
/// fails.
pub struct Disk {
    pub files: Map<(Seq<char>, Seq<char>), Option<Seq<u8>>>,
}

impl Disk {
    /// Whether `name` is a file in `dir`.
    pub open spec fn is_file(self, dir: Seq<char>, name: Seq<char>) -> bool {
        self.files.dom().contains((dir, name))
    }

    /// What reading `name` in `dir` gives.
    pub open spec fn read(self, dir: Seq<char>, name: Seq<char>) -> Option<Seq<u8>> {
        if self.is_file(dir, name) {
            self.files[(dir, name)]
        } else {
            None
        }
    }
}

/// A question put to the filesystem.
pub enum FileRequest {
    /// Is `name` a file in `dir`?
    IsFile { dir: Seq<char>, name: Seq<char> },
    /// What does `name` in `dir` hold?
    Read { dir: Seq<char>, name: Seq<char> },
}

/// How many questions a search may still put, at most.
pub open spec fn steps_left(step: StaticStepView) -> nat {
    match step {
        StaticStepView::Probe(probe) => if probe.wf() {
            (probe.dirs.len() - probe.index + 1) as nat
        } else {
            2
        },
        StaticStepView::Read(_) => 1,
        StaticStepView::Done(_) => 0,
    }
}

/// The step that follows `step` once the disk has answered it. A search
/// that has ended stays where it is.
pub open spec fn next_step(step: StaticStepView, disk: Disk) -> StaticStepView {
    match step {
        StaticStepView::Probe(probe) => probe.answer(disk.is_file(probe.dir(), probe.name)),
        StaticStepView::Read(read) => read.answer(disk.read(read.dir, read.name)),
        StaticStepView::Done(_) => step,
    }
}

/// The question that `step` puts, if it puts one.
pub open spec fn request_of(step: StaticStepView) -> Option<FileRequest> {
    match step {
        StaticStepView::Probe(probe) => Some(
            FileRequest::IsFile { dir: probe.dir(), name: probe.name },
        ),
        StaticStepView::Read(read) => Some(FileRequest::Read { dir: read.dir, name: read.name }),
        StaticStepView::Done(_) => None,
    }
}

/// What a search that stands at `step` ends with on `disk`.
pub open spec fn outcome(step: StaticStepView, disk: Disk) -> Option<Seq<u8>>
    decreases steps_left(step),
{
    match step {
        StaticStepView::Done(image) => image,
        _ => outcome(next_step(step, disk), disk),
    }
}

/// The questions that a search that stands at `step` puts on `disk`, in
/// order.
pub open spec fn requests(step: StaticStepView, disk: Disk) -> Seq<FileRequest>
    decreases steps_left(step),
{
    match request_of(step) {
        Some(request) => seq![request] + requests(next_step(step, disk), disk),
        None => Seq::empty(),
    }
}

/// Existence checks for `name` in `dirs[from]`, ..., `dirs[to - 1]`.
pub open spec fn probes(dirs: Seq<Seq<char>>, name: Seq<char>, from: int, to: int) -> Seq<
    FileRequest,
> {
    Seq::new((to - from) as nat, |k: int| FileRequest::IsFile { dir: dirs[from + k], name })
}

/// A search that has ended asks nothing more.
proof fn lemma_done_ends(image: Option<Seq<u8>>, disk: Disk)
    ensures
        outcome(StaticStepView::Done(image), disk) == image,
        requests(StaticStepView::Done(image), disk) == Seq::<FileRequest>::empty(),
{
}

/// A pending read asks for the file once, and the search ends with what
/// the read gives.
proof fn lemma_read_ends(read: ReadView, disk: Disk)
    ensures
        outcome(StaticStepView::Read(read), disk) == disk.read(read.dir, read.name),
        requests(StaticStepView::Read(read), disk) == seq![
            FileRequest::Read { dir: read.dir, name: read.name },
        ],
{
    let step = StaticStepView::Read(read);
    lemma_done_ends(disk.read(read.dir, read.name), disk);
    assert(outcome(step, disk) == outcome(next_step(step, disk), disk));
    assert(requests(step, disk) == seq![FileRequest::Read { dir: read.dir, name: read.name }]
        + requests(next_step(step, disk), disk));
}

/// A search that stands before a directory at or before the first one
/// that holds the file tests each directory up to that one, reads the
/// file there, and ends with what the read gave.
proof fn lemma_probe_until_match(probe: ProbeView, disk: Disk, first: int)
    requires
        probe.index <= first < probe.dirs.len(),
        disk.is_file(probe.dirs[first], probe.name),
        forall|k: int| probe.index <= k < first ==> !disk.is_file(probe.dirs[k], probe.name),
    ensures
        outcome(StaticStepView::Probe(probe), disk) == disk.read(probe.dirs[first], probe.name),
        requests(StaticStepView::Probe(probe), disk) == probes(
            probe.dirs,
            probe.name,
            probe.index as int,
            first + 1,
        ) + seq![FileRequest::Read { dir: probe.dirs[first], name: probe.name }],
    decreases first - probe.index,
{
    let step = StaticStepView::Probe(probe);
    if probe.index == first {
        lemma_read_ends(ReadView { dir: probe.dir(), name: probe.name }, disk);
    } else {
        lemma_probe_until_match(ProbeView { index: probe.index + 1, ..probe }, disk, first);
    }
    assert(outcome(step, disk) == outcome(next_step(step, disk), disk));
    assert(requests(step, disk) == seq![FileRequest::IsFile { dir: probe.dir(), name: probe.name }]
        + requests(next_step(step, disk), disk));
    assert(requests(step, disk) == probes(probe.dirs, probe.name, probe.index as int, first + 1)
        + seq![FileRequest::Read { dir: probe.dirs[first], name: probe.name }]);
}

/// A search that stands before directories of which none holds the file
/// tests each of them and ends with nothing.
proof fn lemma_probe_without_match(probe: ProbeView, disk: Disk)
    requires
        probe.wf(),
        forall|k: int|
            probe.index <= k < probe.dirs.len() ==> !disk.is_file(probe.dirs[k], probe.name),
    ensures
        outcome(StaticStepView::Probe(probe), disk) == None::<Seq<u8>>,
        requests(StaticStepView::Probe(probe), disk) == probes(
            probe.dirs,
            probe.name,
            probe.index as int,
            probe.dirs.len() as int,
        ),
    decreases probe.dirs.len() - probe.index,
{
    let step = StaticStepView::Probe(probe);
    if probe.index + 1 < probe.dirs.len() {
        lemma_probe_without_match(ProbeView { index: probe.index + 1, ..probe }, disk);
    } else {
        lemma_done_ends(None, disk);
    }
    assert(outcome(step, disk) == outcome(next_step(step, disk), disk));
    assert(requests(step, disk) == seq![FileRequest::IsFile { dir: probe.dir(), name: probe.name }]
        + requests(next_step(step, disk), disk));
    assert(requests(step, disk) == probes(
        probe.dirs,
        probe.name,
        probe.index as int,
        probe.dirs.len() as int,
    ));
}

/// The first matching directory wins, and the search stops there.
///
/// Where the directory at `first` holds the file and no earlier candidate
/// does, the search ends with what reading the file in that directory
/// gives: its bytes, or nothing where the read fails. It tests the
/// candidates up to that one, in order, then reads there, and asks
/// nothing else.
pub proof fn law_first_match_wins(
    output_dir: Option<Seq<char>>,
    image: Seq<char>,
    disk: Disk,
    first: int,
)
    requires
        0 <= first < search_dirs(output_dir).len(),
        disk.is_file(search_dirs(output_dir)[first], image),
        forall|k: int| 0 <= k < first ==> !disk.is_file(search_dirs(output_dir)[k], image),
    ensures
        outcome(first_step(output_dir, image), disk) == disk.read(
            search_dirs(output_dir)[first],
            image,
        ),
        requests(first_step(output_dir, image), disk) == probes(
            search_dirs(output_dir),
            image,
            0,
            first + 1,
        ) + seq![FileRequest::Read { dir: search_dirs(output_dir)[first], name: image }],
{
    let probe = ProbeView { dirs: search_dirs(output_dir), name: image, index: 0 };
    lemma_probe_until_match(probe, disk, first);
}

/// A file in exactly one candidate directory is the one that is read.
///
/// Where the directory at `only` holds the file and no other candidate
/// does, the search ends with what reading the file in that directory
/// gives.
pub proof fn law_only_match_is_read(
    output_dir: Option<Seq<char>>,
    image: Seq<char>,
    disk: Disk,
    only: int,
)
    requires
        0 <= only < search_dirs(output_dir).len(),
        forall|k: int|
            0 <= k < search_dirs(output_dir).len() ==> (disk.is_file(
                search_dirs(output_dir)[k],
                image,
            ) <==> k == only),
    ensures
        outcome(first_step(output_dir, image), disk) == disk.read(
            search_dirs(output_dir)[only],
            image,
        ),
{
    law_first_match_wins(output_dir, image, disk, only);
}

/// Of two candidate directories that hold the file, the earlier one is
/// read.
///
/// Where the directories at `earlier` and `later` hold the file and no
/// other candidate does, the search ends with what reading the file in
/// the earlier directory gives, and never asks for the file in the later
/// one.
pub proof fn law_earlier_match_wins(
    output_dir: Option<Seq<char>>,
    image: Seq<char>,
    disk: Disk,
    earlier: int,
    later: int,
)
    requires
        0 <= earlier < later < search_dirs(output_dir).len(),
        forall|k: int|
            0 <= k < search_dirs(output_dir).len() ==> (disk.is_file(
                search_dirs(output_dir)[k],
                image,
            ) <==> k == earlier || k == later),
    ensures
        outcome(first_step(output_dir, image), disk) == disk.read(
            search_dirs(output_dir)[earlier],
            image,
        ),
        !requests(first_step(output_dir, image), disk).contains(
            FileRequest::IsFile { dir: search_dirs(output_dir)[later], name: image },
        ),
        !requests(first_step(output_dir, image), disk).contains(
            FileRequest::Read { dir: search_dirs(output_dir)[later], name: image },
        ),
{
    law_first_match_wins(output_dir, image, disk, earlier);
    lemma_search_dirs_distinct(output_dir);
    let dirs = search_dirs(output_dir);
    let asked = requests(first_step(output_dir, image), disk);
    assert forall|k: int| 0 <= k < asked.len() implies asked[k] != (FileRequest::IsFile {
        dir: dirs[later],
        name: image,
    }) && asked[k] != (FileRequest::Read { dir: dirs[later], name: image }) by {
        if k <= earlier {
            assert(asked[k] == FileRequest::IsFile { dir: dirs[k], name: image });
        } else {
            assert(asked[k] == FileRequest::Read { dir: dirs[earlier], name: image });
        }
    }
}

/// A file in none of the candidate directories is not found.
///
/// Where no candidate holds the file, the search tests every candidate,
/// in order, reads nothing, and ends with nothing.
pub proof fn law_no_match_is_absent(output_dir: Option<Seq<char>>, image: Seq<char>, disk: Disk)
    requires
        forall|k: int|
            0 <= k < search_dirs(output_dir).len() ==> !disk.is_file(
                search_dirs(output_dir)[k],
                image,
            ),
    ensures
        outcome(first_step(output_dir, image), disk) == None::<Seq<u8>>,
        requests(first_step(output_dir, image), disk) == probes(
            search_dirs(output_dir),
            image,
            0,
            search_dirs(output_dir).len() as int,
        ),
{
    let probe = ProbeView { dirs: search_dirs(output_dir), name: image, index: 0 };
    lemma_probe_without_match(probe, disk);
}

} // verus!
