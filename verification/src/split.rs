//! The splitter: one source document, a list of requests, one output file
//! for each request.
//!
//! Every output is derived from a fresh copy of the source, so no request
//! sees what another did. The library reads and writes no file: the caller
//! loads the source and hands it in, and writes what it is handed, one
//! output at a time, and reports how each write went. The first failure ends
//! the batch; what was written before it stays.
//!
//! A source from which pages cannot be removed safely, because the parents
//! of a page run in a circle or a count stands at the least integer, is
//! refused with `FileLoad` when the batch is made.
//!
//! After the pages are removed from a copy, the pages that are left are
//! listed again and held against the request. A copy that does not hold
//! exactly the requested pages is not handed out: the request fails with
//! `FileSave`, as it does when the copy cannot be written out, be it that
//! its object numbers are used up or that writing reports an error.
//!
//! Two requests may name the same file. Both outputs are made, for the same
//! path; the caller writes them in order, so the later one is what stays.

use crate::batch::{next_state, start_state, BatchState};
use crate::document::{
    count_objects, document_max_id, document_pages, max_id, page_ids, serialize, serialized,
    without_pages,
};
use crate::error::ErrMessages;
use crate::pages::{deletion_set, kept_pages, pages_match, spec_deletion_set};
use crate::path::{get_root, root_of};
use crate::request::{request_views, Request, Split};
use crate::tree::{climb_all, safe_to_delete};
use vstd::prelude::*;
use vstd::string::*;

verus! {

/// What the caller found at the source path.
#[derive(Debug)]
pub enum SourceFile {
    /// No regular file is there.
    NotFound,
    /// A file is there, and this is what loading it gave.
    Loaded(Result<lopdf::Document, lopdf::Error>),
}

/// One output: the path to write to and the bytes to write.
#[derive(Debug)]
pub struct OutputFile {
    pub path: String,
    pub bytes: Vec<u8>,
}

/// What the prover sees of an `OutputFile`.
pub struct Output {
    pub path: Seq<char>,
    pub bytes: Seq<u8>,
}

impl View for OutputFile {
    type V = Output;

    open spec fn view(&self) -> Output {
        Output { path: self.path@, bytes: self.bytes@ }
    }
}

/// What the caller is to do next.
#[derive(Debug)]
pub enum Step {
    /// Write this output, then report how it went.
    Save(OutputFile),
    /// The batch is over, with this result.
    Stop(Result<(), ErrMessages>),
}

/// Where an output goes: the directory of the source, then the name that the
/// request gives.
pub open spec fn output_path(directory: Seq<char>, name: Seq<char>) -> Seq<char> {
    directory + name
}

/// The working copy of a request: the source without the pages that the
/// request removes.
pub open spec fn working_copy(source: lopdf::Document, request: Request) -> lopdf::Document {
    without_pages(
        source,
        spec_deletion_set(document_pages(source).len() as u32, request.start, request.end),
    )
}

/// What a request yields from a source document: the output, whose pages are
/// exactly those that the request keeps, or `FileSave` where the working
/// copy does not hold exactly those pages, has no object number left, or
/// cannot be written out.
pub open spec fn spec_output(source: lopdf::Document, directory: Seq<char>, request: Request)
    -> Result<Output, ErrMessages> {
    let copy = working_copy(source, request);
    if document_pages(copy) != kept_pages(document_pages(source), request.start, request.end) {
        Err(ErrMessages::FileSave)
    } else if document_max_id(copy) == u32::MAX {
        Err(ErrMessages::FileSave)
    } else {
        match serialized(copy) {
            Some(bytes) => Ok(Output { path: output_path(directory, request.name), bytes }),
            None => Err(ErrMessages::FileSave),
        }
    }
}

/// What each request of a batch yields, in the order of the requests.
pub open spec fn batch_outputs(
    source: lopdf::Document,
    directory: Seq<char>,
    requests: Seq<Request>,
) -> Seq<Result<Output, ErrMessages>> {
    Seq::new(requests.len(), |i: int| spec_output(source, directory, requests[i]))
}

/// What a request yields depends on the source and on the request alone: not
/// on its place in the batch, and not on the other requests. So the same
/// requests in another order yield the same outputs, each byte for byte.
pub proof fn lemma_order_independent(
    source: lopdf::Document,
    directory: Seq<char>,
    first: Seq<Request>,
    second: Seq<Request>,
    i: int,
    j: int,
)
    requires
        0 <= i < first.len(),
        0 <= j < second.len(),
        first[i] == second[j],
    ensures
        batch_outputs(source, directory, first)[i] == batch_outputs(source, directory, second)[j],
{
}

/// A request that lies within the source yields, if it yields an output at
/// all, a document of exactly `end - start + 1` pages: the pages `start` to
/// `end` of the source, in the order of the source.
pub proof fn lemma_output_pages(source: lopdf::Document, directory: Seq<char>, request: Request)
    requires
        1 <= request.start <= request.end <= document_pages(source).len(),
        spec_output(source, directory, request) is Ok,
    ensures
        document_pages(working_copy(source, request)).len() == request.end - request.start + 1,
        forall|i: int|
            0 <= i <= request.end - request.start ==> #[trigger] document_pages(
                working_copy(source, request),
            )[i] == document_pages(source)[request.start - 1 + i],
{
}

/// A source document with the requests to run on it.
pub struct PDF {
    orig_doc: lopdf::Document,
    pages: Vec<(u32, u16)>,
    splits: Vec<Split>,
    target_path: String,
}

impl PDF {
    #[verifier::type_invariant]
    spec fn well_formed(self) -> bool {
        &&& self.pages@ == document_pages(self.orig_doc)
        &&& self.pages@.len() <= u32::MAX
        &&& safe_to_delete(self.orig_doc)
    }

    /// The source document, as it was loaded. It never changes.
    pub closed spec fn document(&self) -> lopdf::Document {
        self.orig_doc
    }

    /// The requests, in their order.
    pub closed spec fn requests(&self) -> Seq<Request> {
        request_views(self.splits@)
    }

    /// The directory that the outputs go to, with its trailing separator.
    pub closed spec fn directory(&self) -> Seq<char> {
        self.target_path@
    }

    /// What each request yields, in the order of the requests.
    pub open spec fn outputs(&self) -> Seq<Result<Output, ErrMessages>> {
        batch_outputs(self.document(), self.directory(), self.requests())
    }

    /// Whether the document is one that a batch can be made of: its pages
    /// can be counted in 32 bits and can be removed safely.
    pub open spec fn accepts(doc: lopdf::Document) -> bool {
        document_pages(doc).len() <= u32::MAX && safe_to_delete(doc)
    }

    /// Whether `self` is the batch made of the file at `path`, which holds
    /// the document `doc`, and of `requests`.
    pub open spec fn made_of(
        &self,
        path: Seq<char>,
        requests: Seq<Request>,
        doc: lopdf::Document,
    ) -> bool {
        &&& self.document() == doc
        &&& PDF::accepts(doc)
        &&& self.requests() == requests
        &&& self.directory() == root_of(path)
    }

    /// Running the same batch again yields the same outputs: they depend on
    /// the source document, on its path and on the requests, and on nothing
    /// that an earlier run left behind.
    pub proof fn lemma_same_batch_same_outputs(
        first: PDF,
        second: PDF,
        path: Seq<char>,
        requests: Seq<Request>,
        doc: lopdf::Document,
    )
        requires
            first.made_of(path, requests, doc),
            second.made_of(path, requests, doc),
        ensures
            first.outputs() == second.outputs(),
    {
    }

    /// Makes the batch from what loading the source gave. The outputs will
    /// go to the directory of `path`. A failure to load is `FileLoad`, and so
    /// is a document that has more pages than 32 bits can count or from
    /// which pages cannot be removed safely.
    pub fn from_loaded(
        path: &str,
        splits: Vec<Split>,
        loaded: Result<lopdf::Document, lopdf::Error>,
    ) -> (made: Result<PDF, ErrMessages>)
        ensures
            match made {
                Ok(pdf) => loaded matches Ok(doc) && pdf.made_of(
                    path@,
                    request_views(splits@),
                    doc,
                ),
                Err(e) => {
                    &&& e == ErrMessages::FileLoad
                    &&& loaded matches Ok(doc) ==> !PDF::accepts(doc)
                },
            },
    {
        match loaded {
            Err(_) => Err(ErrMessages::FileLoad),
            Ok(doc) => {
                let pages = page_ids(&doc);
                if pages.len() > u32::MAX as usize {
                    return Err(ErrMessages::FileLoad);
                }
                if !climb_all(&doc, &pages, count_objects(&doc)) {
                    return Err(ErrMessages::FileLoad);
                }
                let target_path = get_root(path);
                Ok(PDF { orig_doc: doc, pages, splits, target_path })
            },
        }
    }

    /// Makes the batch from what the caller found at `path`: `NoFile` where
    /// no file is there, else what `from_loaded` makes of it.
    pub fn new(path: &str, splits: Vec<Split>, source: SourceFile) -> (made: Result<
        PDF,
        ErrMessages,
    >)
        ensures
            match made {
                Ok(pdf) => source matches SourceFile::Loaded(Ok(doc)) && pdf.made_of(
                    path@,
                    request_views(splits@),
                    doc,
                ),
                Err(e) => match source {
                    SourceFile::NotFound => e == ErrMessages::NoFile,
                    SourceFile::Loaded(Err(_)) => e == ErrMessages::FileLoad,
                    SourceFile::Loaded(Ok(doc)) => e == ErrMessages::FileLoad && !PDF::accepts(doc),
                },
            },
    {
        match source {
            SourceFile::NotFound => Err(ErrMessages::NoFile),
            SourceFile::Loaded(loaded) => PDF::from_loaded(path, splits, loaded),
        }
    }

    /// The number of pages of the source, which is also the number of its
    /// last page.
    pub fn max_pages(&self) -> (count: u32)
        ensures
            count == document_pages(self.document()).len(),
    {
        proof {
            use_type_invariant(self);
        }
        self.pages.len() as u32
    }

    /// The requests, in their order.
    pub fn splits(&self) -> (list: &Vec<Split>)
        ensures
            request_views(list@) == self.requests(),
    {
        &self.splits
    }

    /// The directory that the outputs go to, with its trailing separator.
    pub fn target_path(&self) -> (directory: &str)
        ensures
            directory@ == self.directory(),
    {
        self.target_path.as_str()
    }

    /// The output of one request, made from a fresh copy of the source.
    pub fn extract(&self, split: &Split) -> (made: Result<OutputFile, ErrMessages>)
        ensures
            match made {
                Ok(file) => spec_output(self.document(), self.directory(), split@) == Ok::<
                    Output,
                    ErrMessages,
                >(file@),
                Err(e) => spec_output(self.document(), self.directory(), split@) == Err::<
                    Output,
                    ErrMessages,
                >(e),
            },
    {
        proof {
            use_type_invariant(self);
        }
        let del = deletion_set(self.pages.len() as u32, split.0, split.1);
        let mut doc = self.orig_doc.clone();
        doc.delete_pages(del.as_slice());
        let left = page_ids(&doc);
        if !pages_match(&left, &self.pages, split.0, split.1) {
            return Err(ErrMessages::FileSave);
        }
        if max_id(&doc) == u32::MAX {
            return Err(ErrMessages::FileSave);
        }
        match serialize(doc) {
            Ok(bytes) => {
                let path = self.target_path.clone().concat(split.2.as_str());
                Ok(OutputFile { path, bytes })
            },
            Err(_) => Err(ErrMessages::FileSave),
        }
    }

    /// Where the batch starts: at the first request, or done where there is
    /// none.
    pub fn start(&self) -> (state: BatchState)
        ensures
            state == start_state(self.requests().len()),
    {
        BatchState::start(self.splits.len())
    }

    /// What the caller is to do in `state`: write the output of the current
    /// request, or stop. It stops with `FileSave` where an earlier write
    /// failed or the current request yields no output, and with success
    /// where no request is left.
    pub fn step(&self, state: BatchState) -> (step: Step)
        ensures
            match step {
                Step::Save(file) => state matches BatchState::Processing(i) && i
                    < self.requests().len() && self.outputs()[i as int] == Ok::<
                    Output,
                    ErrMessages,
                >(file@),
                Step::Stop(Ok(_)) => state is Done || (state matches BatchState::Processing(i)
                    && i >= self.requests().len()),
                Step::Stop(Err(e)) => e == ErrMessages::FileSave && (state is SaveFailed || (
                state matches BatchState::Processing(i) && i < self.requests().len()
                    && self.outputs()[i as int] is Err)),
            },
    {
        match state {
            BatchState::Processing(i) => {
                if i >= self.splits.len() {
                    return Step::Stop(Ok(()));
                }
                match self.extract(&self.splits[i]) {
                    Ok(file) => Step::Save(file),
                    Err(e) => Step::Stop(Err(e)),
                }
            },
            BatchState::SaveFailed => Step::Stop(Err(ErrMessages::FileSave)),
            BatchState::Done => Step::Stop(Ok(())),
        }
    }

    /// Where the batch stands after the caller tried to write the output
    /// that `step` handed out in `state`.
    pub fn advance(&self, state: BatchState, saved: bool) -> (next: BatchState)
        ensures
            next == next_state(self.requests().len(), state, saved),
    {
        state.advance(self.splits.len(), saved)
    }

    /// Runs the whole batch in memory: the outputs of all requests, in their
    /// order, or `FileSave` where one of them yields none.
    pub fn split(&self) -> (made: Result<Vec<OutputFile>, ErrMessages>)
        ensures
            match made {
                Ok(files) => {
                    &&& files.len() == self.requests().len()
                    &&& forall|i: int|
                        0 <= i < files.len() ==> #[trigger] self.outputs()[i] == Ok::<
                            Output,
                            ErrMessages,
                        >(files[i]@)
                },
                Err(e) => {
                    &&& e == ErrMessages::FileSave
                    &&& exists|i: int|
                        0 <= i < self.requests().len() && (#[trigger] self.outputs()[i]) is Err
                },
            },
    {
        let mut files: Vec<OutputFile> = Vec::new();
        let mut state = self.start();
        loop
            invariant
                files.len() <= self.requests().len(),
                state == if files.len() < self.requests().len() {
                    BatchState::Processing(files.len())
                } else {
                    BatchState::Done
                },
                forall|i: int|
                    0 <= i < files.len() ==> #[trigger] self.outputs()[i] == Ok::<
                        Output,
                        ErrMessages,
                    >(files[i]@),
            decreases self.requests().len() - files.len(),
        {
            match self.step(state) {
                Step::Save(file) => {
                    files.push(file);
                    state = self.advance(state, true);
                },
                Step::Stop(Ok(_)) => {
                    return Ok(files);
                },
                Step::Stop(Err(e)) => {
                    return Err(e);
                },
            }
        }
    }
}

} // verus!
