//! The staging context: the scoped pair of scratch files handed to the
//! conversion engine — one input written before the engine runs, one output
//! produced by it.
//!
//! This type is the verified core of that lifecycle: it tracks the two
//! files and their contents, and its contracts pin the cleanup guarantee —
//! both files are removed on every exit path, whether the dispatch finishes
//! normally or aborts early after a failed engine run.  The unverified
//! shell keeps a real temporary file beside each tracked slot and performs
//! the matching disk operation at each step.

use vstd::prelude::*;

verus! {

/// The scoped pair of scratch files for one conversion-engine run.
#[derive(Clone, Debug)]
pub struct StagingContext {
    input: Option<Vec<u8>>,
    output: Option<Vec<u8>>,
}

/// The mathematical shape of a staging context: each slot is the contents
/// of a present file, or absent after removal.
pub ghost struct StagingModel {
    pub input: Option<Seq<u8>>,
    pub output: Option<Seq<u8>>,
}

impl StagingModel {
    /// Both files are present: the context is ready for the engine.
    pub open spec fn staged(self) -> bool {
        self.input is Some && self.output is Some
    }

    /// Both files are gone: the context has been cleaned up.
    pub open spec fn files_removed(self) -> bool {
        self.input is None && self.output is None
    }
}

impl View for StagingContext {
    type V = StagingModel;

    closed spec fn view(&self) -> StagingModel {
        StagingModel {
            input: match self.input {
                Option::Some(ref v) => Some(v@),
                Option::None => None,
            },
            output: match self.output {
                Option::Some(ref v) => Some(v@),
                Option::None => None,
            },
        }
    }
}

impl StagingContext {
    /// Acquire the pair: the input file holds the given payload, the
    /// output file exists and is empty, to be filled by the engine.
    pub fn create(input_data: Vec<u8>) -> (s: StagingContext)
        ensures
            s@.staged(),
            s@.input == Some(input_data@),
            s@.output == Some(Seq::<u8>::empty()),
    {
        StagingContext { input: Some(input_data), output: Some(Vec::new()) }
    }

    /// The payload staged for the engine to read.
    pub fn input_contents(&self) -> (r: &Vec<u8>)
        requires
            self@.staged(),
        ensures
            Some(r@) == self@.input,
    {
        match &self.input {
            Option::Some(v) => v,
            Option::None => vstd::pervasive::unreached(),
        }
    }

    /// What the engine wrote into the output file.
    pub fn record_output(&mut self, data: Vec<u8>)
        requires
            old(self)@.staged(),
        ensures
            final(self)@.input == old(self)@.input,
            final(self)@.output == Some(data@),
    {
        self.output = Some(data);
    }

    /// Consume the output: hand its bytes out and remove both files.  This
    /// is the only way to read the output, and it cleans up.
    pub fn finish(&mut self) -> (r: Vec<u8>)
        requires
            old(self)@.staged(),
        ensures
            final(self)@.files_removed(),
            Some(r@) == old(self)@.output,
    {
        let data = match self.output.take() {
            Option::Some(v) => v,
            Option::None => vstd::pervasive::unreached(),
        };
        self.input = None;
        data
    }

    /// Abort early — after a failed engine run — without ever reading the
    /// output: both files are removed all the same.
    pub fn abort(&mut self)
        requires
            old(self)@.staged(),
        ensures
            final(self)@.files_removed(),
    {
        self.input = None;
        self.output = None;
    }

    /// Whether both files are gone.
    pub fn files_removed(&self) -> (b: bool)
        ensures
            b == self@.files_removed(),
    {
        self.input.is_none() && self.output.is_none()
    }
}

} // verus!
