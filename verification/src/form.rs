//! What the form holds between two frames, and what each of its buttons
//! decides.

use crate::error::ErrMessages;
use crate::request::{
    convert_rows, convert_splits, request_views, unit_views, Request, Split, SplitUnit,
};
use vstd::prelude::*;
use vstd::string::*;

verus! {

/// The line that the form shows for an error; none for `Empty`.
pub open spec fn message(err: ErrMessages) -> Seq<char> {
    match err {
        ErrMessages::NoNil => "No zero allowed."@,
        ErrMessages::NoNumber => "Provided input is not a number."@,
        ErrMessages::NoFile => "No file path provided."@,
        ErrMessages::NoInput => "One or more inputs are empty"@,
        ErrMessages::FileSave => "Failed to save files."@,
        ErrMessages::FileLoad => "Unabled to load file."@,
        ErrMessages::Empty => Seq::empty(),
    }
}

/// The state of the form: the rows, the path of the source, the error line
/// and whether the last batch went through.
#[derive(Debug, Clone, PartialEq)]
pub struct SplitParams {
    pub params: Vec<SplitUnit>,
    pub file: String,
    pub errors: String,
    pub done: bool,
}

/// A copy of the rows, text for text.
fn copy_rows(rows: &Vec<SplitUnit>) -> (copy: Vec<SplitUnit>)
    ensures
        unit_views(copy@) == unit_views(rows@),
{
    let mut copy: Vec<SplitUnit> = Vec::new();
    let mut i: usize = 0;
    while i < rows.len()
        invariant
            i <= rows.len(),
            copy.len() == i,
            forall|j: int| 0 <= j < i ==> copy[j]@ == rows[j]@,
        decreases rows.len() - i,
    {
        let row = &rows[i];
        copy.push(
            SplitUnit {
                from: row.from.clone(),
                to: row.to.clone(),
                filename: row.filename.clone(),
            },
        );
        i = i + 1;
    }
    copy
}

impl SplitParams {
    /// The form as it opens: one empty row, no path, no error.
    pub fn new() -> (form: SplitParams)
        ensures
            form.params@.len() == 1,
            form.params@[0]@.from.len() == 0,
            form.params@[0]@.to.len() == 0,
            form.params@[0]@.filename.len() == 0,
            form.file@.len() == 0,
            form.errors@.len() == 0,
            !form.done,
    {
        SplitParams {
            params: vec![SplitUnit::empty()],
            file: String::new(),
            errors: String::new(),
            done: false,
        }
    }

    /// Shows the line for `err`, or clears the line for `Empty`.
    pub fn set_error(&mut self, err: ErrMessages)
        ensures
            final(self).errors@ == message(err),
            final(self).params == old(self).params,
            final(self).file == old(self).file,
            final(self).done == old(self).done,
    {
        match err {
            ErrMessages::NoNil => self.errors = "No zero allowed.".to_owned(),
            ErrMessages::NoNumber => self.errors = "Provided input is not a number.".to_owned(),
            ErrMessages::NoFile => self.errors = "No file path provided.".to_owned(),
            ErrMessages::NoInput => self.errors = "One or more inputs are empty".to_owned(),
            ErrMessages::FileSave => self.errors = "Failed to save files.".to_owned(),
            ErrMessages::FileLoad => self.errors = "Unabled to load file.".to_owned(),
            ErrMessages::Empty => self.errors = String::new(),
        }
    }

    /// The button that adds a row: an empty one, after the others.
    pub fn add_row(&mut self)
        ensures
            final(self).params@.len() == old(self).params@.len() + 1,
            final(self).params@.drop_last() == old(self).params@,
            final(self).params@.last()@.from.len() == 0,
            final(self).params@.last()@.to.len() == 0,
            final(self).params@.last()@.filename.len() == 0,
            final(self).file == old(self).file,
            final(self).errors == old(self).errors,
            final(self).done == old(self).done,
    {
        self.params.push(SplitUnit::empty());
    }

    /// The button that deletes the last row. The first row always stays.
    pub fn delete_last(&mut self)
        ensures
            final(self).params@ == if old(self).params@.len() > 1 {
                old(self).params@.drop_last()
            } else {
                old(self).params@
            },
            final(self).file == old(self).file,
            final(self).errors == old(self).errors,
            final(self).done == old(self).done,
    {
        if self.params.len() > 1 {
            self.params.pop();
        }
    }

    /// The button that puts the form back to how it opened.
    pub fn reset(&mut self)
        ensures
            final(self).params@.len() == 1,
            final(self).params@[0]@.from.len() == 0,
            final(self).params@[0]@.to.len() == 0,
            final(self).params@[0]@.filename.len() == 0,
            final(self).file@.len() == 0,
            final(self).errors@.len() == 0,
            !final(self).done,
    {
        self.file = String::new();
        self.params = vec![SplitUnit::empty()];
        self.errors = String::new();
        self.done = false;
    }

    /// The first half of the button that splits, before any file is
    /// touched: without a path it shows `NoFile`; with rows that are no
    /// requests it shows the error of the first such row; else it clears the
    /// error line and hands out the requests.
    pub fn begin(&mut self) -> (requests: Option<Vec<Split>>)
        ensures
            final(self).params == old(self).params,
            final(self).file == old(self).file,
            final(self).done == old(self).done,
            match requests {
                Some(list) => {
                    &&& old(self).file@.len() > 0
                    &&& convert_rows(unit_views(old(self).params@)) == Ok::<
                        Seq<Request>,
                        ErrMessages,
                    >(request_views(list@))
                    &&& final(self).errors@ == message(ErrMessages::Empty)
                },
                None => if old(self).file@.len() == 0 {
                    final(self).errors@ == message(ErrMessages::NoFile)
                } else {
                    &&& convert_rows(unit_views(old(self).params@)) matches Err(e)
                    &&& final(self).errors@ == message(e)
                },
            },
    {
        if self.file.as_str().is_empty() {
            self.set_error(ErrMessages::NoFile);
            return None;
        }
        self.set_error(ErrMessages::Empty);
        match convert_splits(copy_rows(&self.params)) {
            Ok(list) => Some(list),
            Err(e) => {
                self.set_error(e);
                None
            },
        }
    }

    /// The second half of the button that splits: marks the form done where
    /// the batch went through, and shows the error where it did not.
    pub fn finish(&mut self, outcome: Result<(), ErrMessages>)
        ensures
            final(self).params == old(self).params,
            final(self).file == old(self).file,
            match outcome {
                Ok(_) => final(self).done && final(self).errors == old(self).errors,
                Err(e) => final(self).done == old(self).done && final(self).errors@ == message(e),
            },
    {
        match outcome {
            Ok(_) => {
                self.done = true;
            },
            Err(e) => {
                self.set_error(e);
            },
        }
    }
}

} // verus!
