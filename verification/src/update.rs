//! What is known of a newer version of the program.

use vstd::prelude::*;
use crate::text::{copy_opt, opt_text};

verus! {

/// A newer version that an update check has found.
#[derive(Clone, Debug, PartialEq, Eq)]
pub struct UpdateResult {
    version: String,
    current_version: String,
    body: Option<String>,
}

/// An update result as a mathematical value.
pub struct UpdateResultView {
    pub version: Seq<char>,
    pub current_version: Seq<char>,
    pub body: Option<Seq<char>>,
}

impl View for UpdateResult {
    type V = UpdateResultView;

    closed spec fn view(&self) -> UpdateResultView {
        UpdateResultView {
            version: self.version@,
            current_version: self.current_version@,
            body: opt_text(self.body),
        }
    }
}

/// An optional update result as a mathematical value.
pub open spec fn found_view(found: Option<UpdateResult>) -> Option<UpdateResultView> {
    match found {
        Some(update) => Some(update@),
        None => None,
    }
}

impl UpdateResult {
    /// The result of a check that found `version`, newer than
    /// `current_version`, with its release notes if it has any.
    pub fn new(version: String, current_version: String, body: Option<String>) -> (update:
        UpdateResult)
        ensures
            update@ == (UpdateResultView {
                version: version@,
                current_version: current_version@,
                body: opt_text(body),
            }),
    {
        UpdateResult { version, current_version, body }
    }

    /// The version that was found.
    pub fn version(&self) -> (version: &str)
        ensures
            version@ == self@.version,
    {
        self.version.as_str()
    }

    /// The version that is running.
    pub fn current_version(&self) -> (version: &str)
        ensures
            version@ == self@.current_version,
    {
        self.current_version.as_str()
    }

    /// The release notes, if there are any.
    pub fn body(&self) -> (body: Option<String>)
        ensures
            opt_text(body) == self@.body,
    {
        copy_opt(&self.body)
    }

    /// A copy of this result.
    pub fn copy(&self) -> (update: UpdateResult)
        ensures
            update@ == self@,
    {
        UpdateResult {
            version: self.version.clone(),
            current_version: self.current_version.clone(),
            body: copy_opt(&self.body),
        }
    }
}

/// Whether an update check has run, and what it found. `None` stands for no
/// check so far, `Some(None)` for a check that found nothing newer.
pub fn get_update_result(checked: &Option<Option<UpdateResult>>) -> (answer: (
    bool,
    Option<UpdateResult>,
))
    ensures
        match *checked {
            Some(found) => answer.0 && found_view(answer.1) == found_view(found),
            None => !answer.0 && answer.1 is None,
        },
{
    match checked {
        Some(Some(update)) => (true, Some(update.copy())),
        Some(None) => (true, None),
        None => (false, None),
    }
}

/// Whether a check has found a newer version: the menu then says so.
pub fn update_available(checked: &Option<Option<UpdateResult>>) -> (available: bool)
    ensures
        available == (*checked matches Some(Some(_))),
{
    match checked {
        Some(Some(_)) => true,
        _ => false,
    }
}

} // verus!
