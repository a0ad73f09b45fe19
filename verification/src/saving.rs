//! The stages of a save. The document is written beside its file, read back, and
//! only then put in the file's place, so that a save that fails leaves the file
//! that was there.
use vstd::prelude::*;

use crate::action::SaveOutcome;

verus! {

/// One stage of a save.
#[derive(Clone, Copy, Debug, PartialEq, Eq, Structural)]
pub enum SaveStage {
    /// Create the temporary file.
    Create,
    /// Write the document into it.
    Write,
    /// Read it back, and hold it against the document.
    Verify,
    /// Put it in the place of the file.
    Replace,
}

/// Where a save stands once a stage is over.
#[derive(Debug)]
pub enum SaveProgress {
    Next(SaveStage),
    Over(SaveOutcome),
}

impl SaveStage {
    /// The stage that follows one that went well.
    pub open spec fn following(self) -> Option<SaveStage> {
        match self {
            SaveStage::Create => Some(SaveStage::Write),
            SaveStage::Write => Some(SaveStage::Verify),
            SaveStage::Verify => Some(SaveStage::Replace),
            SaveStage::Replace => None,
        }
    }

    /// How a save ends that failed at this stage.
    pub open spec fn failing(self, error: String) -> SaveOutcome {
        match self {
            SaveStage::Create => SaveOutcome::CreateFailed(error),
            SaveStage::Write => SaveOutcome::WriteFailed(error),
            SaveStage::Verify => SaveOutcome::VerifyFailed(error),
            SaveStage::Replace => SaveOutcome::ReplaceFailed(error),
        }
    }

    /// Where a save stands once this stage is over.
    pub open spec fn after(self, error: Option<String>) -> SaveProgress {
        match error {
            Some(error) => SaveProgress::Over(self.failing(error)),
            None => match self.following() {
                Some(next) => SaveProgress::Next(next),
                None => SaveProgress::Over(SaveOutcome::Saved),
            },
        }
    }
}

/// Where a save stands once a stage is over.
pub fn save_step(stage: SaveStage, error: Option<String>) -> (progress: SaveProgress)
    ensures
        progress == stage.after(error),
{
    match error {
        Some(error) => SaveProgress::Over(
            match stage {
                SaveStage::Create => SaveOutcome::CreateFailed(error),
                SaveStage::Write => SaveOutcome::WriteFailed(error),
                SaveStage::Verify => SaveOutcome::VerifyFailed(error),
                SaveStage::Replace => SaveOutcome::ReplaceFailed(error),
            },
        ),
        None => match stage {
            SaveStage::Create => SaveProgress::Next(SaveStage::Write),
            SaveStage::Write => SaveProgress::Next(SaveStage::Verify),
            SaveStage::Verify => SaveProgress::Next(SaveStage::Replace),
            SaveStage::Replace => SaveProgress::Over(SaveOutcome::Saved),
        },
    }
}

/// The file is replaced only by what was read back as the document, and a save
/// counts as one only once the file was replaced.
pub proof fn only_what_read_back_replaces_the_file(stage: SaveStage, error: Option<String>)
    ensures
        stage.after(error) == SaveProgress::Next(SaveStage::Replace) <==> stage
            == SaveStage::Verify && error is None,
        stage.after(error) == SaveProgress::Over(SaveOutcome::Saved) <==> stage
            == SaveStage::Replace && error is None,
{
}

} // verus!
