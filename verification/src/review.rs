//! Reviewing configuration that is kept under version control: what to do
//! with a changed file, and the text that a line-by-line choice amounts to.

use crate::args::ConfigReviewManagedArgs;
use crate::error::text_view;
use crate::text::same_bytes;
use vstd::prelude::*;
use vstd::utf8::{decode_utf8, encode_utf8, valid_utf8};

verus! {

/// Whether a changed line was added or removed.
#[derive(Clone, Copy, PartialEq, Eq, Structural, Debug)]
pub enum ChangeType {
    Added,
    Removed,
}

/// A line that differs between the two texts, with the user's choice.
#[derive(Clone, Debug, PartialEq, Eq)]
pub struct ChangedLine {
    /// Whether the user accepted the change.
    pub is_checked: bool,
    pub change_type: ChangeType,
    /// The line with its line break, if it has one.
    pub line: String,
}

/// A [`ChangedLine`] as a mathematical value.
pub struct ChangedLineView {
    pub is_checked: bool,
    pub change_type: ChangeType,
    pub line: Seq<char>,
}

impl View for ChangedLine {
    type V = ChangedLineView;

    open spec fn view(&self) -> ChangedLineView {
        ChangedLineView {
            is_checked: self.is_checked,
            change_type: self.change_type,
            line: self.line@,
        }
    }
}

/// A run of lines of a reviewed file.
#[allow(inconsistent_fields)]
#[derive(Clone, Debug, PartialEq, Eq)]
pub enum Section {
    /// Lines that both texts share.
    Unchanged { lines: Vec<String> },
    /// Lines that differ.
    Changed { lines: Vec<ChangedLine> },
    /// A section that holds no text, such as a change of the file's mode.
    Other,
}

/// A [`Section`] as a mathematical value.
#[allow(inconsistent_fields)]
pub enum SectionView {
    Unchanged { lines: Seq<Seq<char>> },
    Changed { lines: Seq<ChangedLineView> },
    Other,
}

impl View for Section {
    type V = SectionView;

    open spec fn view(&self) -> SectionView {
        match self {
            Section::Unchanged { lines } => SectionView::Unchanged {
                lines: lines@.map_values(|l: String| l@),
            },
            Section::Changed { lines } => SectionView::Changed {
                lines: lines@.map_values(|l: ChangedLine| l@),
            },
            Section::Other => SectionView::Other,
        }
    }
}

/// The sections of a list as mathematical values, in order.
pub open spec fn sections_view(sections: Seq<Section>) -> Seq<SectionView> {
    sections.map_values(|s: Section| s@)
}

/// Whether a changed line is part of the resulting text: an added line that
/// was accepted, or a removed line whose removal was not.
pub open spec fn is_kept(line: ChangedLineView) -> bool {
    line.is_checked == (line.change_type == ChangeType::Added)
}

/// The lines one after another.
pub open spec fn joined(lines: Seq<Seq<char>>) -> Seq<char>
    decreases lines.len(),
{
    if lines.len() == 0 {
        Seq::empty()
    } else {
        joined(lines.drop_last()) + lines.last()
    }
}

/// The kept lines among `lines`, one after another.
pub open spec fn kept_text(lines: Seq<ChangedLineView>) -> Seq<char>
    decreases lines.len(),
{
    if lines.len() == 0 {
        Seq::empty()
    } else if is_kept(lines.last()) {
        kept_text(lines.drop_last()) + lines.last().line
    } else {
        kept_text(lines.drop_last())
    }
}

/// The text that a section contributes.
pub open spec fn section_text(section: SectionView) -> Seq<char> {
    match section {
        SectionView::Unchanged { lines } => joined(lines),
        SectionView::Changed { lines } => kept_text(lines),
        SectionView::Other => Seq::empty(),
    }
}

/// The text that the reviewed sections amount to: every shared line and
/// every kept changed line, in order.
pub open spec fn reconstructed(sections: Seq<SectionView>) -> Seq<char>
    decreases sections.len(),
{
    if sections.len() == 0 {
        Seq::empty()
    } else {
        reconstructed(sections.drop_last()) + section_text(sections.last())
    }
}

/// Puts the reviewed text together from its sections.
pub fn reconstruct(sections: &Vec<Section>) -> (text: String)
    ensures
        text@ == reconstructed(sections_view(sections@)),
{
    let ghost all = sections_view(sections@);
    let mut text = String::new();
    let mut i: usize = 0;
    while i < sections.len()
        invariant
            i <= sections.len(),
            all == sections_view(sections@),
            text@ == reconstructed(all.take(i as int)),
        decreases sections.len() - i,
    {
        let ghost before = text@;
        assert(all.take(i + 1).drop_last() =~= all.take(i as int));
        assert(all.take(i + 1).last() == sections@[i as int]@);
        match &sections[i] {
            Section::Unchanged { lines } => {
                let ghost views = lines@.map_values(|l: String| l@);
                let mut j: usize = 0;
                while j < lines.len()
                    invariant
                        j <= lines.len(),
                        views == lines@.map_values(|l: String| l@),
                        text@ == before + joined(views.take(j as int)),
                    decreases lines.len() - j,
                {
                    assert(views.take(j + 1).drop_last() =~= views.take(j as int));
                    text.append(lines[j].as_str());
                    j += 1;
                }
                assert(views.take(j as int) =~= views);
            },
            Section::Changed { lines } => {
                let ghost views = lines@.map_values(|l: ChangedLine| l@);
                let mut j: usize = 0;
                while j < lines.len()
                    invariant
                        j <= lines.len(),
                        views == lines@.map_values(|l: ChangedLine| l@),
                        text@ == before + kept_text(views.take(j as int)),
                    decreases lines.len() - j,
                {
                    assert(views.take(j + 1).drop_last() =~= views.take(j as int));
                    assert(views.take(j + 1).last() == lines@[j as int]@);
                    let added = match lines[j].change_type {
                        ChangeType::Added => true,
                        ChangeType::Removed => false,
                    };
                    if lines[j].is_checked == added {
                        text.append(lines[j].line.as_str());
                    }
                    j += 1;
                }
                assert(views.take(j as int) =~= views);
            },
            Section::Other => {},
        }
        i += 1;
    }
    assert(all.take(i as int) =~= all);
    text
}

/// Why a review cannot take place.
#[derive(Clone, Copy, PartialEq, Eq, Structural, Debug)]
pub enum ReviewError {
    /// The configuration in use is not UTF-8.
    AppliedNotUtf8,
    /// The configuration under version control is not UTF-8.
    ManagedNotUtf8,
}

/// What to do about the configuration under version control.
#[derive(Clone, Debug, PartialEq, Eq)]
pub enum ReviewStep {
    /// It is gone or empty: remove the copy in use and the record of the
    /// last review.
    RemoveApplied,
    /// The copy in use equals it: nothing to do.
    UpToDate,
    /// Write `config` as the copy in use and `last_reviewed` as the record
    /// of the last review.
    Install { config: Vec<u8>, last_reviewed: Vec<u8> },
    /// Let the user choose, line by line, among the changes that lead from
    /// `applied` to `managed`.
    Review { applied: String, managed: String },
    /// Give up.
    Fail(ReviewError),
}

/// A [`ReviewStep`] as a mathematical value.
pub enum ReviewStepView {
    RemoveApplied,
    UpToDate,
    Install { config: Seq<u8>, last_reviewed: Seq<u8> },
    Review { applied: Seq<char>, managed: Seq<char> },
    Fail(ReviewError),
}

impl View for ReviewStep {
    type V = ReviewStepView;

    open spec fn view(&self) -> ReviewStepView {
        match self {
            ReviewStep::RemoveApplied => ReviewStepView::RemoveApplied,
            ReviewStep::UpToDate => ReviewStepView::UpToDate,
            ReviewStep::Install { config, last_reviewed } => ReviewStepView::Install {
                config: config@,
                last_reviewed: last_reviewed@,
            },
            ReviewStep::Review { applied, managed } => ReviewStepView::Review {
                applied: applied@,
                managed: managed@,
            },
            ReviewStep::Fail(e) => ReviewStepView::Fail(*e),
        }
    }
}

/// What to do when the configuration under version control is `managed` and
/// the copy in use is `applied`; a missing file counts as an empty one.
pub open spec fn review_spec(managed: Seq<u8>, applied: Seq<u8>, trust: bool) -> ReviewStepView {
    if managed.len() == 0 {
        ReviewStepView::RemoveApplied
    } else if applied == managed {
        ReviewStepView::UpToDate
    } else if trust {
        ReviewStepView::Install { config: managed, last_reviewed: managed }
    } else if !valid_utf8(applied) {
        ReviewStepView::Fail(ReviewError::AppliedNotUtf8)
    } else if !valid_utf8(managed) {
        ReviewStepView::Fail(ReviewError::ManagedNotUtf8)
    } else {
        ReviewStepView::Review { applied: decode_utf8(applied), managed: decode_utf8(managed) }
    }
}

/// Calls `String::from_utf8` of the standard library. Trusted: bytes that
/// are valid UTF-8 come back as the text they encode; for other bytes
/// `None` comes back.
#[verifier::external_body]
fn text_from_utf8(bytes: Vec<u8>) -> (text: Option<String>)
    ensures
        match text {
            Some(t) => valid_utf8(bytes@) && t@ == decode_utf8(bytes@),
            None => !valid_utf8(bytes@),
        },
{
    match String::from_utf8(bytes) {
        Ok(text) => Some(text),
        Err(_) => None,
    }
}

/// Decides what to do about the configuration under version control.
pub fn review_managed(args: &ConfigReviewManagedArgs, managed: Vec<u8>, applied: Vec<u8>) -> (step:
    ReviewStep)
    ensures
        step@ == review_spec(managed@, applied@, args.trust),
{
    if managed.len() == 0 {
        return ReviewStep::RemoveApplied;
    }
    if same_bytes(&applied, &managed) {
        return ReviewStep::UpToDate;
    }
    if args.trust {
        let last_reviewed = managed.clone();
        return ReviewStep::Install { config: managed, last_reviewed };
    }
    let applied_text = match text_from_utf8(applied) {
        Some(text) => text,
        None => {
            return ReviewStep::Fail(ReviewError::AppliedNotUtf8);
        },
    };
    let managed_text = match text_from_utf8(managed) {
        Some(text) => text,
        None => {
            return ReviewStep::Fail(ReviewError::ManagedNotUtf8);
        },
    };
    ReviewStep::Review { applied: applied_text, managed: managed_text }
}

/// What to write after the user has chosen: the reviewed text as the copy
/// in use, and `managed` as the record of the last review.
pub fn complete_review(sections: &Vec<Section>, managed: Vec<u8>) -> (step: ReviewStep)
    ensures
        step@ == (ReviewStepView::Install {
            config: encode_utf8(reconstructed(sections_view(sections@))),
            last_reviewed: managed@,
        }),
{
    let text = reconstruct(sections);
    let config = text.as_str().as_bytes_vec();
    ReviewStep::Install { config, last_reviewed: managed }
}

/// What the user is told after a step was carried out.
pub open spec fn status_text(step: ReviewStepView) -> Option<Seq<char>> {
    match step {
        ReviewStepView::RemoveApplied => Some(
            "The config file has been removed from the VCS, so we have removed the local copy too."@,
        ),
        ReviewStepView::UpToDate => Some("Your config file is already up to date"@),
        ReviewStepView::Install { .. } => Some("Updated repo config file"@),
        ReviewStepView::Review { .. } => None,
        ReviewStepView::Fail(ReviewError::AppliedNotUtf8) => Some(
            "Currently applied config was not utf-8"@,
        ),
        ReviewStepView::Fail(ReviewError::ManagedNotUtf8) => Some(
            "Config stored in VCS was not utf-8"@,
        ),
    }
}

impl ReviewStep {
    /// What the user is told once the step is carried out; for a failure,
    /// the message of the error.
    pub fn status(&self) -> (text: Option<String>)
        ensures
            text_view(text) == status_text(self@),
    {
        match self {
            ReviewStep::RemoveApplied => Some(
                String::from_str(
                    "The config file has been removed from the VCS, so we have removed the local copy too.",
                ),
            ),
            ReviewStep::UpToDate => Some(String::from_str("Your config file is already up to date")),
            ReviewStep::Install { .. } => Some(String::from_str("Updated repo config file")),
            ReviewStep::Review { .. } => None,
            ReviewStep::Fail(ReviewError::AppliedNotUtf8) => Some(
                String::from_str("Currently applied config was not utf-8"),
            ),
            ReviewStep::Fail(ReviewError::ManagedNotUtf8) => Some(
                String::from_str("Config stored in VCS was not utf-8"),
            ),
        }
    }
}

/// The warning and the advice given when configuration under version
/// control is switched off; the review goes on all the same.
pub open spec fn disabled_notice(enabled: bool) -> Option<(Seq<char>, Seq<char>)> {
    if enabled {
        None
    } else {
        Some(
            (
                "repo-managed-config is disabled."@,
                "Enable it with `jj config set <--user|--repo> repo-managed-config.enabled true`"@,
            ),
        )
    }
}

/// The warning and the advice to show before a review, given whether
/// configuration under version control is switched on.
pub fn review_notice(enabled: bool) -> (notice: Option<(String, String)>)
    ensures
        match notice {
            Some((warning, hint)) => disabled_notice(enabled) == Some((warning@, hint@)),
            None => disabled_notice(enabled) is None,
        },
{
    if enabled {
        None
    } else {
        Some(
            (
                String::from_str("repo-managed-config is disabled."),
                String::from_str(
                    "Enable it with `jj config set <--user|--repo> repo-managed-config.enabled true`",
                ),
            ),
        )
    }
}

} // verus!
